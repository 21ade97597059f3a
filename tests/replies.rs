use locs::cors::{core_options, Method};
use locs::record::Loc;
use locs::reply::{
    create, create_options, delete, destroy, list, list_options, read, Body, Reply, Status,
    StorageError,
};

fn loc(plate: &str, lat: f64, lon: f64, speed: f32) -> Loc {
    Loc::new(plate.to_string(), lat.to_bits(), lon.to_bits(), speed.to_bits())
}

fn record_of(r: &Reply) -> &Loc {
    match &r.body {
        Body::Record(l) => l,
        _ => panic!("reply carries no record"),
    }
}

fn plates_of(r: &Reply) -> &Vec<String> {
    match &r.body {
        Body::Plates(v) => v,
        _ => panic!("reply carries no plates"),
    }
}

fn is_empty_body(r: &Reply) -> bool {
    matches!(r.body, Body::Empty)
}

#[test]
fn status_codes() {
    assert_eq!(Status::Success.code(), 200);
    assert_eq!(Status::Created.code(), 201);
    assert_eq!(Status::NotFound.code(), 404);
    assert_eq!(Status::InternalError.code(), 500);
}

#[test]
fn create_echoes_record() {
    let r = create(loc("ABC123", 48.85, 2.35, 13.5), Ok(()));
    assert!(r.status == Status::Created);
    let l = record_of(&r);
    assert_eq!(l.plate, "ABC123");
    assert_eq!(f64::from_bits(l.latitude_bits), 48.85);
    assert_eq!(f64::from_bits(l.longitude_bits), 2.35);
    assert_eq!(f32::from_bits(l.speed_bits), 13.5);
}

#[test]
fn create_accepts_out_of_range_values() {
    let r = create(loc("Q", 123.0, -500.0, -7.25), Ok(()));
    assert!(r.status == Status::Created);
    let l = record_of(&r);
    assert_eq!(f64::from_bits(l.latitude_bits), 123.0);
    assert_eq!(f64::from_bits(l.longitude_bits), -500.0);
    assert_eq!(f32::from_bits(l.speed_bits), -7.25);
}

#[test]
fn create_storage_failure() {
    let r = create(loc("ABC123", 1.0, 1.0, 1.0), Err(StorageError));
    assert!(r.status == Status::InternalError);
    assert!(is_empty_body(&r));
}

#[test]
fn read_found_gives_written_fields() {
    let r = read(Ok(vec![loc("ABC123", 1.0, 1.0, 1.0)]));
    assert!(r.status == Status::Success);
    let l = record_of(&r);
    assert_eq!(l.plate, "ABC123");
    assert_eq!(f64::from_bits(l.latitude_bits), 1.0);
    assert_eq!(f64::from_bits(l.longitude_bits), 1.0);
    assert_eq!(f32::from_bits(l.speed_bits), 1.0);
}

#[test]
fn read_after_second_write_gives_second() {
    let r = read(Ok(vec![loc("ABC123", 2.0, 2.0, 2.0)]));
    let l = record_of(&r);
    assert_eq!(f64::from_bits(l.latitude_bits), 2.0);
    assert_eq!(f64::from_bits(l.longitude_bits), 2.0);
    assert_eq!(f32::from_bits(l.speed_bits), 2.0);
}

#[test]
fn read_missing_is_not_found() {
    let r = read(Ok(vec![]));
    assert!(r.status == Status::NotFound);
    assert!(is_empty_body(&r));
}

#[test]
fn read_storage_failure() {
    let r = read(Err(StorageError));
    assert!(r.status == Status::InternalError);
}

#[test]
fn list_gives_plates() {
    let r = list(Ok(vec!["ABC123".to_string(), "XYZ999".to_string()]));
    assert!(r.status == Status::Success);
    assert_eq!(plates_of(&r), &vec!["ABC123".to_string(), "XYZ999".to_string()]);
}

#[test]
fn list_empty_is_no_error() {
    let r = list(Ok(vec![]));
    assert!(r.status == Status::Success);
    assert!(plates_of(&r).is_empty());
}

#[test]
fn list_storage_failure() {
    let r = list(Err(StorageError));
    assert!(r.status == Status::InternalError);
}

#[test]
fn delete_existing_succeeds() {
    let r = delete(Ok(1));
    assert!(r.status == Status::Success);
    assert!(is_empty_body(&r));
}

#[test]
fn delete_missing_is_not_found() {
    let r = delete(Ok(0));
    assert!(r.status == Status::NotFound);
    assert!(is_empty_body(&r));
}

#[test]
fn delete_storage_failure() {
    let r = delete(Err(StorageError));
    assert!(r.status == Status::InternalError);
}

#[test]
fn destroy_always_succeeds() {
    assert!(destroy(Ok(0)).status == Status::Success);
    assert!(destroy(Ok(7)).status == Status::Success);
    assert!(is_empty_body(&destroy(Ok(7))));
}

#[test]
fn destroy_storage_failure() {
    assert!(destroy(Err(StorageError)).status == Status::InternalError);
}

#[test]
fn preflight_replies_are_empty_successes() {
    let a = create_options();
    let b = list_options();
    assert!(a.status == Status::Success && is_empty_body(&a));
    assert!(b.status == Status::Success && is_empty_body(&b));
}

#[test]
fn cors_policy_is_permissive() {
    let p = core_options();
    assert!(p.all_origins);
    assert!(p.all_headers);
    assert!(p.allow_credentials);
    assert_eq!(p.max_age, Some(42));
    assert_eq!(p.fairing_route_base, "/");
    assert!(p.allowed_methods == vec![Method::Get, Method::Post, Method::Delete, Method::Options]);
}

#[test]
fn duplicate_copies_fields() {
    let a = loc("XYZ999", -33.9, 151.2, 80.0);
    let b = a.duplicate();
    assert_eq!(b.plate, "XYZ999");
    assert_eq!(b.latitude_bits, a.latitude_bits);
    assert_eq!(b.longitude_bits, a.longitude_bits);
    assert_eq!(b.speed_bits, a.speed_bits);
}

#[test]
fn distinct_plates_read_independently() {
    let a = read(Ok(vec![loc("ABC123", 10.0, 20.0, 30.0)]));
    let b = read(Ok(vec![loc("XYZ999", -10.0, -20.0, 5.5)]));
    assert_eq!(record_of(&a).plate, "ABC123");
    assert_eq!(f64::from_bits(record_of(&a).latitude_bits), 10.0);
    assert_eq!(record_of(&b).plate, "XYZ999");
    assert_eq!(f32::from_bits(record_of(&b).speed_bits), 5.5);
}

#[test]
fn read_gives_first_row() {
    let r = read(Ok(vec![loc("A", 1.0, 2.0, 3.0), loc("B", 4.0, 5.0, 6.0)]));
    assert_eq!(record_of(&r).plate, "A");
}

#[test]
fn delete_more_than_one_row_is_not_success() {
    assert!(delete(Ok(2)).status == Status::NotFound);
}
