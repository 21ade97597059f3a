use vstd::prelude::*;

use crate::record::LocView;

verus! {

/// Creates the `locs` table unless it is there already.
pub const SCHEMA: &'static str = "CREATE TABLE IF NOT EXISTS locs (plate VARCHAR NOT NULL PRIMARY KEY, latitude FLOAT NOT NULL, longitude FLOAT NOT NULL, speed FLOAT NOT NULL, published BOOLEAN NOT NULL DEFAULT 0)";

/// Inserts a record, or replaces the whole record stored under its plate.
pub const REPLACE_LOC: &'static str = "REPLACE INTO locs (plate, latitude, longitude, speed) VALUES (?1, ?2, ?3, ?4)";

/// Every stored plate, in the storage engine's order.
pub const SELECT_PLATES: &'static str = "SELECT plate FROM locs";

/// The record stored under one plate, if any.
pub const SELECT_LOC: &'static str = "SELECT plate, latitude, longitude, speed FROM locs WHERE plate = ?1";

/// Removes the record stored under one plate, if any.
pub const DELETE_LOC: &'static str = "DELETE FROM locs WHERE plate = ?1";

/// Removes every record.
pub const DELETE_ALL: &'static str = "DELETE FROM locs";

/// The contents of the `locs` table: at most one record for each plate.
pub type Table = Map<Seq<char>, LocView>;

/// Each record is stored under its own plate.
pub open spec fn keyed(t: Table) -> bool {
    forall|p: Seq<char>| #[trigger] t.contains_key(p) ==> t[p].plate == p
}

/// The table after `REPLACE_LOC` for `rec`.
pub open spec fn replace(t: Table, rec: LocView) -> Table {
    t.insert(rec.plate, rec)
}

/// The rows that `SELECT_LOC` returns for `plate`.
pub open spec fn rows_for(t: Table, plate: Seq<char>) -> Seq<LocView> {
    if t.contains_key(plate) {
        seq![t[plate]]
    } else {
        Seq::empty()
    }
}

/// The table after `DELETE_LOC` for `plate`.
pub open spec fn delete_one(t: Table, plate: Seq<char>) -> Table {
    t.remove(plate)
}

/// How many rows `DELETE_LOC` for `plate` removes.
pub open spec fn affected_by_delete(t: Table, plate: Seq<char>) -> nat {
    if t.contains_key(plate) {
        1
    } else {
        0
    }
}

/// The table after `DELETE_ALL`.
pub open spec fn clear(t: Table) -> Table {
    Map::empty()
}

/// `plates` is an answer that `SELECT_PLATES` may give on `t`: each stored
/// plate once, in no promised order.
pub open spec fn lists(t: Table, plates: Seq<Seq<char>>) -> bool {
    &&& plates.no_duplicates()
    &&& plates.to_set() == t.dom()
}

/// The table after the records of `recs` were written one after another.
pub open spec fn write_all(t: Table, recs: Seq<LocView>) -> Table
    decreases recs.len(),
{
    if recs.len() == 0 {
        t
    } else {
        replace(write_all(t, recs.drop_last()), recs.last())
    }
}

} // verus!
