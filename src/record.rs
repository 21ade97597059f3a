use vstd::prelude::*;

verus! {

/// One vehicle location report: the row of the `locs` table for one plate.
///
/// The coordinates and the speed are kept as the IEEE-754 bit patterns of the
/// reported numbers (`f64` for the coordinates, `f32` for the speed), so that
/// a record read back can be compared bit for bit with the one written.
pub struct Loc {
    pub plate: String,
    pub latitude_bits: u64,
    pub longitude_bits: u64,
    pub speed_bits: u32,
}

/// The mathematical value of a [`Loc`].
pub ghost struct LocView {
    pub plate: Seq<char>,
    pub latitude_bits: u64,
    pub longitude_bits: u64,
    pub speed_bits: u32,
}

impl View for Loc {
    type V = LocView;

    open spec fn view(&self) -> LocView {
        LocView {
            plate: self.plate@,
            latitude_bits: self.latitude_bits,
            longitude_bits: self.longitude_bits,
            speed_bits: self.speed_bits,
        }
    }
}

impl Loc {
    pub fn new(plate: String, latitude_bits: u64, longitude_bits: u64, speed_bits: u32) -> (r: Loc)
        ensures
            r@ == (LocView {
                plate: plate@,
                latitude_bits: latitude_bits,
                longitude_bits: longitude_bits,
                speed_bits: speed_bits,
            }),
    {
        Loc { plate, latitude_bits, longitude_bits, speed_bits }
    }

    /// A field-for-field copy of the record.
    pub fn duplicate(&self) -> (r: Loc)
        ensures
            r@ == self@,
    {
        Loc {
            plate: self.plate.clone(),
            latitude_bits: self.latitude_bits,
            longitude_bits: self.longitude_bits,
            speed_bits: self.speed_bits,
        }
    }
}

} // verus!
