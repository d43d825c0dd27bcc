use vstd::prelude::*;

verus! {

/// A point of a touch path. Each coordinate is held as the 64-bit pattern of
/// a binary64 floating-point number, which is also its form in the shared
/// record. The library stores, counts and hands on points; it never does
/// arithmetic on a coordinate.
#[derive(Debug, Clone, Copy, PartialEq, Eq, Hash, Structural)]
pub struct Point {
    pub x: u64,
    pub y: u64,
}

impl Point {
    pub fn new(x: u64, y: u64) -> (r: Point)
        ensures
            r == (Point { x, y }),
    {
        Point { x, y }
    }
}

} // verus!
