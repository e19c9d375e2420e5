use vstd::prelude::*;

verus! {

/// One CPU temperature reading, held exactly as the integer number of
/// millidegrees Celsius that the sensor file reported. Keeping the raw
/// millidegrees loses nothing: the reading in degrees is exactly
/// `millidegrees / 1000`, and every consumer works from the integer.
#[derive(Clone, Copy, Debug, PartialEq, Eq, Structural)]
pub struct Reading {
    pub millidegrees: i32,
}

impl Reading {
    /// Wraps a raw millidegree count as a reading, unchanged.
    pub fn from_millidegrees(millidegrees: i32) -> (r: Reading)
        ensures
            r.millidegrees == millidegrees,
    {
        Reading { millidegrees }
    }
}

} // verus!
