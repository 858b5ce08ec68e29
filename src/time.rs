//! Frequencies in whole hertz.
use vstd::prelude::*;

verus! {

/// A frequency in hertz.
#[derive(Clone, Copy, Debug, PartialEq, Eq, Structural)]
pub struct Hertz {
    pub hz: u32,
}

impl Hertz {
    pub fn from_raw(hz: u32) -> (r: Hertz)
        ensures
            r.hz == hz,
    {
        Hertz { hz }
    }

    #[allow(non_snake_case)]
    pub fn Hz(hz: u32) -> (r: Hertz)
        ensures
            r.hz == hz,
    {
        Hertz { hz }
    }

    #[allow(non_snake_case)]
    pub fn kHz(khz: u32) -> (r: Hertz)
        requires
            khz * 1000 <= u32::MAX,
        ensures
            r.hz == khz * 1000,
    {
        Hertz { hz: khz * 1000 }
    }

    #[allow(non_snake_case)]
    pub fn MHz(mhz: u32) -> (r: Hertz)
        requires
            mhz * 1_000_000 <= u32::MAX,
        ensures
            r.hz == mhz * 1_000_000,
    {
        Hertz { hz: mhz * 1_000_000 }
    }

    pub fn raw(self) -> (r: u32)
        ensures
            r == self.hz,
    {
        self.hz
    }

    /// Whole kilohertz, rounded down.
    #[allow(non_snake_case)]
    pub fn to_kHz(self) -> (r: u32)
        ensures
            r == self.hz / 1000,
    {
        self.hz / 1000
    }
}

} // verus!
