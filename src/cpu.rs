//! Which of the two cores runs this code.
use vstd::prelude::*;

verus! {

/// The two cores.
#[derive(Clone, Copy, Debug, PartialEq, Eq, Structural)]
pub enum Cpu {
    /// Normal, non-secure core (Cortex-M4).
    C1,
    /// Secure core (Cortex-M0+).
    C2,
}

/// Part number of the Cortex-M0+.
pub const M0P: u16 = 0xC60;

/// Part number of the Cortex-M4.
pub const M4: u16 = 0xC24;

/// Part number field (bits 15 to 4) of a CPUID word.
pub open spec fn part_number(cpuid: u32) -> u32 {
    (cpuid >> 4u32) & 0xFFFu32
}

impl Cpu {
    /// The core whose CPUID word is `cpuid`; the word must name one of the
    /// two.
    pub fn from_cpuid(cpuid: u32) -> (r: Cpu)
        requires
            part_number(cpuid) == M0P || part_number(cpuid) == M4,
        ensures
            r == (if part_number(cpuid) == M0P {
                Cpu::C2
            } else {
                Cpu::C1
            }),
    {
        let val = (cpuid >> 4u32) & 0xFFFu32;
        if val == M0P as u32 {
            Cpu::C2
        } else {
            Cpu::C1
        }
    }
}

} // verus!
