//! Pull-up and pull-down control of the ports in standby and shutdown.
use vstd::prelude::*;

verus! {

/// Pull applied to a pin in standby and shutdown.
#[derive(Clone, Copy, Debug, PartialEq, Eq, Structural)]
pub enum Mode {
    NoPull,
    PullUp,
    PullDown,
}

/// Pin of a port.
#[derive(Clone, Copy, Debug, PartialEq, Eq, Structural)]
pub enum Pin {
    P0,
    P1,
    P2,
    P3,
    P4,
    P5,
    P6,
    P7,
    P8,
    P9,
    P10,
    P11,
    P12,
    P13,
    P14,
    P15,
}

impl Pin {
    pub open spec fn spec_index(self) -> u32 {
        match self {
            Pin::P0 => 0,
            Pin::P1 => 1,
            Pin::P2 => 2,
            Pin::P3 => 3,
            Pin::P4 => 4,
            Pin::P5 => 5,
            Pin::P6 => 6,
            Pin::P7 => 7,
            Pin::P8 => 8,
            Pin::P9 => 9,
            Pin::P10 => 10,
            Pin::P11 => 11,
            Pin::P12 => 12,
            Pin::P13 => 13,
            Pin::P14 => 14,
            Pin::P15 => 15,
        }
    }

    /// Bit position of the pin.
    pub fn index(self) -> (r: u32)
        ensures
            r == self.spec_index(),
            r < 16,
    {
        match self {
            Pin::P0 => 0,
            Pin::P1 => 1,
            Pin::P2 => 2,
            Pin::P3 => 3,
            Pin::P4 => 4,
            Pin::P5 => 5,
            Pin::P6 => 6,
            Pin::P7 => 7,
            Pin::P8 => 8,
            Pin::P9 => 9,
            Pin::P10 => 10,
            Pin::P11 => 11,
            Pin::P12 => 12,
            Pin::P13 => 13,
            Pin::P14 => 14,
            Pin::P15 => 15,
        }
    }
}

/// Access to the pull registers of the power controller.
pub struct Pxcr<'a> {
    pub pwr: &'a super::Pwr,
}

/// Bit `n` of `v` is set.
pub open spec fn bit_set(v: u32, n: u32) -> bool {
    v & (1u32 << n) != 0
}

/// The pull-down and pull-up registers of one port, as read.
pub struct PxcrR {
    pub pd: u32,
    pub pu: u32,
}

impl PxcrR {
    /// Pull of `pin`: pull-down wins over pull-up.
    pub fn mode(&self, pin: Pin) -> (r: Mode)
        ensures
            r == (if bit_set(self.pd, pin.spec_index()) {
                Mode::PullDown
            } else if bit_set(self.pu, pin.spec_index()) {
                Mode::PullUp
            } else {
                Mode::NoPull
            }),
    {
        let mask = 1u32 << pin.index();
        if self.pd & mask != 0 {
            Mode::PullDown
        } else if self.pu & mask != 0 {
            Mode::PullUp
        } else {
            Mode::NoPull
        }
    }
}

/// The pull-down and pull-up registers of one port, to be written.
pub struct PxcrW {
    pub pd: u32,
    pub pu: u32,
}

impl PxcrW {
    /// Sets the pull of `pin`. Setting pull-down leaves the pull-up bit as
    /// it was; pull-down wins when both are set.
    pub fn mode(&mut self, pin: Pin, mode: Mode)
        ensures
            ({
                let m = 1u32 << pin.spec_index();
                match mode {
                    Mode::PullDown => final(self).pd == old(self).pd | m && final(self).pu == old(
                        self,
                    ).pu,
                    Mode::PullUp => final(self).pu == old(self).pu | m && final(self).pd == old(
                        self,
                    ).pd & !m,
                    Mode::NoPull => final(self).pu == old(self).pu & !m && final(self).pd == old(
                        self,
                    ).pd & !m,
                }
            }),
    {
        let mask = 1u32 << pin.index();
        match mode {
            Mode::PullDown => self.pd = self.pd | mask,
            Mode::PullUp => {
                self.pu = self.pu | mask;
                self.pd = self.pd & !mask;
            },
            Mode::NoPull => {
                self.pu = self.pu & !mask;
                self.pd = self.pd & !mask;
            },
        }
    }
}

} // verus!
