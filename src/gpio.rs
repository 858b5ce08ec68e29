//! General-purpose pins: one pin's registers as decoded fields, with its
//! mode tracked in the type.
use core::marker::PhantomData;
use vstd::prelude::*;

pub mod alt;
pub mod convert;

verus! {

/// Alternate function `A` with output type `OType` (type state).
pub struct Alternate<const A: u8, OType> {
    pub _otype: PhantomData<OType>,
}

/// Open-drain output (type state).
pub struct OpenDrain;

/// Push-pull output (type state).
pub struct PushPull;

/// Analog pin (type state).
pub struct Analog;

/// Input pin (type state).
pub struct Input;

/// Output pin (type state).
pub struct Output<MODE> {
    pub _mode: PhantomData<MODE>,
}

/// Pull resistor of a pin.
#[derive(Clone, Copy, Debug, PartialEq, Eq, Structural)]
pub enum Pull {
    Floating,
    Up,
    Down,
}

/// Output slew rate.
#[derive(Clone, Copy, Debug, PartialEq, Eq, Structural)]
pub enum Speed {
    Low,
    Medium,
    Fast,
    High,
}

/// External interrupt edge.
#[derive(Clone, Copy, Debug, PartialEq, Eq, Structural)]
pub enum Edge {
    Rising,
    Falling,
    RisingFalling,
}

/// Level of a pin.
#[derive(Clone, Copy, Debug, PartialEq, Eq, Structural)]
pub enum PinState {
    Low,
    High,
}

/// Modes that can raise an external interrupt.
pub trait Interruptable {
}

/// Modes whose input level can be read.
pub trait Readable {
}

/// Modes with a configurable slew rate.
pub trait OutputSpeed {
}

/// Modes that drive or sense the pin.
pub trait Active {
}

/// Every mode but the alternate functions.
pub trait NotAlt {
}

/// Pins that have alternate function `A`.
pub trait IntoAf<const A: u8> {
}

impl<MODE> Interruptable for Output<MODE> {
}

impl Interruptable for Input {
}

impl Readable for Input {
}

impl Readable for Output<OpenDrain> {
}

impl Active for Input {
}

impl<OType> Active for Output<OType> {
}

impl<const A: u8, OType> Active for Alternate<A, OType> {
}

impl<OType> OutputSpeed for Output<OType> {
}

impl<const A: u8, OType> OutputSpeed for Alternate<A, OType> {
}

impl NotAlt for Input {
}

impl<OType> NotAlt for Output<OType> {
}

impl NotAlt for Analog {
}

/// Port and pin number of a pin.
pub trait PinExt {
    fn pin_id(&self) -> u8;

    fn port_id(&self) -> u8;
}

/// A port that can be split into its pins.
pub trait GpioExt {
    fn split(self) -> Self;
}

/// The register bits of one pin. `moder` is the mode field, `open_drain`
/// the output type, `afr` the alternate function, `odr` the output level
/// written and `idr` the input level read.
#[derive(Clone, Copy, Debug, PartialEq, Eq, Structural)]
pub struct PinRegs {
    pub port: u8,
    pub n: u8,
    pub moder: u8,
    pub open_drain: bool,
    pub afr: u8,
    pub odr: bool,
    pub idr: bool,
    pub speed: Speed,
    pub pull: Pull,
}

/// Pin `regs.n` of port `regs.port`, in mode `MODE`.
pub struct Pin<MODE> {
    pub regs: PinRegs,
    pub _mode: PhantomData<MODE>,
}

impl<MODE> Pin<MODE> {
    /// The pin whose registers read `regs`.
    pub fn new(regs: PinRegs) -> (r: Pin<MODE>)
        ensures
            r.regs == regs,
    {
        Pin { regs, _mode: PhantomData }
    }

    /// Sets the slew rate.
    pub fn speed(self, speed: Speed) -> (r: Pin<MODE>)
        ensures
            r.regs == (PinRegs { speed, ..self.regs }),
    {
        Pin { regs: PinRegs { speed, ..self.regs }, _mode: PhantomData }
    }

    /// Sets the pull resistor.
    pub fn internal_resistor(self, resistor: Pull) -> (r: Pin<MODE>)
        ensures
            r.regs == (PinRegs { pull: resistor, ..self.regs }),
    {
        Pin { regs: PinRegs { pull: resistor, ..self.regs }, _mode: PhantomData }
    }

    /// Sets the slew rate in place.
    pub fn set_speed(&mut self, speed: Speed)
        ensures
            final(self).regs == (PinRegs { speed, ..old(self).regs }),
    {
        self.regs = PinRegs { speed, ..self.regs };
    }

    /// Sets the pull resistor in place.
    pub fn set_internal_resistor(&mut self, resistor: Pull)
        ensures
            final(self).regs == (PinRegs { pull: resistor, ..old(self).regs }),
    {
        self.regs = PinRegs { pull: resistor, ..self.regs };
    }

    /// Sets the pull the pin keeps in standby and shutdown, in the pull
    /// registers of its port.
    pub fn set_internal_resistor_lp(&self, pulls: &mut crate::pwr::pxcr::PxcrW, resistor: Pull)
        requires
            self.regs.n < 16,
        ensures
            ({
                let m = 1u32 << (self.regs.n as u32);
                &&& final(pulls).pu == (if resistor == Pull::Up {
                    old(pulls).pu | m
                } else {
                    old(pulls).pu & !m
                })
                &&& final(pulls).pd == (if resistor == Pull::Down {
                    old(pulls).pd | m
                } else {
                    old(pulls).pd & !m
                })
            }),
    {
        let m = 1u32 << (self.regs.n as u32);
        if resistor == Pull::Up {
            pulls.pu = pulls.pu | m;
        } else {
            pulls.pu = pulls.pu & !m;
        }
        if resistor == Pull::Down {
            pulls.pd = pulls.pd | m;
        } else {
            pulls.pd = pulls.pd & !m;
        }
    }

    /// Low input level.
    pub fn is_low(&self) -> (r: bool)
        ensures
            r == !self.regs.idr,
    {
        !self.regs.idr
    }

    /// High input level.
    pub fn is_high(&self) -> (r: bool)
        ensures
            r == self.regs.idr,
    {
        !self.is_low()
    }
}

impl<MODE> PinExt for Pin<MODE> {
    fn pin_id(&self) -> u8 {
        self.regs.n
    }

    fn port_id(&self) -> u8 {
        self.regs.port
    }
}

impl<MODE> Pin<Output<MODE>> {
    /// Drives the pin high.
    pub fn set_high(&mut self)
        ensures
            final(self).regs == (PinRegs { odr: true, ..old(self).regs }),
    {
        self.regs = PinRegs { odr: true, ..self.regs };
    }

    /// Drives the pin low.
    pub fn set_low(&mut self)
        ensures
            final(self).regs == (PinRegs { odr: false, ..old(self).regs }),
    {
        self.regs = PinRegs { odr: false, ..self.regs };
    }

    /// The output is driven low.
    pub fn is_set_low(&self) -> (r: bool)
        ensures
            r == !self.regs.odr,
    {
        !self.regs.odr
    }

    /// The output is driven high.
    pub fn is_set_high(&self) -> (r: bool)
        ensures
            r == self.regs.odr,
    {
        !self.is_set_low()
    }

    /// The level the output is driven to.
    pub fn get_state(&self) -> (r: PinState)
        ensures
            r == (if self.regs.odr {
                PinState::High
            } else {
                PinState::Low
            }),
    {
        if self.is_set_low() {
            PinState::Low
        } else {
            PinState::High
        }
    }

    /// Drives the pin to `state`.
    pub fn set_state(&mut self, state: PinState)
        ensures
            final(self).regs == (PinRegs { odr: state == PinState::High, ..old(self).regs }),
    {
        match state {
            PinState::Low => self.set_low(),
            PinState::High => self.set_high(),
        }
    }

    /// Drives the pin to the other level.
    pub fn toggle(&mut self)
        ensures
            final(self).regs == (PinRegs { odr: !old(self).regs.odr, ..old(self).regs }),
    {
        if self.is_set_high() {
            self.set_low();
        } else {
            self.set_high();
        }
    }
}

} // verus!
