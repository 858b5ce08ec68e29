//! Mode changes of a pin.
use super::{Alternate, Analog, Input, OpenDrain, Output, Pin, PinRegs, PinState, Pull, PushPull};
use core::marker::PhantomData;
use vstd::prelude::*;

verus! {

/// Register values that select a mode.
pub trait PinMode {
}

impl PinMode for Input {
}

impl PinMode for Analog {
}

impl PinMode for Output<OpenDrain> {
}

impl PinMode for Output<PushPull> {
}

impl<const A: u8> PinMode for Alternate<A, OpenDrain> {
}

impl<const A: u8> PinMode for Alternate<A, PushPull> {
}

/// Modes a pin can be changed to.
pub trait Convertable<MODE> {
}

/// Mode field values.
pub const MODER_INPUT: u8 = 0b00;
pub const MODER_OUTPUT: u8 = 0b01;
pub const MODER_ALTERNATE: u8 = 0b10;
pub const MODER_ANALOG: u8 = 0b11;

/// `r` with the mode field `moder`, and the output type and alternate
/// function when the mode has them.
pub open spec fn with_mode(r: PinRegs, moder: u8, open_drain: Option<bool>, afr: Option<u8>) -> PinRegs {
    PinRegs {
        moder,
        open_drain: match open_drain {
            Some(o) => o,
            None => r.open_drain,
        },
        afr: match afr {
            Some(a) => a,
            None => r.afr,
        },
        ..r
    }
}

fn set_mode(r: PinRegs, moder: u8, open_drain: Option<bool>, afr: Option<u8>) -> (out: PinRegs)
    ensures
        out == with_mode(r, moder, open_drain, afr),
{
    let mut o = r;
    o.moder = moder;
    match open_drain {
        Some(v) => o.open_drain = v,
        None => {},
    }
    match afr {
        Some(a) => o.afr = a,
        None => {},
    }
    o
}

impl<MODE> Pin<MODE> {
    /// Input mode.
    pub fn into_input(self) -> (r: Pin<Input>)
        ensures
            r.regs == with_mode(self.regs, MODER_INPUT, None, None),
    {
        Pin { regs: set_mode(self.regs, MODER_INPUT, None, None), _mode: PhantomData }
    }

    /// Input mode without pull resistor.
    pub fn into_floating_input(self) -> (r: Pin<Input>)
        ensures
            r.regs == (PinRegs { pull: Pull::Floating, ..with_mode(self.regs, MODER_INPUT, None, None) }),
    {
        self.into_input().internal_resistor(Pull::Floating)
    }

    /// Input mode with pull-up.
    pub fn into_pull_up_input(self) -> (r: Pin<Input>)
        ensures
            r.regs == (PinRegs { pull: Pull::Up, ..with_mode(self.regs, MODER_INPUT, None, None) }),
    {
        self.into_input().internal_resistor(Pull::Up)
    }

    /// Input mode with pull-down.
    pub fn into_pull_down_input(self) -> (r: Pin<Input>)
        ensures
            r.regs == (PinRegs { pull: Pull::Down, ..with_mode(self.regs, MODER_INPUT, None, None) }),
    {
        self.into_input().internal_resistor(Pull::Down)
    }

    /// Analog mode.
    pub fn into_analog(self) -> (r: Pin<Analog>)
        ensures
            r.regs == with_mode(self.regs, MODER_ANALOG, None, None),
    {
        Pin { regs: set_mode(self.regs, MODER_ANALOG, None, None), _mode: PhantomData }
    }

    /// Open-drain output.
    pub fn into_open_drain_output(self) -> (r: Pin<Output<OpenDrain>>)
        ensures
            r.regs == with_mode(self.regs, MODER_OUTPUT, Some(true), None),
    {
        Pin { regs: set_mode(self.regs, MODER_OUTPUT, Some(true), None), _mode: PhantomData }
    }

    /// Open-drain output, driven to `initial_state` first.
    pub fn into_open_drain_output_in_state(self, initial_state: PinState) -> (r: Pin<Output<OpenDrain>>)
        ensures
            r.regs == with_mode(
                PinRegs { odr: initial_state == PinState::High, ..self.regs },
                MODER_OUTPUT,
                Some(true),
                None,
            ),
    {
        let regs = PinRegs { odr: initial_state == PinState::High, ..self.regs };
        Pin { regs: set_mode(regs, MODER_OUTPUT, Some(true), None), _mode: PhantomData }
    }

    /// Push-pull output, driven low first.
    pub fn into_push_pull_output(self) -> (r: Pin<Output<PushPull>>)
        ensures
            r.regs == with_mode(PinRegs { odr: false, ..self.regs }, MODER_OUTPUT, Some(false), None),
    {
        let regs = PinRegs { odr: false, ..self.regs };
        Pin { regs: set_mode(regs, MODER_OUTPUT, Some(false), None), _mode: PhantomData }
    }

    /// Alternate function `A`, push-pull.
    pub fn into_alternate<const A: u8>(self) -> (r: Pin<Alternate<A, PushPull>>)
        ensures
            r.regs == with_mode(self.regs, MODER_ALTERNATE, Some(false), Some(A)),
    {
        Pin { regs: set_mode(self.regs, MODER_ALTERNATE, Some(false), Some(A)), _mode: PhantomData }
    }

    /// Alternate function `A`, open-drain.
    pub fn into_alternate_open_drain<const A: u8>(self) -> (r: Pin<Alternate<A, OpenDrain>>)
        ensures
            r.regs == with_mode(self.regs, MODER_ALTERNATE, Some(true), Some(A)),
    {
        Pin { regs: set_mode(self.regs, MODER_ALTERNATE, Some(true), Some(A)), _mode: PhantomData }
    }
}

} // verus!
