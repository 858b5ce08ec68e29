//! Reset and clock control: a model of the RCC registers as decoded
//! fields, with the checks that keep the clock tree in range.
use crate::flash::{Flash, Latency};
use crate::pwr::{Pwr, Vos};
use crate::time::Hertz;
use vstd::prelude::*;

verus! {

/// An argument outside the range a divider or multiplier accepts.
#[derive(Debug)]
pub struct ValueError {
    pub msg: &'static str,
}

/// Why a clock change was refused.
#[derive(Clone, Copy, Debug, PartialEq, Eq, Structural)]
pub enum Error {
    SysclkTooHighVosRange2,
    SmpsMsi24MhzTo4MhzIllegal,
    SmpsMsiUnsupportedRange,
    PllEnabled,
    SelectedClockNotEnabled,
    ClockInUse,
    PllNoClockSelected,
    PllClkIllegalRange,
    MsiNotReady,
    LseDisabled,
    PrescalerNotApplied,
    MsiPllDisabled,
}

/// Clock interrupt sources.
#[derive(Clone, Copy, Debug, PartialEq, Eq, Structural)]
pub enum Event {
    LsiReady,
    LseReady,
    MsiReady,
    HsiReady,
    HseReady,
    PllReady,
    Pllsai1Ready,
    HseCSS,
    LseCSS,
    Hsi48Ready,
    Lsi2Ready,
}

/// Wakeup clock after stop mode.
#[derive(Clone, Copy, Debug, PartialEq, Eq, Structural)]
pub enum Stopwuck {
    Msi,
    Hsi16,
}

/// Clock source of the radio system.
#[derive(Clone, Copy, Debug, PartialEq, Eq, Structural)]
pub enum RfClock {
    Hsi16,
    Hse,
}

/// MSI oscillator frequency.
#[derive(Clone, Copy, Debug, PartialEq, Eq, Structural)]
pub enum MsiRange {
    R100K,
    R200K,
    R400K,
    R800K,
    R1M,
    R2M,
    R4M,
    R8M,
    R16M,
    R24M,
    R32M,
    R48M,
}

impl MsiRange {
    /// Register encoding of the value.
    pub open spec fn spec_bits(self) -> u8 {
        match self {
            MsiRange::R100K => 0b0000,
            MsiRange::R200K => 0b0001,
            MsiRange::R400K => 0b0010,
            MsiRange::R800K => 0b0011,
            MsiRange::R1M => 0b0100,
            MsiRange::R2M => 0b0101,
            MsiRange::R4M => 0b0110,
            MsiRange::R8M => 0b0111,
            MsiRange::R16M => 0b1000,
            MsiRange::R24M => 0b1001,
            MsiRange::R32M => 0b1010,
            MsiRange::R48M => 0b1011,
        }
    }

    /// Register encoding of the value.
    pub fn bits(self) -> (r: u8)
        ensures
            r == self.spec_bits(),
    {
        match self {
            MsiRange::R100K => 0b0000,
            MsiRange::R200K => 0b0001,
            MsiRange::R400K => 0b0010,
            MsiRange::R800K => 0b0011,
            MsiRange::R1M => 0b0100,
            MsiRange::R2M => 0b0101,
            MsiRange::R4M => 0b0110,
            MsiRange::R8M => 0b0111,
            MsiRange::R16M => 0b1000,
            MsiRange::R24M => 0b1001,
            MsiRange::R32M => 0b1010,
            MsiRange::R48M => 0b1011,
        }
    }

    /// The value a register field encodes, if any.
    pub fn from_bits(b: u8) -> (r: Option<MsiRange>)
        ensures
            r matches Some(v) ==> v.spec_bits() == b,
            r is None ==> forall|v: MsiRange| v.spec_bits() != b,
    {
        if b == 0b0000 {
            return Some(MsiRange::R100K);
        }
        if b == 0b0001 {
            return Some(MsiRange::R200K);
        }
        if b == 0b0010 {
            return Some(MsiRange::R400K);
        }
        if b == 0b0011 {
            return Some(MsiRange::R800K);
        }
        if b == 0b0100 {
            return Some(MsiRange::R1M);
        }
        if b == 0b0101 {
            return Some(MsiRange::R2M);
        }
        if b == 0b0110 {
            return Some(MsiRange::R4M);
        }
        if b == 0b0111 {
            return Some(MsiRange::R8M);
        }
        if b == 0b1000 {
            return Some(MsiRange::R16M);
        }
        if b == 0b1001 {
            return Some(MsiRange::R24M);
        }
        if b == 0b1010 {
            return Some(MsiRange::R32M);
        }
        if b == 0b1011 {
            return Some(MsiRange::R48M);
        }
        None
    }
}

impl MsiRange {
    pub open spec fn spec_hz(self) -> u32 {
        match self {
            MsiRange::R100K => 100000,
            MsiRange::R200K => 200000,
            MsiRange::R400K => 400000,
            MsiRange::R800K => 800000,
            MsiRange::R1M => 1000000,
            MsiRange::R2M => 2000000,
            MsiRange::R4M => 4000000,
            MsiRange::R8M => 8000000,
            MsiRange::R16M => 16000000,
            MsiRange::R24M => 24000000,
            MsiRange::R32M => 32000000,
            MsiRange::R48M => 48000000,
        }
    }

    /// The frequency of the range.
    pub fn hertz(self) -> (r: Hertz)
        ensures
            r.hz == self.spec_hz(),
    {
        match self {
            MsiRange::R100K => Hertz::from_raw(100000),
            MsiRange::R200K => Hertz::from_raw(200000),
            MsiRange::R400K => Hertz::from_raw(400000),
            MsiRange::R800K => Hertz::from_raw(800000),
            MsiRange::R1M => Hertz::from_raw(1000000),
            MsiRange::R2M => Hertz::from_raw(2000000),
            MsiRange::R4M => Hertz::from_raw(4000000),
            MsiRange::R8M => Hertz::from_raw(8000000),
            MsiRange::R16M => Hertz::from_raw(16000000),
            MsiRange::R24M => Hertz::from_raw(24000000),
            MsiRange::R32M => Hertz::from_raw(32000000),
            MsiRange::R48M => Hertz::from_raw(48000000),
        }
    }
}

/// Division of the MCO output.
#[derive(Clone, Copy, Debug, PartialEq, Eq, Structural)]
pub enum McoPrescaler {
    D1,
    D2,
    D4,
    D8,
    D16,
}

impl McoPrescaler {
    /// Register encoding of the value.
    pub open spec fn spec_bits(self) -> u8 {
        match self {
            McoPrescaler::D1 => 0b000,
            McoPrescaler::D2 => 0b001,
            McoPrescaler::D4 => 0b010,
            McoPrescaler::D8 => 0b011,
            McoPrescaler::D16 => 0b100,
        }
    }

    /// Register encoding of the value.
    pub fn bits(self) -> (r: u8)
        ensures
            r == self.spec_bits(),
    {
        match self {
            McoPrescaler::D1 => 0b000,
            McoPrescaler::D2 => 0b001,
            McoPrescaler::D4 => 0b010,
            McoPrescaler::D8 => 0b011,
            McoPrescaler::D16 => 0b100,
        }
    }

    /// The value a register field encodes, if any.
    pub fn from_bits(b: u8) -> (r: Option<McoPrescaler>)
        ensures
            r matches Some(v) ==> v.spec_bits() == b,
            r is None ==> forall|v: McoPrescaler| v.spec_bits() != b,
    {
        if b == 0b000 {
            return Some(McoPrescaler::D1);
        }
        if b == 0b001 {
            return Some(McoPrescaler::D2);
        }
        if b == 0b010 {
            return Some(McoPrescaler::D4);
        }
        if b == 0b011 {
            return Some(McoPrescaler::D8);
        }
        if b == 0b100 {
            return Some(McoPrescaler::D16);
        }
        None
    }
}

impl McoPrescaler {
    pub open spec fn spec_div(self) -> u8 {
        match self {
            McoPrescaler::D1 => 1,
            McoPrescaler::D2 => 2,
            McoPrescaler::D4 => 4,
            McoPrescaler::D8 => 8,
            McoPrescaler::D16 => 16,
        }
    }

    /// Division factor.
    pub fn div_scale(self) -> (r: u8)
        ensures
            r == self.spec_div(),
            r >= 1,
    {
        match self {
            McoPrescaler::D1 => 1,
            McoPrescaler::D2 => 2,
            McoPrescaler::D4 => 4,
            McoPrescaler::D8 => 8,
            McoPrescaler::D16 => 16,
        }
    }
}

/// Clock put out on MCO.
#[derive(Clone, Copy, Debug, PartialEq, Eq, Structural)]
pub enum McoSelector {
    Disabled,
    Sysclk,
    Msi,
    Hsi16,
    HseAfter,
    Pllrclk,
    Lsi1,
    Lsi2,
    Lse,
    Hsi48,
    HseBefore,
}

impl McoSelector {
    /// Register encoding of the value.
    pub open spec fn spec_bits(self) -> u8 {
        match self {
            McoSelector::Disabled => 0b0000,
            McoSelector::Sysclk => 0b0001,
            McoSelector::Msi => 0b0010,
            McoSelector::Hsi16 => 0b0011,
            McoSelector::HseAfter => 0b0100,
            McoSelector::Pllrclk => 0b0101,
            McoSelector::Lsi1 => 0b0110,
            McoSelector::Lsi2 => 0b0111,
            McoSelector::Lse => 0b1000,
            McoSelector::Hsi48 => 0b1001,
            McoSelector::HseBefore => 0b1100,
        }
    }

    /// Register encoding of the value.
    pub fn bits(self) -> (r: u8)
        ensures
            r == self.spec_bits(),
    {
        match self {
            McoSelector::Disabled => 0b0000,
            McoSelector::Sysclk => 0b0001,
            McoSelector::Msi => 0b0010,
            McoSelector::Hsi16 => 0b0011,
            McoSelector::HseAfter => 0b0100,
            McoSelector::Pllrclk => 0b0101,
            McoSelector::Lsi1 => 0b0110,
            McoSelector::Lsi2 => 0b0111,
            McoSelector::Lse => 0b1000,
            McoSelector::Hsi48 => 0b1001,
            McoSelector::HseBefore => 0b1100,
        }
    }

    /// The value a register field encodes, if any.
    pub fn from_bits(b: u8) -> (r: Option<McoSelector>)
        ensures
            r matches Some(v) ==> v.spec_bits() == b,
            r is None ==> forall|v: McoSelector| v.spec_bits() != b,
    {
        if b == 0b0000 {
            return Some(McoSelector::Disabled);
        }
        if b == 0b0001 {
            return Some(McoSelector::Sysclk);
        }
        if b == 0b0010 {
            return Some(McoSelector::Msi);
        }
        if b == 0b0011 {
            return Some(McoSelector::Hsi16);
        }
        if b == 0b0100 {
            return Some(McoSelector::HseAfter);
        }
        if b == 0b0101 {
            return Some(McoSelector::Pllrclk);
        }
        if b == 0b0110 {
            return Some(McoSelector::Lsi1);
        }
        if b == 0b0111 {
            return Some(McoSelector::Lsi2);
        }
        if b == 0b1000 {
            return Some(McoSelector::Lse);
        }
        if b == 0b1001 {
            return Some(McoSelector::Hsi48);
        }
        if b == 0b1100 {
            return Some(McoSelector::HseBefore);
        }
        None
    }
}

/// APB prescaler.
#[derive(Clone, Copy, Debug, PartialEq, Eq, Structural)]
pub enum PpreScaler {
    D1,
    D2,
    D4,
    D8,
    D16,
}

impl PpreScaler {
    /// Register encoding of the value.
    pub open spec fn spec_bits(self) -> u8 {
        match self {
            PpreScaler::D1 => 0b000,
            PpreScaler::D2 => 0b100,
            PpreScaler::D4 => 0b101,
            PpreScaler::D8 => 0b110,
            PpreScaler::D16 => 0b111,
        }
    }

    /// Register encoding of the value.
    pub fn bits(self) -> (r: u8)
        ensures
            r == self.spec_bits(),
    {
        match self {
            PpreScaler::D1 => 0b000,
            PpreScaler::D2 => 0b100,
            PpreScaler::D4 => 0b101,
            PpreScaler::D8 => 0b110,
            PpreScaler::D16 => 0b111,
        }
    }

    /// The value a register field encodes, if any.
    pub fn from_bits(b: u8) -> (r: Option<PpreScaler>)
        ensures
            r matches Some(v) ==> v.spec_bits() == b,
            r is None ==> forall|v: PpreScaler| v.spec_bits() != b,
    {
        if b == 0b000 {
            return Some(PpreScaler::D1);
        }
        if b == 0b100 {
            return Some(PpreScaler::D2);
        }
        if b == 0b101 {
            return Some(PpreScaler::D4);
        }
        if b == 0b110 {
            return Some(PpreScaler::D8);
        }
        if b == 0b111 {
            return Some(PpreScaler::D16);
        }
        None
    }
}

impl PpreScaler {
    pub open spec fn spec_div(self) -> u8 {
        match self {
            PpreScaler::D1 => 1,
            PpreScaler::D2 => 2,
            PpreScaler::D4 => 4,
            PpreScaler::D8 => 8,
            PpreScaler::D16 => 16,
        }
    }

    /// Division factor.
    pub fn div_scale(self) -> (r: u8)
        ensures
            r == self.spec_div(),
            r >= 1,
    {
        match self {
            PpreScaler::D1 => 1,
            PpreScaler::D2 => 2,
            PpreScaler::D4 => 4,
            PpreScaler::D8 => 8,
            PpreScaler::D16 => 16,
        }
    }
}

/// AHB prescaler.
#[derive(Clone, Copy, Debug, PartialEq, Eq, Structural)]
pub enum PreScaler {
    D1,
    D3,
    D5,
    D6,
    D10,
    D32,
    D2,
    D4,
    D8,
    D16,
    D64,
    D128,
    D256,
    D512,
}

impl PreScaler {
    /// Register encoding of the value.
    pub open spec fn spec_bits(self) -> u8 {
        match self {
            PreScaler::D1 => 0b0000,
            PreScaler::D3 => 0b0001,
            PreScaler::D5 => 0b0010,
            PreScaler::D6 => 0b0101,
            PreScaler::D10 => 0b0110,
            PreScaler::D32 => 0b0111,
            PreScaler::D2 => 0b1000,
            PreScaler::D4 => 0b1001,
            PreScaler::D8 => 0b1010,
            PreScaler::D16 => 0b1011,
            PreScaler::D64 => 0b1100,
            PreScaler::D128 => 0b1101,
            PreScaler::D256 => 0b1110,
            PreScaler::D512 => 0b1111,
        }
    }

    /// Register encoding of the value.
    pub fn bits(self) -> (r: u8)
        ensures
            r == self.spec_bits(),
    {
        match self {
            PreScaler::D1 => 0b0000,
            PreScaler::D3 => 0b0001,
            PreScaler::D5 => 0b0010,
            PreScaler::D6 => 0b0101,
            PreScaler::D10 => 0b0110,
            PreScaler::D32 => 0b0111,
            PreScaler::D2 => 0b1000,
            PreScaler::D4 => 0b1001,
            PreScaler::D8 => 0b1010,
            PreScaler::D16 => 0b1011,
            PreScaler::D64 => 0b1100,
            PreScaler::D128 => 0b1101,
            PreScaler::D256 => 0b1110,
            PreScaler::D512 => 0b1111,
        }
    }

    /// The value a register field encodes, if any.
    pub fn from_bits(b: u8) -> (r: Option<PreScaler>)
        ensures
            r matches Some(v) ==> v.spec_bits() == b,
            r is None ==> forall|v: PreScaler| v.spec_bits() != b,
    {
        if b == 0b0000 {
            return Some(PreScaler::D1);
        }
        if b == 0b0001 {
            return Some(PreScaler::D3);
        }
        if b == 0b0010 {
            return Some(PreScaler::D5);
        }
        if b == 0b0101 {
            return Some(PreScaler::D6);
        }
        if b == 0b0110 {
            return Some(PreScaler::D10);
        }
        if b == 0b0111 {
            return Some(PreScaler::D32);
        }
        if b == 0b1000 {
            return Some(PreScaler::D2);
        }
        if b == 0b1001 {
            return Some(PreScaler::D4);
        }
        if b == 0b1010 {
            return Some(PreScaler::D8);
        }
        if b == 0b1011 {
            return Some(PreScaler::D16);
        }
        if b == 0b1100 {
            return Some(PreScaler::D64);
        }
        if b == 0b1101 {
            return Some(PreScaler::D128);
        }
        if b == 0b1110 {
            return Some(PreScaler::D256);
        }
        if b == 0b1111 {
            return Some(PreScaler::D512);
        }
        None
    }
}

impl PreScaler {
    pub open spec fn spec_div(self) -> u16 {
        match self {
            PreScaler::D1 => 1,
            PreScaler::D3 => 3,
            PreScaler::D5 => 5,
            PreScaler::D6 => 6,
            PreScaler::D10 => 10,
            PreScaler::D32 => 32,
            PreScaler::D2 => 2,
            PreScaler::D4 => 4,
            PreScaler::D8 => 8,
            PreScaler::D16 => 16,
            PreScaler::D64 => 64,
            PreScaler::D128 => 128,
            PreScaler::D256 => 256,
            PreScaler::D512 => 512,
        }
    }

    /// Division factor.
    pub fn div_scale(self) -> (r: u16)
        ensures
            r == self.spec_div(),
            r >= 1,
    {
        match self {
            PreScaler::D1 => 1,
            PreScaler::D3 => 3,
            PreScaler::D5 => 5,
            PreScaler::D6 => 6,
            PreScaler::D10 => 10,
            PreScaler::D32 => 32,
            PreScaler::D2 => 2,
            PreScaler::D4 => 4,
            PreScaler::D8 => 8,
            PreScaler::D16 => 16,
            PreScaler::D64 => 64,
            PreScaler::D128 => 128,
            PreScaler::D256 => 256,
            PreScaler::D512 => 512,
        }
    }
}

/// System clock source.
#[derive(Clone, Copy, Debug, PartialEq, Eq, Structural)]
pub enum SysclkSwitch {
    Msi,
    Hsi16,
    Hse,
    Pll,
}

impl SysclkSwitch {
    /// Register encoding of the value.
    pub open spec fn spec_bits(self) -> u8 {
        match self {
            SysclkSwitch::Msi => 0b00,
            SysclkSwitch::Hsi16 => 0b01,
            SysclkSwitch::Hse => 0b10,
            SysclkSwitch::Pll => 0b11,
        }
    }

    /// Register encoding of the value.
    pub fn bits(self) -> (r: u8)
        ensures
            r == self.spec_bits(),
    {
        match self {
            SysclkSwitch::Msi => 0b00,
            SysclkSwitch::Hsi16 => 0b01,
            SysclkSwitch::Hse => 0b10,
            SysclkSwitch::Pll => 0b11,
        }
    }

    /// The value a register field encodes, if any.
    pub fn from_bits(b: u8) -> (r: Option<SysclkSwitch>)
        ensures
            r matches Some(v) ==> v.spec_bits() == b,
            r is None ==> forall|v: SysclkSwitch| v.spec_bits() != b,
    {
        if b == 0b00 {
            return Some(SysclkSwitch::Msi);
        }
        if b == 0b01 {
            return Some(SysclkSwitch::Hsi16);
        }
        if b == 0b10 {
            return Some(SysclkSwitch::Hse);
        }
        if b == 0b11 {
            return Some(SysclkSwitch::Pll);
        }
        None
    }
}

/// PLL input clock.
#[derive(Clone, Copy, Debug, PartialEq, Eq, Structural)]
pub enum PllSrc {
    NoClock,
    Msi,
    Hsi16,
    Hse,
}

impl PllSrc {
    /// Register encoding of the value.
    pub open spec fn spec_bits(self) -> u8 {
        match self {
            PllSrc::NoClock => 0b00,
            PllSrc::Msi => 0b01,
            PllSrc::Hsi16 => 0b10,
            PllSrc::Hse => 0b11,
        }
    }

    /// Register encoding of the value.
    pub fn bits(self) -> (r: u8)
        ensures
            r == self.spec_bits(),
    {
        match self {
            PllSrc::NoClock => 0b00,
            PllSrc::Msi => 0b01,
            PllSrc::Hsi16 => 0b10,
            PllSrc::Hse => 0b11,
        }
    }

    /// The value a register field encodes, if any.
    pub fn from_bits(b: u8) -> (r: Option<PllSrc>)
        ensures
            r matches Some(v) ==> v.spec_bits() == b,
            r is None ==> forall|v: PllSrc| v.spec_bits() != b,
    {
        if b == 0b00 {
            return Some(PllSrc::NoClock);
        }
        if b == 0b01 {
            return Some(PllSrc::Msi);
        }
        if b == 0b10 {
            return Some(PllSrc::Hsi16);
        }
        if b == 0b11 {
            return Some(PllSrc::Hse);
        }
        None
    }
}

/// Division of the PLL input clock.
#[derive(Clone, Copy, Debug, PartialEq, Eq, Structural)]
pub enum Pllm {
    D1,
    D2,
    D3,
    D4,
    D5,
    D6,
    D7,
    D8,
}

impl Pllm {
    /// Register encoding of the value.
    pub open spec fn spec_bits(self) -> u8 {
        match self {
            Pllm::D1 => 0b000,
            Pllm::D2 => 0b001,
            Pllm::D3 => 0b010,
            Pllm::D4 => 0b011,
            Pllm::D5 => 0b100,
            Pllm::D6 => 0b101,
            Pllm::D7 => 0b110,
            Pllm::D8 => 0b111,
        }
    }

    /// Register encoding of the value.
    pub fn bits(self) -> (r: u8)
        ensures
            r == self.spec_bits(),
    {
        match self {
            Pllm::D1 => 0b000,
            Pllm::D2 => 0b001,
            Pllm::D3 => 0b010,
            Pllm::D4 => 0b011,
            Pllm::D5 => 0b100,
            Pllm::D6 => 0b101,
            Pllm::D7 => 0b110,
            Pllm::D8 => 0b111,
        }
    }

    /// The value a register field encodes, if any.
    pub fn from_bits(b: u8) -> (r: Option<Pllm>)
        ensures
            r matches Some(v) ==> v.spec_bits() == b,
            r is None ==> forall|v: Pllm| v.spec_bits() != b,
    {
        if b == 0b000 {
            return Some(Pllm::D1);
        }
        if b == 0b001 {
            return Some(Pllm::D2);
        }
        if b == 0b010 {
            return Some(Pllm::D3);
        }
        if b == 0b011 {
            return Some(Pllm::D4);
        }
        if b == 0b100 {
            return Some(Pllm::D5);
        }
        if b == 0b101 {
            return Some(Pllm::D6);
        }
        if b == 0b110 {
            return Some(Pllm::D7);
        }
        if b == 0b111 {
            return Some(Pllm::D8);
        }
        None
    }
}

impl Pllm {
    pub open spec fn spec_div(self) -> u8 {
        match self {
            Pllm::D1 => 1,
            Pllm::D2 => 2,
            Pllm::D3 => 3,
            Pllm::D4 => 4,
            Pllm::D5 => 5,
            Pllm::D6 => 6,
            Pllm::D7 => 7,
            Pllm::D8 => 8,
        }
    }

    /// Division factor.
    pub fn div_factor(self) -> (r: u8)
        ensures
            r == self.spec_div(),
            r >= 1,
    {
        match self {
            Pllm::D1 => 1,
            Pllm::D2 => 2,
            Pllm::D3 => 3,
            Pllm::D4 => 4,
            Pllm::D5 => 5,
            Pllm::D6 => 6,
            Pllm::D7 => 7,
            Pllm::D8 => 8,
        }
    }
}

/// Division for the PLL Q and R outputs.
#[derive(Clone, Copy, Debug, PartialEq, Eq, Structural)]
pub enum PllQR {
    D2,
    D3,
    D4,
    D5,
    D6,
    D7,
    D8,
}

impl PllQR {
    /// Register encoding of the value.
    pub open spec fn spec_bits(self) -> u8 {
        match self {
            PllQR::D2 => 0b001,
            PllQR::D3 => 0b010,
            PllQR::D4 => 0b011,
            PllQR::D5 => 0b100,
            PllQR::D6 => 0b101,
            PllQR::D7 => 0b110,
            PllQR::D8 => 0b111,
        }
    }

    /// Register encoding of the value.
    pub fn bits(self) -> (r: u8)
        ensures
            r == self.spec_bits(),
    {
        match self {
            PllQR::D2 => 0b001,
            PllQR::D3 => 0b010,
            PllQR::D4 => 0b011,
            PllQR::D5 => 0b100,
            PllQR::D6 => 0b101,
            PllQR::D7 => 0b110,
            PllQR::D8 => 0b111,
        }
    }

    /// The value a register field encodes, if any.
    pub fn from_bits(b: u8) -> (r: Option<PllQR>)
        ensures
            r matches Some(v) ==> v.spec_bits() == b,
            r is None ==> forall|v: PllQR| v.spec_bits() != b,
    {
        if b == 0b001 {
            return Some(PllQR::D2);
        }
        if b == 0b010 {
            return Some(PllQR::D3);
        }
        if b == 0b011 {
            return Some(PllQR::D4);
        }
        if b == 0b100 {
            return Some(PllQR::D5);
        }
        if b == 0b101 {
            return Some(PllQR::D6);
        }
        if b == 0b110 {
            return Some(PllQR::D7);
        }
        if b == 0b111 {
            return Some(PllQR::D8);
        }
        None
    }
}

impl PllQR {
    pub open spec fn spec_div(self) -> u8 {
        match self {
            PllQR::D2 => 2,
            PllQR::D3 => 3,
            PllQR::D4 => 4,
            PllQR::D5 => 5,
            PllQR::D6 => 6,
            PllQR::D7 => 7,
            PllQR::D8 => 8,
        }
    }

    /// Division factor.
    pub fn div_factor(self) -> (r: u8)
        ensures
            r == self.spec_div(),
            r >= 1,
    {
        match self {
            PllQR::D2 => 2,
            PllQR::D3 => 3,
            PllQR::D4 => 4,
            PllQR::D5 => 5,
            PllQR::D6 => 6,
            PllQR::D7 => 7,
            PllQR::D8 => 8,
        }
    }
}

/// SMPS clock source.
#[derive(Clone, Copy, Debug, PartialEq, Eq, Structural)]
pub enum Smpssel {
    Hsi16,
    Msi,
    Hse,
}

impl Smpssel {
    /// Register encoding of the value.
    pub open spec fn spec_bits(self) -> u8 {
        match self {
            Smpssel::Hsi16 => 0b00,
            Smpssel::Msi => 0b01,
            Smpssel::Hse => 0b10,
        }
    }

    /// Register encoding of the value.
    pub fn bits(self) -> (r: u8)
        ensures
            r == self.spec_bits(),
    {
        match self {
            Smpssel::Hsi16 => 0b00,
            Smpssel::Msi => 0b01,
            Smpssel::Hse => 0b10,
        }
    }

    /// The value a register field encodes, if any.
    pub fn from_bits(b: u8) -> (r: Option<Smpssel>)
        ensures
            r matches Some(v) ==> v.spec_bits() == b,
            r is None ==> forall|v: Smpssel| v.spec_bits() != b,
    {
        if b == 0b00 {
            return Some(Smpssel::Hsi16);
        }
        if b == 0b01 {
            return Some(Smpssel::Msi);
        }
        if b == 0b10 {
            return Some(Smpssel::Hse);
        }
        None
    }
}

/// SMPS clock frequency.
#[derive(Clone, Copy, Debug, PartialEq, Eq, Structural)]
pub enum Smpsdiv {
    S8MHz,
    S4MHz,
}

impl Smpsdiv {
    /// Register encoding of the value.
    pub open spec fn spec_bits(self) -> u8 {
        match self {
            Smpsdiv::S8MHz => 0b00,
            Smpsdiv::S4MHz => 0b01,
        }
    }

    /// Register encoding of the value.
    pub fn bits(self) -> (r: u8)
        ensures
            r == self.spec_bits(),
    {
        match self {
            Smpsdiv::S8MHz => 0b00,
            Smpsdiv::S4MHz => 0b01,
        }
    }

    /// The value a register field encodes, if any.
    pub fn from_bits(b: u8) -> (r: Option<Smpsdiv>)
        ensures
            r matches Some(v) ==> v.spec_bits() == b,
            r is None ==> forall|v: Smpsdiv| v.spec_bits() != b,
    {
        if b == 0b00 {
            return Some(Smpsdiv::S8MHz);
        }
        if b == 0b01 {
            return Some(Smpsdiv::S4MHz);
        }
        None
    }
}

/// Radio wakeup clock source.
#[derive(Clone, Copy, Debug, PartialEq, Eq, Structural)]
pub enum Rfwkpsel {
    NoClock,
    Lse,
    Hse,
}

impl Rfwkpsel {
    /// Register encoding of the value.
    pub open spec fn spec_bits(self) -> u8 {
        match self {
            Rfwkpsel::NoClock => 0b00,
            Rfwkpsel::Lse => 0b01,
            Rfwkpsel::Hse => 0b11,
        }
    }

    /// Register encoding of the value.
    pub fn bits(self) -> (r: u8)
        ensures
            r == self.spec_bits(),
    {
        match self {
            Rfwkpsel::NoClock => 0b00,
            Rfwkpsel::Lse => 0b01,
            Rfwkpsel::Hse => 0b11,
        }
    }

    /// The value a register field encodes, if any.
    pub fn from_bits(b: u8) -> (r: Option<Rfwkpsel>)
        ensures
            r matches Some(v) ==> v.spec_bits() == b,
            r is None ==> forall|v: Rfwkpsel| v.spec_bits() != b,
    {
        if b == 0b00 {
            return Some(Rfwkpsel::NoClock);
        }
        if b == 0b01 {
            return Some(Rfwkpsel::Lse);
        }
        if b == 0b11 {
            return Some(Rfwkpsel::Hse);
        }
        None
    }
}

/// USART clock source.
#[derive(Clone, Copy, Debug, PartialEq, Eq, Structural)]
pub enum Usart1sel {
    Pclk,
    Sysclk,
    Hsi16,
    Lse,
}

impl Usart1sel {
    /// Register encoding of the value.
    pub open spec fn spec_bits(self) -> u8 {
        match self {
            Usart1sel::Pclk => 0b00,
            Usart1sel::Sysclk => 0b01,
            Usart1sel::Hsi16 => 0b10,
            Usart1sel::Lse => 0b11,
        }
    }

    /// Register encoding of the value.
    pub fn bits(self) -> (r: u8)
        ensures
            r == self.spec_bits(),
    {
        match self {
            Usart1sel::Pclk => 0b00,
            Usart1sel::Sysclk => 0b01,
            Usart1sel::Hsi16 => 0b10,
            Usart1sel::Lse => 0b11,
        }
    }

    /// The value a register field encodes, if any.
    pub fn from_bits(b: u8) -> (r: Option<Usart1sel>)
        ensures
            r matches Some(v) ==> v.spec_bits() == b,
            r is None ==> forall|v: Usart1sel| v.spec_bits() != b,
    {
        if b == 0b00 {
            return Some(Usart1sel::Pclk);
        }
        if b == 0b01 {
            return Some(Usart1sel::Sysclk);
        }
        if b == 0b10 {
            return Some(Usart1sel::Hsi16);
        }
        if b == 0b11 {
            return Some(Usart1sel::Lse);
        }
        None
    }
}

/// I2C clock source.
#[derive(Clone, Copy, Debug, PartialEq, Eq, Structural)]
pub enum I2cSel {
    Pclk,
    Sysclk,
    Hsi16,
}

impl I2cSel {
    /// Register encoding of the value.
    pub open spec fn spec_bits(self) -> u8 {
        match self {
            I2cSel::Pclk => 0b00,
            I2cSel::Sysclk => 0b01,
            I2cSel::Hsi16 => 0b10,
        }
    }

    /// Register encoding of the value.
    pub fn bits(self) -> (r: u8)
        ensures
            r == self.spec_bits(),
    {
        match self {
            I2cSel::Pclk => 0b00,
            I2cSel::Sysclk => 0b01,
            I2cSel::Hsi16 => 0b10,
        }
    }

    /// The value a register field encodes, if any.
    pub fn from_bits(b: u8) -> (r: Option<I2cSel>)
        ensures
            r matches Some(v) ==> v.spec_bits() == b,
            r is None ==> forall|v: I2cSel| v.spec_bits() != b,
    {
        if b == 0b00 {
            return Some(I2cSel::Pclk);
        }
        if b == 0b01 {
            return Some(I2cSel::Sysclk);
        }
        if b == 0b10 {
            return Some(I2cSel::Hsi16);
        }
        None
    }
}

/// Low-power timer clock source.
#[derive(Clone, Copy, Debug, PartialEq, Eq, Structural)]
pub enum LptimSel {
    Pclk,
    Lsi,
    Hsi16,
    Lse,
}

impl LptimSel {
    /// Register encoding of the value.
    pub open spec fn spec_bits(self) -> u8 {
        match self {
            LptimSel::Pclk => 0b00,
            LptimSel::Lsi => 0b01,
            LptimSel::Hsi16 => 0b10,
            LptimSel::Lse => 0b11,
        }
    }

    /// Register encoding of the value.
    pub fn bits(self) -> (r: u8)
        ensures
            r == self.spec_bits(),
    {
        match self {
            LptimSel::Pclk => 0b00,
            LptimSel::Lsi => 0b01,
            LptimSel::Hsi16 => 0b10,
            LptimSel::Lse => 0b11,
        }
    }

    /// The value a register field encodes, if any.
    pub fn from_bits(b: u8) -> (r: Option<LptimSel>)
        ensures
            r matches Some(v) ==> v.spec_bits() == b,
            r is None ==> forall|v: LptimSel| v.spec_bits() != b,
    {
        if b == 0b00 {
            return Some(LptimSel::Pclk);
        }
        if b == 0b01 {
            return Some(LptimSel::Lsi);
        }
        if b == 0b10 {
            return Some(LptimSel::Hsi16);
        }
        if b == 0b11 {
            return Some(LptimSel::Lse);
        }
        None
    }
}

/// SAI clock source.
#[derive(Clone, Copy, Debug, PartialEq, Eq, Structural)]
pub enum Sai1Sel {
    PllsaiP,
    PllP,
    Hsi16,
    Ext,
}

impl Sai1Sel {
    /// Register encoding of the value.
    pub open spec fn spec_bits(self) -> u8 {
        match self {
            Sai1Sel::PllsaiP => 0b00,
            Sai1Sel::PllP => 0b01,
            Sai1Sel::Hsi16 => 0b10,
            Sai1Sel::Ext => 0b11,
        }
    }

    /// Register encoding of the value.
    pub fn bits(self) -> (r: u8)
        ensures
            r == self.spec_bits(),
    {
        match self {
            Sai1Sel::PllsaiP => 0b00,
            Sai1Sel::PllP => 0b01,
            Sai1Sel::Hsi16 => 0b10,
            Sai1Sel::Ext => 0b11,
        }
    }

    /// The value a register field encodes, if any.
    pub fn from_bits(b: u8) -> (r: Option<Sai1Sel>)
        ensures
            r matches Some(v) ==> v.spec_bits() == b,
            r is None ==> forall|v: Sai1Sel| v.spec_bits() != b,
    {
        if b == 0b00 {
            return Some(Sai1Sel::PllsaiP);
        }
        if b == 0b01 {
            return Some(Sai1Sel::PllP);
        }
        if b == 0b10 {
            return Some(Sai1Sel::Hsi16);
        }
        if b == 0b11 {
            return Some(Sai1Sel::Ext);
        }
        None
    }
}

/// 48 MHz clock source.
#[derive(Clone, Copy, Debug, PartialEq, Eq, Structural)]
pub enum Clk48Sel {
    Hsi48,
    PllsaiQ,
    PllQ,
    Msi,
}

impl Clk48Sel {
    /// Register encoding of the value.
    pub open spec fn spec_bits(self) -> u8 {
        match self {
            Clk48Sel::Hsi48 => 0b00,
            Clk48Sel::PllsaiQ => 0b01,
            Clk48Sel::PllQ => 0b10,
            Clk48Sel::Msi => 0b11,
        }
    }

    /// Register encoding of the value.
    pub fn bits(self) -> (r: u8)
        ensures
            r == self.spec_bits(),
    {
        match self {
            Clk48Sel::Hsi48 => 0b00,
            Clk48Sel::PllsaiQ => 0b01,
            Clk48Sel::PllQ => 0b10,
            Clk48Sel::Msi => 0b11,
        }
    }

    /// The value a register field encodes, if any.
    pub fn from_bits(b: u8) -> (r: Option<Clk48Sel>)
        ensures
            r matches Some(v) ==> v.spec_bits() == b,
            r is None ==> forall|v: Clk48Sel| v.spec_bits() != b,
    {
        if b == 0b00 {
            return Some(Clk48Sel::Hsi48);
        }
        if b == 0b01 {
            return Some(Clk48Sel::PllsaiQ);
        }
        if b == 0b10 {
            return Some(Clk48Sel::PllQ);
        }
        if b == 0b11 {
            return Some(Clk48Sel::Msi);
        }
        None
    }
}

/// ADC clock source.
#[derive(Clone, Copy, Debug, PartialEq, Eq, Structural)]
pub enum AdcSel {
    NoClock,
    PllsaiR,
    PllP,
    Sysclk,
}

impl AdcSel {
    /// Register encoding of the value.
    pub open spec fn spec_bits(self) -> u8 {
        match self {
            AdcSel::NoClock => 0b00,
            AdcSel::PllsaiR => 0b01,
            AdcSel::PllP => 0b10,
            AdcSel::Sysclk => 0b11,
        }
    }

    /// Register encoding of the value.
    pub fn bits(self) -> (r: u8)
        ensures
            r == self.spec_bits(),
    {
        match self {
            AdcSel::NoClock => 0b00,
            AdcSel::PllsaiR => 0b01,
            AdcSel::PllP => 0b10,
            AdcSel::Sysclk => 0b11,
        }
    }

    /// The value a register field encodes, if any.
    pub fn from_bits(b: u8) -> (r: Option<AdcSel>)
        ensures
            r matches Some(v) ==> v.spec_bits() == b,
            r is None ==> forall|v: AdcSel| v.spec_bits() != b,
    {
        if b == 0b00 {
            return Some(AdcSel::NoClock);
        }
        if b == 0b01 {
            return Some(AdcSel::PllsaiR);
        }
        if b == 0b10 {
            return Some(AdcSel::PllP);
        }
        if b == 0b11 {
            return Some(AdcSel::Sysclk);
        }
        None
    }
}

/// RNG clock source.
#[derive(Clone, Copy, Debug, PartialEq, Eq, Structural)]
pub enum RngSel {
    Clk48,
    Lsi,
    Lse,
}

impl RngSel {
    /// Register encoding of the value.
    pub open spec fn spec_bits(self) -> u8 {
        match self {
            RngSel::Clk48 => 0b00,
            RngSel::Lsi => 0b01,
            RngSel::Lse => 0b10,
        }
    }

    /// Register encoding of the value.
    pub fn bits(self) -> (r: u8)
        ensures
            r == self.spec_bits(),
    {
        match self {
            RngSel::Clk48 => 0b00,
            RngSel::Lsi => 0b01,
            RngSel::Lse => 0b10,
        }
    }

    /// The value a register field encodes, if any.
    pub fn from_bits(b: u8) -> (r: Option<RngSel>)
        ensures
            r matches Some(v) ==> v.spec_bits() == b,
            r is None ==> forall|v: RngSel| v.spec_bits() != b,
    {
        if b == 0b00 {
            return Some(RngSel::Clk48);
        }
        if b == 0b01 {
            return Some(RngSel::Lsi);
        }
        if b == 0b10 {
            return Some(RngSel::Lse);
        }
        None
    }
}

/// Main PLL multiplication factor.
#[derive(Clone, Copy, Debug, PartialEq, Eq, Structural)]
pub struct Plln {
    v: u8,
}

impl Plln {
    pub closed spec fn spec_get(self) -> u8 {
        self.v
    }

    #[verifier::type_invariant]
    spec fn in_range(self) -> bool {
        6 <= self.v <= 127
    }

    /// The factor, if it lies in [6, 127].
    pub fn new(x: u8) -> (r: Result<Plln, ValueError>)
        ensures
            (r is Ok) == (6 <= x <= 127),
            r matches Ok(p) ==> p.spec_get() == x,
    {
        if x < 6 || x > 127 {
            return Err(ValueError { msg: "PLLN must be in range of [6, 127]" });
        }
        Ok(Plln { v: x })
    }

    pub fn get(self) -> (r: u8)
        ensures
            r == self.spec_get(),
            6 <= r <= 127,
    {
        proof {
            use_type_invariant(self);
        }
        self.v
    }
}

/// Division factor of the PLL P outputs.
#[derive(Clone, Copy, Debug, PartialEq, Eq, Structural)]
pub struct Pllp {
    v: u8,
}

impl Pllp {
    pub closed spec fn spec_get(self) -> u8 {
        self.v
    }

    #[verifier::type_invariant]
    spec fn in_range(self) -> bool {
        2 <= self.v <= 32
    }

    /// The factor, if it lies in [2, 32].
    pub fn new(x: u8) -> (r: Result<Pllp, ValueError>)
        ensures
            (r is Ok) == (2 <= x <= 32),
            r matches Ok(p) ==> p.spec_get() == x,
    {
        if x < 2 || x > 32 {
            return Err(ValueError { msg: "Main PLL division factor must be in range of [2, 32]" });
        }
        Ok(Pllp { v: x })
    }

    pub fn get(self) -> (r: u8)
        ensures
            r == self.spec_get(),
            2 <= r <= 32,
    {
        proof {
            use_type_invariant(self);
        }
        self.v
    }
}

/// PLLSAI1 multiplication factor.
#[derive(Clone, Copy, Debug, PartialEq, Eq, Structural)]
pub struct Pllsai1N {
    v: u8,
}

impl Pllsai1N {
    pub closed spec fn spec_get(self) -> u8 {
        self.v
    }

    #[verifier::type_invariant]
    spec fn in_range(self) -> bool {
        4 <= self.v <= 86
    }

    /// The factor, if it lies in [4, 86].
    pub fn new(x: u8) -> (r: Result<Pllsai1N, ValueError>)
        ensures
            (r is Ok) == (4 <= x <= 86),
            r matches Ok(p) ==> p.spec_get() == x,
    {
        if x < 4 || x > 86 {
            return Err(ValueError { msg: "PLLSAI1 division factor must be in range of [4, 86]" });
        }
        Ok(Pllsai1N { v: x })
    }

    pub fn get(self) -> (r: u8)
        ensures
            r == self.spec_get(),
            4 <= r <= 86,
    {
        proof {
            use_type_invariant(self);
        }
        self.v
    }
}

/// Control register.
#[derive(Clone, Copy, Debug, PartialEq, Eq, Structural)]
pub struct RccCr {
    pub msion: bool,
    pub msirdy: bool,
    pub msipllen: bool,
    pub msirange: MsiRange,
    pub hsion: bool,
    pub hsikeron: bool,
    pub hsiasfs: bool,
    pub hsirdy: bool,
    pub hsikerdy: bool,
    pub hseon: bool,
    pub hserdy: bool,
    pub csson: bool,
    pub hsepre: bool,
    pub pllon: bool,
    pub pllrdy: bool,
    pub pllsai1on: bool,
    pub pllsai1rdy: bool,
}

/// Clock configuration register.
#[derive(Clone, Copy, Debug, PartialEq, Eq, Structural)]
pub struct RccCfgr {
    pub sw: SysclkSwitch,
    pub sws: SysclkSwitch,
    pub hpre: PreScaler,
    pub hpref: bool,
    pub ppre1: PpreScaler,
    pub ppre2: PpreScaler,
    pub stopwuck: bool,
    pub mcosel: McoSelector,
    pub mcopre: McoPrescaler,
}

/// Extended clock configuration register.
#[derive(Clone, Copy, Debug, PartialEq, Eq, Structural)]
pub struct RccExtcfgr {
    pub shdhpre: PreScaler,
    pub c2hpre: PreScaler,
    pub shdhpref: bool,
    pub c2hpref: bool,
    pub rfcss: bool,
}

/// Main PLL configuration register.
#[derive(Clone, Copy, Debug, PartialEq, Eq, Structural)]
pub struct RccPllcfgr {
    pub pllsrc: PllSrc,
    pub pllm: Pllm,
    pub plln: Plln,
    pub pllp: Pllp,
    pub pllpen: bool,
    pub pllq: PllQR,
    pub pllqen: bool,
    pub pllr: PllQR,
    pub pllren: bool,
}

/// PLLSAI1 configuration register.
#[derive(Clone, Copy, Debug, PartialEq, Eq, Structural)]
pub struct RccPllsai1cfgr {
    pub plln: Pllsai1N,
    pub pllp: Pllp,
    pub pllpen: bool,
    pub pllq: PllQR,
    pub pllqen: bool,
    pub pllr: PllQR,
    pub pllren: bool,
}

/// Peripheral clock selection register.
#[derive(Clone, Copy, Debug, PartialEq, Eq, Structural)]
pub struct RccCcipr {
    pub usart1sel: Usart1sel,
    pub lpuart1sel: Usart1sel,
    pub i2c1sel: I2cSel,
    pub i2c3sel: I2cSel,
    pub lptim1sel: LptimSel,
    pub lptim2sel: LptimSel,
    pub sai1sel: Sai1Sel,
    pub clk48sel: Clk48Sel,
    pub adcsel: AdcSel,
    pub rngsel: RngSel,
}

/// Backup domain control register, as far as the clock checks read it.
#[derive(Clone, Copy, Debug, PartialEq, Eq, Structural)]
pub struct RccBdcr {
    pub lseon: bool,
    pub lserdy: bool,
}

/// Clock interrupt enable register.
#[derive(Clone, Copy, Debug, PartialEq, Eq, Structural)]
pub struct RccCier {
    pub lsi1rdyie: bool,
    pub lserdyie: bool,
    pub msirdyie: bool,
    pub hsirdyie: bool,
    pub hserdyie: bool,
    pub pllrdyie: bool,
    pub pllsai1rdyie: bool,
    pub lsecssie: bool,
    pub hsi48rdyie: bool,
    pub lsi2rdyie: bool,
}

/// The RCC registers. `cicr` holds the interrupt flag last cleared.
#[derive(Clone, Copy, Debug, PartialEq, Eq, Structural)]
pub struct Rcc {
    pub cr: RccCr,
    pub cfgr: RccCfgr,
    pub extcfgr: RccExtcfgr,
    pub pllcfgr: RccPllcfgr,
    pub pllsai1cfgr: RccPllsai1cfgr,
    pub ccipr: RccCcipr,
    pub bdcr: RccBdcr,
    pub cier: RccCier,
    pub cicr: Option<Event>,
}

/// A PLL input: MSI at a range, HSI16, or HSE with or without its divider.
pub enum PllSrcX {
    Msi(MsiRange),
    Hsi16,
    Hse(bool),
}

/// The frequency of a non-PLL clock source.
pub open spec fn src_hz(src: PllSrcX) -> u32 {
    match src {
        PllSrcX::Msi(r) => r.spec_hz(),
        PllSrcX::Hsi16 => 16_000_000,
        PllSrcX::Hse(pre) => if pre {
            16_000_000
        } else {
            32_000_000
        },
    }
}

/// VCO input in thirds of a hertz: source frequency divided by PLLM.
pub open spec fn vco_in(src: PllSrcX, pllm: Pllm) -> int {
    (src_hz(src) * 3) as int / pllm.spec_div() as int
}

/// The VCO input range: 2.66 MHz to 16 MHz (thirds of a hertz).
pub open spec fn vco_in_ok(v: int) -> bool {
    8_000_000 <= v <= 48_000_000
}

/// Largest of the three PLL outputs of a VCO running at `vco`.
pub open spec fn max_output(vco: int, p: u8, q: u8, r: u8) -> int {
    let a = vco / p as int;
    let b = vco / q as int;
    let c = vco / r as int;
    if a >= b && a >= c {
        a
    } else if b >= c {
        b
    } else {
        c
    }
}

/// The frequency of a PLL input, as a value.
fn src_hertz(src: &PllSrcX) -> (r: Hertz)
    ensures
        r.hz == src_hz(*src),
{
    match src {
        PllSrcX::Msi(range) => range.hertz(),
        PllSrcX::Hsi16 => hsi16_hertz(),
        PllSrcX::Hse(pre) => hse_output_hertz(*pre),
    }
}

/// PLL input check: in range 2 the source is at most 16 MHz, and the VCO
/// input lies in its range.
pub open spec fn spec_pll_m_checked(src: PllSrcX, vos: Vos, pllm: Pllm) -> Result<u64, Error> {
    if vos == Vos::Range2 && src_hz(src) > 16_000_000 {
        Err(Error::PllClkIllegalRange)
    } else if !vco_in_ok(vco_in(src, pllm)) {
        Err(Error::PllClkIllegalRange)
    } else {
        Ok(vco_in(src, pllm) as u64)
    }
}

/// VCO output `vco_in * n`, if it lies in `[lo, hi]`.
pub open spec fn spec_vco_out(vco_in: int, n: int, lo: int, hi: int) -> Result<u64, Error> {
    if lo <= vco_in * n <= hi {
        Ok((vco_in * n) as u64)
    } else {
        Err(Error::PllClkIllegalRange)
    }
}

/// A PLL check: the VCO output lies in `[lo, 344 MHz]` and no output
/// exceeds 64 MHz (thirds of a hertz).
pub open spec fn spec_check_pll(vco_in: int, n: int, lo: int, p: u8, q: u8, r: u8) -> Result<(), Error> {
    match spec_vco_out(vco_in, n, lo, 1_032_000_000) {
        Err(e) => Err(e),
        Ok(v) => if max_output(v as int, p, q, r) > 192_000_000 {
            Err(Error::PllClkIllegalRange)
        } else {
            Ok(())
        },
    }
}

/// One HCLK check.
pub open spec fn spec_check_hclk(sysclk: int, div: int, applied: bool, vos: Vos) -> Result<(), Error> {
    if !applied {
        Err(Error::PrescalerNotApplied)
    } else if vos == Vos::Range2 && sysclk > 16_000_000 * div {
        Err(Error::SysclkTooHighVosRange2)
    } else {
        Ok(())
    }
}

/// `f` with the wait states an HCLK4 of `hz` needs in range `vos`.
pub open spec fn with_latency(f: Flash, vos: Vos, hz: int) -> Flash {
    Flash {
        acr: crate::flash::FlashAcr { latency: crate::flash::spec_latency(vos, hz as u32), ..f.acr },
        ..f
    }
}

/// Sets the wait states for a system clock of `sysclk` hertz divided by
/// `div` into HCLK4.
fn apply_flash_latency(flash: &mut Flash, pwr: &Pwr, sysclk: u64, div: u16)
    requires
        sysclk <= 3_048_000_000,
        div >= 1,
    ensures
        *final(flash) == with_latency(*old(flash), pwr.cr1.vos, sysclk as int / div as int),
{
    let hclk4 = (sysclk / div as u64) as u32;
    set_flash_latency(flash, pwr, Hertz::from_raw(hclk4));
}

impl Rcc {
    pub open spec fn spec_is_sysclk(&self, clk: SysclkSwitch) -> bool {
        self.cfgr.sw == clk || self.cfgr.sws == clk
    }

    pub open spec fn spec_is_pllclk(&self, clk: PllSrc) -> bool {
        (self.cr.pllon || self.cr.pllsai1on) && self.pllcfgr.pllsrc == clk
    }

    /// `clk` is selected as system clock, or the switch to or from it is
    /// under way.
    fn is_sysclk(&self, clk: SysclkSwitch) -> (r: bool)
        ensures
            r == self.spec_is_sysclk(clk),
    {
        self.cfgr.sw == clk || self.cfgr.sws == clk
    }

    /// `clk` feeds a running PLL.
    fn is_pllclk(&self, clk: PllSrc) -> (r: bool)
        ensures
            r == self.spec_is_pllclk(clk),
    {
        (self.cr.pllon || self.cr.pllsai1on) && self.pllcfgr.pllsrc == clk
    }

    pub open spec fn spec_sysclk_is_rdy(&self, clk: SysclkSwitch) -> bool {
        match clk {
            SysclkSwitch::Msi => self.cr.msirdy,
            SysclkSwitch::Hsi16 => self.cr.hsirdy || self.cr.hsikerdy,
            SysclkSwitch::Hse => self.cr.hserdy,
            SysclkSwitch::Pll => self.cr.pllrdy,
        }
    }

    fn sysclk_is_rdy(&self, clk: SysclkSwitch) -> (r: bool)
        ensures
            r == self.spec_sysclk_is_rdy(clk),
    {
        match clk {
            SysclkSwitch::Msi => self.cr.msirdy,
            SysclkSwitch::Hsi16 => self.cr.hsirdy || self.cr.hsikerdy,
            SysclkSwitch::Hse => self.cr.hserdy,
            SysclkSwitch::Pll => self.cr.pllrdy,
        }
    }

    fn check_sysclk_rdy(&self, clk: SysclkSwitch) -> (r: Result<(), Error>)
        ensures
            r is Ok <==> self.spec_sysclk_is_rdy(clk),
            r is Err ==> r == Err::<(), Error>(Error::SelectedClockNotEnabled),
    {
        if self.sysclk_is_rdy(clk) {
            Ok(())
        } else {
            Err(Error::SelectedClockNotEnabled)
        }
    }

    pub open spec fn spec_pllclk_is_rdy(&self, clk: PllSrc) -> bool {
        match clk {
            PllSrc::NoClock => false,
            PllSrc::Msi => self.cr.msirdy,
            PllSrc::Hsi16 => self.cr.hsirdy || self.cr.hsikerdy,
            PllSrc::Hse => self.cr.hserdy,
        }
    }

    fn pllclk_is_rdy(&self, clk: PllSrc) -> (r: bool)
        ensures
            r == self.spec_pllclk_is_rdy(clk),
    {
        match clk {
            PllSrc::NoClock => false,
            PllSrc::Msi => self.cr.msirdy,
            PllSrc::Hsi16 => self.cr.hsirdy || self.cr.hsikerdy,
            PllSrc::Hse => self.cr.hserdy,
        }
    }

    fn check_pllclk_rdy(&self, clk: PllSrc) -> (r: Result<(), Error>)
        ensures
            r is Ok <==> self.spec_pllclk_is_rdy(clk),
            r is Err ==> r == Err::<(), Error>(Error::SelectedClockNotEnabled),
    {
        if self.pllclk_is_rdy(clk) {
            Ok(())
        } else {
            Err(Error::SelectedClockNotEnabled)
        }
    }

    /// The PLL input frequency in thirds of a hertz, checked against the
    /// VCO input range and, in range 2, against a 16 MHz source.
    fn pll_m_checked(src: PllSrcX, vos: Vos, pllm: Pllm) -> (r: Result<u64, Error>)
        ensures
            r == spec_pll_m_checked(src, vos, pllm),
    {
        let hz = src_hertz(&src).raw() as u64;
        if vos == Vos::Range2 && hz > 16_000_000 {
            return Err(Error::PllClkIllegalRange);
        }
        let vco_in = hz * 3 / pllm.div_factor() as u64;
        if vco_in > 48_000_000 || vco_in < 8_000_000 {
            return Err(Error::PllClkIllegalRange);
        }
        Ok(vco_in)
    }

    /// The VCO output of the main PLL, checked against 96 to 344 MHz.
    fn pll_n_checked(vco_in: u64, plln: Plln) -> (r: Result<u64, Error>)
        requires
            vco_in <= 48_000_000,
        ensures
            r == spec_vco_out(vco_in as int, plln.spec_get() as int, 288_000_000, 1_032_000_000),
    {
        let n = plln.get() as u64;
        proof {
            assert(vco_in * n <= 48_000_000 * 127) by (nonlinear_arith)
                requires
                    vco_in <= 48_000_000,
                    n <= 127,
            ;
        }
        let v = vco_in * n;
        if v >= 288_000_000 && v <= 1_032_000_000 {
            Ok(v)
        } else {
            Err(Error::PllClkIllegalRange)
        }
    }

    /// The VCO output of PLLSAI1, checked against 64 to 344 MHz.
    fn pllsai1_n_checked(vco_in: u64, plln: Pllsai1N) -> (r: Result<u64, Error>)
        requires
            vco_in <= 48_000_000,
        ensures
            r == spec_vco_out(vco_in as int, plln.spec_get() as int, 192_000_000, 1_032_000_000),
    {
        let n = plln.get() as u64;
        proof {
            assert(vco_in * n <= 48_000_000 * 127) by (nonlinear_arith)
                requires
                    vco_in <= 48_000_000,
                    n <= 127,
            ;
        }
        let v = vco_in * n;
        if v >= 192_000_000 && v <= 1_032_000_000 {
            Ok(v)
        } else {
            Err(Error::PllClkIllegalRange)
        }
    }

    /// No output of a VCO running at `vco_out` exceeds 64 MHz.
    fn check_outputs(vco_out: u64, p: u8, q: u8, r: u8) -> (res: Result<(), Error>)
        requires
            p >= 1,
            q >= 1,
            r >= 1,
        ensures
            res == (if max_output(vco_out as int, p, q, r) <= 192_000_000 {
                Ok::<(), Error>(())
            } else {
                Err(Error::PllClkIllegalRange)
            }),
    {
        let a = vco_out / p as u64;
        let b = vco_out / q as u64;
        let c = vco_out / r as u64;
        let m = if a >= b && a >= c { a } else if b >= c { b } else { c };
        if m > 192_000_000 {
            Err(Error::PllClkIllegalRange)
        } else {
            Ok(())
        }
    }

    /// The main PLL settings give a VCO and outputs in range.
    fn check_pll(vco_in: u64, plln: Plln, pllp: Pllp, pllq: PllQR, pllr: PllQR) -> (r: Result<(), Error>)
        requires
            vco_in <= 48_000_000,
        ensures
            r == spec_check_pll(vco_in as int, plln.spec_get() as int, 288_000_000, pllp.spec_get(), pllq.spec_div(), pllr.spec_div()),
    {
        let vco_out = match Self::pll_n_checked(vco_in, plln) {
            Ok(v) => v,
            Err(e) => {
                return Err(e);
            },
        };
        Self::check_outputs(vco_out, pllp.get(), pllq.div_factor(), pllr.div_factor())
    }

    /// The PLLSAI1 settings give a VCO and outputs in range.
    fn check_pllsai1(vco_in: u64, plln: Pllsai1N, pllp: Pllp, pllq: PllQR, pllr: PllQR) -> (r: Result<(), Error>)
        requires
            vco_in <= 48_000_000,
        ensures
            r == spec_check_pll(vco_in as int, plln.spec_get() as int, 192_000_000, pllp.spec_get(), pllq.spec_div(), pllr.spec_div()),
    {
        let vco_out = match Self::pllsai1_n_checked(vco_in, plln) {
            Ok(v) => v,
            Err(e) => {
                return Err(e);
            },
        };
        Self::check_outputs(vco_out, pllp.get(), pllq.div_factor(), pllr.div_factor())
    }

    /// The PLL input selected in the registers, if it is a clock.
    pub open spec fn spec_pll_input(&self) -> Option<PllSrcX> {
        match self.pllcfgr.pllsrc {
            PllSrc::NoClock => None,
            PllSrc::Msi => Some(PllSrcX::Msi(self.cr.msirange)),
            PllSrc::Hsi16 => Some(PllSrcX::Hsi16),
            PllSrc::Hse => Some(PllSrcX::Hse(self.cr.hsepre)),
        }
    }

    /// The checks that turning a PLL on must pass, up to its VCO input.
    pub open spec fn spec_pll_input_checked(&self, vos: Vos) -> Result<u64, Error> {
        if !self.spec_pllclk_is_rdy(self.pllcfgr.pllsrc) {
            Err(Error::SelectedClockNotEnabled)
        } else if self.pllcfgr.pllsrc == PllSrc::Msi && !self.cr.msipllen {
            Err(Error::MsiPllDisabled)
        } else {
            spec_pll_m_checked(self.spec_pll_input()->0, vos, self.pllcfgr.pllm)
        }
    }

    fn pll_input_checked(&self, vos: Vos) -> (r: Result<u64, Error>)
        ensures
            r == self.spec_pll_input_checked(vos),
            r matches Ok(v) ==> v <= 48_000_000,
    {
        let pllsrc = self.pllcfgr.pllsrc;
        match self.check_pllclk_rdy(pllsrc) {
            Ok(_) => {},
            Err(e) => {
                return Err(e);
            },
        }
        let src = match pllsrc {
            PllSrc::Msi => {
                if !self.cr.msipllen {
                    return Err(Error::MsiPllDisabled);
                }
                PllSrcX::Msi(self.cr.msirange)
            },
            PllSrc::Hsi16 => PllSrcX::Hsi16,
            _ => PllSrcX::Hse(self.cr.hsepre),
        };
        Self::pll_m_checked(src, vos, self.pllcfgr.pllm)
    }

    /// Turns the main PLL on or off. Off is refused while it is the system
    /// clock; on needs a ready input, MSI PLL mode when MSI feeds it, and a
    /// VCO and outputs in range.
    pub fn pll_enabled(&mut self, pwr: &Pwr, en: bool) -> (r: Result<(), Error>)
        ensures
            r == (if !en && old(self).spec_is_sysclk(SysclkSwitch::Pll) {
                Err(Error::ClockInUse)
            } else if en {
                match old(self).spec_pll_input_checked(pwr.cr1.vos) {
                    Err(e) => Err(e),
                    Ok(v) => spec_check_pll(v as int, old(self).pllcfgr.plln.spec_get() as int, 288_000_000, old(self).pllcfgr.pllp.spec_get(), old(self).pllcfgr.pllq.spec_div(), old(self).pllcfgr.pllr.spec_div()),
                }
            } else {
                Ok(())
            }),
            r is Err ==> *final(self) == *old(self),
            r is Ok ==> *final(self) == (Rcc { cr: RccCr { pllon: en, ..old(self).cr }, ..*old(self) }),
    {
        if !en && self.is_sysclk(SysclkSwitch::Pll) {
            return Err(Error::ClockInUse);
        }
        if en {
            let vco_in = match self.pll_input_checked(pwr.cr1.vos) {
                Ok(v) => v,
                Err(e) => {
                    return Err(e);
                },
            };
            match Self::check_pll(vco_in, self.pllcfgr.plln, self.pllcfgr.pllp, self.pllcfgr.pllq, self.pllcfgr.pllr) {
                Ok(_) => {},
                Err(e) => {
                    return Err(e);
                },
            }
        }
        self.cr = RccCr { pllon: en, ..self.cr };
        Ok(())
    }

    /// Turns PLLSAI1 on or off; on needs a ready input, MSI PLL mode when
    /// MSI feeds it, and a VCO and outputs in range.
    pub fn pllsai1_enabled(&mut self, pwr: &Pwr, en: bool) -> (r: Result<(), Error>)
        ensures
            r == (if en {
                match old(self).spec_pll_input_checked(pwr.cr1.vos) {
                    Err(e) => Err(e),
                    Ok(v) => spec_check_pll(v as int, old(self).pllsai1cfgr.plln.spec_get() as int, 192_000_000, old(self).pllsai1cfgr.pllp.spec_get(), old(self).pllsai1cfgr.pllq.spec_div(), old(self).pllsai1cfgr.pllr.spec_div()),
                }
            } else {
                Ok(())
            }),
            r is Err ==> *final(self) == *old(self),
            r is Ok ==> *final(self) == (Rcc { cr: RccCr { pllsai1on: en, ..old(self).cr }, ..*old(self) }),
    {
        if en {
            let vco_in = match self.pll_input_checked(pwr.cr1.vos) {
                Ok(v) => v,
                Err(e) => {
                    return Err(e);
                },
            };
            match Self::check_pllsai1(vco_in, self.pllsai1cfgr.plln, self.pllsai1cfgr.pllp, self.pllsai1cfgr.pllq, self.pllsai1cfgr.pllr) {
                Ok(_) => {},
                Err(e) => {
                    return Err(e);
                },
            }
        }
        self.cr = RccCr { pllsai1on: en, ..self.cr };
        Ok(())
    }

    /// The system clock frequency a source gives, if it gives one: the PLL
    /// gives its R output when that output is enabled and an input is
    /// selected.
    pub open spec fn spec_sysclk_hz(&self, sw: SysclkSwitch) -> Option<int> {
        match sw {
            SysclkSwitch::Msi => Some(self.cr.msirange.spec_hz() as int),
            SysclkSwitch::Hsi16 => Some(16_000_000),
            SysclkSwitch::Hse => Some(src_hz(PllSrcX::Hse(self.cr.hsepre)) as int),
            SysclkSwitch::Pll => match self.spec_pll_input() {
                None => None,
                Some(src) => if !self.pllcfgr.pllren {
                    None
                } else {
                    Some(vco_in(src, self.pllcfgr.pllm) * self.pllcfgr.plln.spec_get() as int
                        / self.pllcfgr.pllr.spec_div() as int / 3)
                },
            },
        }
    }

    /// The system clock frequency the source `sw` gives, if it gives one.
    fn calculate_sysclk(&self, sw: SysclkSwitch) -> (r: Option<u64>)
        ensures
            r matches Some(v) ==> self.spec_sysclk_hz(sw) == Some(v as int) && v <= 3_048_000_000,
            r is None ==> self.spec_sysclk_hz(sw) is None,
    {
        match sw {
            SysclkSwitch::Msi => Some(self.cr.msirange.hertz().raw() as u64),
            SysclkSwitch::Hsi16 => Some(16_000_000),
            SysclkSwitch::Hse => Some(src_hertz(&PllSrcX::Hse(self.cr.hsepre)).raw() as u64),
            SysclkSwitch::Pll => {
                let src = match self.pllcfgr.pllsrc {
                    PllSrc::NoClock => {
                        return None;
                    },
                    PllSrc::Msi => PllSrcX::Msi(self.cr.msirange),
                    PllSrc::Hsi16 => PllSrcX::Hsi16,
                    PllSrc::Hse => PllSrcX::Hse(self.cr.hsepre),
                };
                if !self.pllcfgr.pllren {
                    return None;
                }
                let vco_in = src_hertz(&src).raw() as u64 * 3 / self.pllcfgr.pllm.div_factor() as u64;
                let n = self.pllcfgr.plln.get() as u64;
                proof {
                    assert(vco_in <= 144_000_000);
                    assert(vco_in * n <= 144_000_000 * 127) by (nonlinear_arith)
                        requires
                            vco_in <= 144_000_000,
                            n <= 127,
                    ;
                }
                Some(vco_in * n / self.pllcfgr.pllr.div_factor() as u64 / 3)
            },
        }
    }

    /// HCLK prescaler checks: the prescaler took effect, and in range 2 the
    /// divided clock stays at or below 16 MHz.
    fn check_hclk(sysclk: u64, div: u16, applied: bool, vos: Vos) -> (r: Result<(), Error>)
        requires
            sysclk <= 3_048_000_000,
        ensures
            r == spec_check_hclk(sysclk as int, div as int, applied, vos),
    {
        if !applied {
            return Err(Error::PrescalerNotApplied);
        }
        if vos == Vos::Range2 && sysclk > 16_000_000 * div as u64 {
            return Err(Error::SysclkTooHighVosRange2);
        }
        Ok(())
    }

    /// The three HCLK checks, for the given prescalers.
    pub open spec fn spec_check_sysclk(&self, sysclk: int, hpre: PreScaler, c2hpre: PreScaler, shdpre: PreScaler, vos: Vos) -> Result<(), Error> {
        match spec_check_hclk(sysclk, hpre.spec_div() as int, self.cfgr.hpref, vos) {
            Err(e) => Err(e),
            Ok(_) => match spec_check_hclk(sysclk, c2hpre.spec_div() as int, self.extcfgr.c2hpref, vos) {
                Err(e) => Err(e),
                Ok(_) => spec_check_hclk(sysclk, shdpre.spec_div() as int, self.extcfgr.shdhpref, vos),
            },
        }
    }

    fn check_sysclk(&self, sysclk: u64, hpre: PreScaler, c2hpre: PreScaler, shdpre: PreScaler, vos: Vos) -> (r: Result<(), Error>)
        requires
            sysclk <= 3_048_000_000,
        ensures
            r == self.spec_check_sysclk(sysclk as int, hpre, c2hpre, shdpre, vos),
    {
        match Self::check_hclk(sysclk, hpre.div_scale(), self.cfgr.hpref, vos) {
            Ok(_) => {},
            Err(e) => {
                return Err(e);
            },
        }
        match Self::check_hclk(sysclk, c2hpre.div_scale(), self.extcfgr.c2hpref, vos) {
            Ok(_) => {},
            Err(e) => {
                return Err(e);
            },
        }
        Self::check_hclk(sysclk, shdpre.div_scale(), self.extcfgr.shdhpref, vos)
    }

    /// The clock currently selected as system clock and its frequency.
    fn current_sysclk(&self) -> (r: Option<u64>)
        ensures
            r matches Some(v) ==> self.spec_sysclk_hz(self.cfgr.sw) == Some(v as int) && v <= 3_048_000_000,
            r is None ==> self.spec_sysclk_hz(self.cfgr.sw) is None,
    {
        self.calculate_sysclk(self.cfgr.sw)
    }

    /// Sets a prescaler of the HCLK tree after checking the resulting
    /// clocks; `which` is 1, 2 or 4.
    fn hclk_prescaler(&mut self, pwr: &Pwr, scale: PreScaler, which: u8) -> (r: Result<(), Error>)
        requires
            which == 1 || which == 2 || which == 4,
        ensures
            r == (match old(self).spec_sysclk_hz(old(self).cfgr.sw) {
                None => Err(Error::SelectedClockNotEnabled),
                Some(s) => if which == 1 {
                    old(self).spec_check_sysclk(s, scale, old(self).extcfgr.c2hpre, old(self).extcfgr.shdhpre, pwr.cr1.vos)
                } else if which == 2 {
                    old(self).spec_check_sysclk(s, old(self).cfgr.hpre, scale, old(self).extcfgr.shdhpre, pwr.cr1.vos)
                } else {
                    old(self).spec_check_sysclk(s, old(self).cfgr.hpre, old(self).extcfgr.c2hpre, scale, pwr.cr1.vos)
                },
            }),
            r is Err ==> *final(self) == *old(self),
            r is Ok ==> *final(self) == (if which == 1 {
                Rcc { cfgr: RccCfgr { hpre: scale, ..old(self).cfgr }, ..*old(self) }
            } else if which == 2 {
                Rcc { extcfgr: RccExtcfgr { c2hpre: scale, ..old(self).extcfgr }, ..*old(self) }
            } else {
                Rcc { extcfgr: RccExtcfgr { shdhpre: scale, ..old(self).extcfgr }, ..*old(self) }
            }),
    {
        let sysclk = match self.current_sysclk() {
            Some(s) => s,
            None => {
                return Err(Error::SelectedClockNotEnabled);
            },
        };
        let vos = pwr.cr1.vos;
        if which == 1 {
            match self.check_sysclk(sysclk, scale, self.extcfgr.c2hpre, self.extcfgr.shdhpre, vos) {
                Ok(_) => {},
                Err(e) => {
                    return Err(e);
                },
            }
            self.cfgr = RccCfgr { hpre: scale, ..self.cfgr };
        } else if which == 2 {
            match self.check_sysclk(sysclk, self.cfgr.hpre, scale, self.extcfgr.shdhpre, vos) {
                Ok(_) => {},
                Err(e) => {
                    return Err(e);
                },
            }
            self.extcfgr = RccExtcfgr { c2hpre: scale, ..self.extcfgr };
        } else {
            match self.check_sysclk(sysclk, self.cfgr.hpre, self.extcfgr.c2hpre, scale, vos) {
                Ok(_) => {},
                Err(e) => {
                    return Err(e);
                },
            }
            self.extcfgr = RccExtcfgr { shdhpre: scale, ..self.extcfgr };
        }
        Ok(())
    }

    /// Sets the CPU1 HCLK prescaler after checking the clocks it gives.
    pub fn hclk1_prescaler(&mut self, pwr: &Pwr, scale: PreScaler) -> (r: Result<(), Error>)
        ensures
            r == (match old(self).spec_sysclk_hz(old(self).cfgr.sw) {
                None => Err(Error::SelectedClockNotEnabled),
                Some(s) => old(self).spec_check_sysclk(s, scale, old(self).extcfgr.c2hpre, old(self).extcfgr.shdhpre, pwr.cr1.vos),
            }),
            r is Err ==> *final(self) == *old(self),
            r is Ok ==> *final(self) == (Rcc { cfgr: RccCfgr { hpre: scale, ..old(self).cfgr }, ..*old(self) }),
    {
        self.hclk_prescaler(pwr, scale, 1)
    }

    /// Sets the CPU2 HCLK prescaler after checking the clocks it gives.
    pub fn hclk2_prescaler(&mut self, pwr: &Pwr, scale: PreScaler) -> (r: Result<(), Error>)
        ensures
            r == (match old(self).spec_sysclk_hz(old(self).cfgr.sw) {
                None => Err(Error::SelectedClockNotEnabled),
                Some(s) => old(self).spec_check_sysclk(s, old(self).cfgr.hpre, scale, old(self).extcfgr.shdhpre, pwr.cr1.vos),
            }),
            r is Err ==> *final(self) == *old(self),
            r is Ok ==> *final(self) == (Rcc { extcfgr: RccExtcfgr { c2hpre: scale, ..old(self).extcfgr }, ..*old(self) }),
    {
        self.hclk_prescaler(pwr, scale, 2)
    }

    /// Sets the shared HCLK4 prescaler after checking the clocks it gives;
    /// when HCLK4 changes, the flash wait states follow it.
    pub fn hclk4_prescaler(&mut self, pwr: &Pwr, flash: &mut Flash, scale: PreScaler) -> (r: Result<(), Error>)
        ensures
            r == (match old(self).spec_sysclk_hz(old(self).cfgr.sw) {
                None => Err(Error::SelectedClockNotEnabled),
                Some(s) => old(self).spec_check_sysclk(s, old(self).cfgr.hpre, old(self).extcfgr.c2hpre, scale, pwr.cr1.vos),
            }),
            r is Err ==> *final(self) == *old(self) && *final(flash) == *old(flash),
            r is Ok ==> *final(self) == (Rcc { extcfgr: RccExtcfgr { shdhpre: scale, ..old(self).extcfgr }, ..*old(self) }),
            r is Ok ==> *final(flash) == (if scale != old(self).extcfgr.shdhpre {
                with_latency(*old(flash), pwr.cr1.vos, old(self).spec_sysclk_hz(old(self).cfgr.sw)->0 / scale.spec_div() as int)
            } else {
                *old(flash)
            }),
    {
        let current_scale = self.extcfgr.shdhpre;
        let r = self.hclk_prescaler(pwr, scale, 4);
        if r.is_ok() && scale != current_scale {
            match self.current_sysclk() {
                Some(s) => apply_flash_latency(flash, pwr, s, scale.div_scale()),
                None => {},
            }
        }
        r
    }

    /// Switches the system clock to `sw`, which must give a frequency, be
    /// ready, and keep every HCLK in range; when the frequency changes, the
    /// flash wait states follow HCLK4.
    pub fn sysclk(&mut self, pwr: &Pwr, flash: &mut Flash, sw: SysclkSwitch) -> (r: Result<(), Error>)
        ensures
            r == (match old(self).spec_sysclk_hz(sw) {
                None => Err(Error::SelectedClockNotEnabled),
                Some(s) => if !old(self).spec_sysclk_is_rdy(sw) {
                    Err(Error::SelectedClockNotEnabled)
                } else {
                    old(self).spec_check_sysclk(s, old(self).cfgr.hpre, old(self).extcfgr.c2hpre, old(self).extcfgr.shdhpre, pwr.cr1.vos)
                },
            }),
            r is Err ==> *final(self) == *old(self),
            r is Ok ==> *final(self) == (Rcc { cfgr: RccCfgr { sw, ..old(self).cfgr }, ..*old(self) }),
            r is Err ==> *final(flash) == *old(flash),
            r is Ok ==> *final(flash) == (if old(self).spec_sysclk_hz(old(self).cfgr.sw) != old(self).spec_sysclk_hz(sw) {
                with_latency(*old(flash), pwr.cr1.vos, old(self).spec_sysclk_hz(sw)->0 / old(self).extcfgr.shdhpre.spec_div() as int)
            } else {
                *old(flash)
            }),
    {
        let new_sysclk = match self.calculate_sysclk(sw) {
            Some(s) => s,
            None => {
                return Err(Error::SelectedClockNotEnabled);
            },
        };
        match self.check_sysclk_rdy(sw) {
            Ok(_) => {},
            Err(e) => {
                return Err(e);
            },
        }
        match self.check_sysclk(new_sysclk, self.cfgr.hpre, self.extcfgr.c2hpre, self.extcfgr.shdhpre, pwr.cr1.vos) {
            Ok(_) => {},
            Err(e) => {
                return Err(e);
            },
        }
        let current = self.current_sysclk();
        let changed = match current {
            Some(c) => c != new_sysclk,
            None => true,
        };
        if changed {
            apply_flash_latency(flash, pwr, new_sysclk, self.extcfgr.shdhpre.div_scale());
        }
        self.cfgr = RccCfgr { sw, ..self.cfgr };
        Ok(())
    }

    /// Changes the MSI range. Refused while MSI is starting; when MSI is the
    /// system clock every HCLK must stay in range and the flash wait states
    /// follow HCLK4; when it feeds a PLL the running PLLs must stay in range.
    pub fn msi_range(&mut self, pwr: &Pwr, flash: &mut Flash, range: MsiRange) -> (r: Result<(), Error>)
        ensures
            r == old(self).spec_msi_range_check(pwr.cr1.vos, range),
            r is Err ==> *final(self) == *old(self) && *final(flash) == *old(flash),
            r is Ok ==> *final(flash) == (if old(self).spec_is_sysclk(SysclkSwitch::Msi) && old(self).cr.msirange != range {
                with_latency(*old(flash), pwr.cr1.vos, range.spec_hz() as int / old(self).extcfgr.shdhpre.spec_div() as int)
            } else {
                *old(flash)
            }),
            r is Ok ==> *final(self) == (Rcc { cr: RccCr { msirange: range, ..old(self).cr }, ..*old(self) }),
    {
        if self.cr.msion && !self.cr.msirdy {
            return Err(Error::MsiNotReady);
        }
        let vos = pwr.cr1.vos;
        if self.is_sysclk(SysclkSwitch::Msi) {
            match self.check_sysclk(range.hertz().raw() as u64, self.cfgr.hpre, self.extcfgr.c2hpre, self.extcfgr.shdhpre, vos) {
                Ok(_) => {},
                Err(e) => {
                    return Err(e);
                },
            }
        }
        if self.is_pllclk(PllSrc::Msi) {
            let vco_in = match Self::pll_m_checked(PllSrcX::Msi(range), vos, self.pllcfgr.pllm) {
                Ok(v) => v,
                Err(e) => {
                    return Err(e);
                },
            };
            if self.cr.pllon {
                match Self::check_pll(vco_in, self.pllcfgr.plln, self.pllcfgr.pllp, self.pllcfgr.pllq, self.pllcfgr.pllr) {
                    Ok(_) => {},
                    Err(e) => {
                        return Err(e);
                    },
                }
            }
            if self.cr.pllsai1on {
                match Self::check_pllsai1(vco_in, self.pllsai1cfgr.plln, self.pllsai1cfgr.pllp, self.pllsai1cfgr.pllq, self.pllsai1cfgr.pllr) {
                    Ok(_) => {},
                    Err(e) => {
                        return Err(e);
                    },
                }
            }
        }
        if self.is_sysclk(SysclkSwitch::Msi) && self.cr.msirange != range {
            apply_flash_latency(flash, pwr, range.hertz().raw() as u64, self.extcfgr.shdhpre.div_scale());
        }
        self.cr = RccCr { msirange: range, ..self.cr };
        Ok(())
    }

    /// What `msi_range` checks.
    pub open spec fn spec_msi_range_check(&self, vos: Vos, range: MsiRange) -> Result<(), Error> {
        if self.cr.msion && !self.cr.msirdy {
            Err(Error::MsiNotReady)
        } else if self.spec_is_sysclk(SysclkSwitch::Msi) && self.spec_check_sysclk(range.spec_hz() as int, self.cfgr.hpre, self.extcfgr.c2hpre, self.extcfgr.shdhpre, vos) is Err {
            self.spec_check_sysclk(range.spec_hz() as int, self.cfgr.hpre, self.extcfgr.c2hpre, self.extcfgr.shdhpre, vos)
        } else if self.spec_is_pllclk(PllSrc::Msi) {
            match spec_pll_m_checked(PllSrcX::Msi(range), vos, self.pllcfgr.pllm) {
                Err(e) => Err(e),
                Ok(v) => if self.cr.pllon && spec_check_pll(v as int, self.pllcfgr.plln.spec_get() as int, 288_000_000, self.pllcfgr.pllp.spec_get(), self.pllcfgr.pllq.spec_div(), self.pllcfgr.pllr.spec_div()) is Err {
                    spec_check_pll(v as int, self.pllcfgr.plln.spec_get() as int, 288_000_000, self.pllcfgr.pllp.spec_get(), self.pllcfgr.pllq.spec_div(), self.pllcfgr.pllr.spec_div())
                } else if self.cr.pllsai1on {
                    spec_check_pll(v as int, self.pllsai1cfgr.plln.spec_get() as int, 192_000_000, self.pllsai1cfgr.pllp.spec_get(), self.pllsai1cfgr.pllq.spec_div(), self.pllsai1cfgr.pllr.spec_div())
                } else {
                    Ok(())
                },
            }
        } else {
            Ok(())
        }
    }

    /// The system clock frequency, or `None` while a switch is under way
    /// or the selected source gives none.
    pub fn try_sysclk(&self) -> (r: Option<Hertz>)
        ensures
            r matches Some(h) ==> self.cfgr.sw == self.cfgr.sws && self.spec_sysclk_hz(self.cfgr.sw) == Some(h.hz as int),
            r is None ==> self.cfgr.sw != self.cfgr.sws || self.spec_sysclk_hz(self.cfgr.sw) is None || self.spec_sysclk_hz(self.cfgr.sw)->0 > u32::MAX,
    {
        if self.cfgr.sw != self.cfgr.sws {
            return None;
        }
        match self.current_sysclk() {
            Some(v) => if v <= 0xFFFF_FFFF {
                Some(Hertz::from_raw(v as u32))
            } else {
                None
            },
            None => None,
        }
    }

    /// The system clock divided by `div`.
    fn divided(&self, div: u16) -> (r: Option<Hertz>)
        requires
            div >= 1,
        ensures
            r matches Some(h) ==> self.cfgr.sw == self.cfgr.sws && self.spec_sysclk_hz(self.cfgr.sw) is Some && h.hz == self.spec_sysclk_hz(self.cfgr.sw)->0 / div as int,
    {
        match self.try_sysclk() {
            Some(s) => Some(Hertz::from_raw(s.raw() / div as u32)),
            None => None,
        }
    }

    /// CPU1 HCLK.
    pub fn try_hclk1(&self) -> (r: Option<Hertz>)
        ensures
            r matches Some(h) ==> self.spec_sysclk_hz(self.cfgr.sw) is Some && h.hz == self.spec_sysclk_hz(self.cfgr.sw)->0 / self.cfgr.hpre.spec_div() as int,
    {
        self.divided(self.cfgr.hpre.div_scale())
    }

    /// CPU2 HCLK.
    pub fn try_hclk2(&self) -> (r: Option<Hertz>)
        ensures
            r matches Some(h) ==> self.spec_sysclk_hz(self.cfgr.sw) is Some && h.hz == self.spec_sysclk_hz(self.cfgr.sw)->0 / self.extcfgr.c2hpre.spec_div() as int,
    {
        self.divided(self.extcfgr.c2hpre.div_scale())
    }

    /// Shared HCLK4, which also clocks the flash.
    pub fn try_hclk4(&self) -> (r: Option<Hertz>)
        ensures
            r matches Some(h) ==> self.spec_sysclk_hz(self.cfgr.sw) is Some && h.hz == self.spec_sysclk_hz(self.cfgr.sw)->0 / self.extcfgr.shdhpre.spec_div() as int,
    {
        self.divided(self.extcfgr.shdhpre.div_scale())
    }

    /// APB1 clock, divided from the system clock.
    pub fn try_pclk1(&self) -> (r: Option<Hertz>)
        ensures
            r matches Some(h) ==> self.spec_sysclk_hz(self.cfgr.sw) is Some && h.hz == self.spec_sysclk_hz(self.cfgr.sw)->0 / self.cfgr.ppre1.spec_div() as int,
    {
        self.divided(self.cfgr.ppre1.div_scale() as u16)
    }

    /// APB2 clock, divided from the system clock.
    pub fn try_pclk2(&self) -> (r: Option<Hertz>)
        ensures
            r matches Some(h) ==> self.spec_sysclk_hz(self.cfgr.sw) is Some && h.hz == self.spec_sysclk_hz(self.cfgr.sw)->0 / self.cfgr.ppre2.spec_div() as int,
    {
        self.divided(self.cfgr.ppre2.div_scale() as u16)
    }

    /// Kernel clock of an I2C peripheral with clock selection `sel`.
    fn try_i2c_clk(&self, sel: I2cSel) -> (r: Option<Hertz>)
        ensures
            sel == I2cSel::Hsi16 ==> r == Some(Hertz { hz: 16_000_000 }),
    {
        match sel {
            I2cSel::Pclk => self.try_pclk1(),
            I2cSel::Sysclk => self.try_sysclk(),
            I2cSel::Hsi16 => Some(hsi16_hertz()),
        }
    }

    /// Kernel clock of I2C1.
    pub fn try_i2c1_clk(&self) -> (r: Option<Hertz>)
        ensures
            self.ccipr.i2c1sel == I2cSel::Hsi16 ==> r == Some(Hertz { hz: 16_000_000 }),
    {
        self.try_i2c_clk(self.ccipr.i2c1sel)
    }

    /// Kernel clock of I2C3.
    pub fn try_i2c3_clk(&self) -> (r: Option<Hertz>)
        ensures
            self.ccipr.i2c3sel == I2cSel::Hsi16 ==> r == Some(Hertz { hz: 16_000_000 }),
    {
        self.try_i2c_clk(self.ccipr.i2c3sel)
    }

    /// Allows turning MSI off only while it drives neither the system clock
    /// nor a running PLL. The oscillator itself is left as it is.
    pub fn msi_enable(&mut self, en: bool) -> (r: Result<(), Error>)
        ensures
            (r is Err) == (!en && (old(self).spec_is_sysclk(SysclkSwitch::Msi)
                || old(self).spec_is_pllclk(PllSrc::Msi))),
            r is Err ==> r == Err::<(), Error>(Error::ClockInUse),
            *final(self) == *old(self),
    {
        if !en && (self.is_sysclk(SysclkSwitch::Msi) || self.is_pllclk(PllSrc::Msi)) {
            return Err(Error::ClockInUse);
        }
        Ok(())
    }

    /// MSI PLL mode (LSE calibration): needs a running LSE to turn on, and
    /// no PLL fed by MSI to turn off.
    pub fn msi_pll_mode(&mut self, en: bool) -> (r: Result<(), Error>)
        ensures
            en && (!old(self).bdcr.lseon || !old(self).bdcr.lserdy) ==> r == Err::<(), Error>(
                Error::LseDisabled,
            ),
            !en && old(self).spec_is_pllclk(PllSrc::Msi) ==> r == Err::<(), Error>(
                Error::ClockInUse,
            ),
            (r is Ok) == ((!en || (old(self).bdcr.lseon && old(self).bdcr.lserdy)) && (en
                || !old(self).spec_is_pllclk(PllSrc::Msi))),
            r is Err ==> *final(self) == *old(self),
            r is Ok ==> *final(self) == (Rcc { cr: RccCr { msipllen: en, ..old(self).cr }, ..*old(self) }),
    {
        if en && (!self.bdcr.lseon || !self.bdcr.lserdy) {
            return Err(Error::LseDisabled);
        }
        if !en && self.is_pllclk(PllSrc::Msi) {
            return Err(Error::ClockInUse);
        }
        self.cr = RccCr { msipllen: en, ..self.cr };
        Ok(())
    }

    /// Turns HSI16 on or off; off only while it drives neither the system
    /// clock nor a running PLL.
    pub fn hsi_enable(&mut self, en: bool) -> (r: Result<(), Error>)
        ensures
            (r is Err) == (!en && (old(self).spec_is_sysclk(SysclkSwitch::Hsi16)
                || old(self).spec_is_pllclk(PllSrc::Hsi16))),
            r is Err ==> r == Err::<(), Error>(Error::ClockInUse) && *final(self) == *old(self),
            r is Ok ==> *final(self) == (Rcc { cr: RccCr { hsion: en, ..old(self).cr }, ..*old(self) }),
    {
        if !en && (self.is_sysclk(SysclkSwitch::Hsi16) || self.is_pllclk(PllSrc::Hsi16)) {
            return Err(Error::ClockInUse);
        }
        self.cr = RccCr { hsion: en, ..self.cr };
        Ok(())
    }

    /// Turns on the clock security system of HSE.
    pub fn enable_hse_clock_security_system(&mut self)
        ensures
            *final(self) == (Rcc { cr: RccCr { csson: true, ..old(self).cr }, ..*old(self) }),
    {
        self.cr = RccCr { csson: true, ..self.cr };
    }

    /// Which oscillator clocks the radio.
    pub fn rf_clock(&self) -> (r: RfClock)
        ensures
            r == (if self.extcfgr.rfcss {
                RfClock::Hse
            } else {
                RfClock::Hsi16
            }),
    {
        if self.extcfgr.rfcss {
            RfClock::Hse
        } else {
            RfClock::Hsi16
        }
    }

    /// Selects the wakeup clock after stop mode.
    pub fn stop_css_wakeup_clock(&mut self, clk: Stopwuck)
        ensures
            *final(self) == (Rcc {
                cfgr: RccCfgr { stopwuck: clk == Stopwuck::Hsi16, ..old(self).cfgr },
                ..*old(self)
            }),
    {
        self.cfgr = RccCfgr { stopwuck: clk == Stopwuck::Hsi16, ..self.cfgr };
    }

    /// Selects the clock put out on MCO and its division.
    pub fn mco(&mut self, clk: McoSelector, scale: McoPrescaler)
        ensures
            *final(self) == (Rcc {
                cfgr: RccCfgr { mcopre: scale, mcosel: clk, ..old(self).cfgr },
                ..*old(self)
            }),
    {
        self.cfgr = RccCfgr { mcopre: scale, ..self.cfgr };
        self.cfgr = RccCfgr { mcosel: clk, ..self.cfgr };
    }

    /// Enables or disables one clock interrupt. There is no HSE security
    /// interrupt to enable.
    pub fn listen(&mut self, event: Event, listen: bool)
        requires
            event != Event::HseCSS,
        ensures
            final(self).cier == (match event {
                Event::LsiReady => RccCier { lsi1rdyie: listen, ..old(self).cier },
                Event::LseReady => RccCier { lserdyie: listen, ..old(self).cier },
                Event::MsiReady => RccCier { msirdyie: listen, ..old(self).cier },
                Event::HsiReady => RccCier { hsirdyie: listen, ..old(self).cier },
                Event::HseReady => RccCier { hserdyie: listen, ..old(self).cier },
                Event::PllReady => RccCier { pllrdyie: listen, ..old(self).cier },
                Event::Pllsai1Ready => RccCier { pllsai1rdyie: listen, ..old(self).cier },
                Event::LseCSS => RccCier { lsecssie: listen, ..old(self).cier },
                Event::Hsi48Ready => RccCier { hsi48rdyie: listen, ..old(self).cier },
                _ => RccCier { lsi2rdyie: listen, ..old(self).cier },
            }),
            *final(self) == (Rcc { cier: final(self).cier, ..*old(self) }),
    {
        match event {
            Event::LsiReady => self.cier.lsi1rdyie = listen,
            Event::LseReady => self.cier.lserdyie = listen,
            Event::MsiReady => self.cier.msirdyie = listen,
            Event::HsiReady => self.cier.hsirdyie = listen,
            Event::HseReady => self.cier.hserdyie = listen,
            Event::PllReady => self.cier.pllrdyie = listen,
            Event::Pllsai1Ready => self.cier.pllsai1rdyie = listen,
            Event::HseCSS => {},
            Event::LseCSS => self.cier.lsecssie = listen,
            Event::Hsi48Ready => self.cier.hsi48rdyie = listen,
            Event::Lsi2Ready => self.cier.lsi2rdyie = listen,
        }
    }

    /// Clears the flag of one clock interrupt.
    pub fn clear_irq(&mut self, event: Event)
        ensures
            *final(self) == (Rcc { cicr: Some(event), ..*old(self) }),
    {
        self.cicr = Some(event);
    }

    /// Keeps HSI16 on for peripherals that request it.
    pub fn hsi_ker_enable(&mut self, en: bool)
        ensures
            *final(self) == (Rcc { cr: RccCr { hsikeron: en, ..old(self).cr }, ..*old(self) }),
    {
        self.cr = RccCr { hsikeron: en, ..self.cr };
    }

    /// Starts HSI16 automatically on wakeup.
    pub fn hsi_auto_start(&mut self, en: bool)
        ensures
            *final(self) == (Rcc { cr: RccCr { hsiasfs: en, ..old(self).cr }, ..*old(self) }),
    {
        self.cr = RccCr { hsiasfs: en, ..self.cr };
    }

    /// Turns HSE on or off.
    pub fn hse_enable(&mut self, en: bool)
        ensures
            *final(self) == (Rcc { cr: RccCr { hseon: en, ..old(self).cr }, ..*old(self) }),
    {
        self.cr = RccCr { hseon: en, ..self.cr };
    }

    /// Divides HSE by two.
    pub fn hse_divider_enabled(&mut self, div_by_2: bool)
        ensures
            *final(self) == (Rcc { cr: RccCr { hsepre: div_by_2, ..old(self).cr }, ..*old(self) }),
    {
        self.cr = RccCr { hsepre: div_by_2, ..self.cr };
    }

    /// Sets the APB1 prescaler.
    pub fn pclk1_prescaler(&mut self, scale: PpreScaler)
        ensures
            *final(self) == (Rcc { cfgr: RccCfgr { ppre1: scale, ..old(self).cfgr }, ..*old(self) }),
    {
        self.cfgr = RccCfgr { ppre1: scale, ..self.cfgr };
    }

    /// Sets the APB2 prescaler.
    pub fn pclk2_prescaler(&mut self, scale: PpreScaler)
        ensures
            *final(self) == (Rcc { cfgr: RccCfgr { ppre2: scale, ..old(self).cfgr }, ..*old(self) }),
    {
        self.cfgr = RccCfgr { ppre2: scale, ..self.cfgr };
    }

    /// Selects the PLL input while neither PLL runs.
    pub fn pll_src(&mut self, src: PllSrc) -> (r: Result<(), Error>)
        ensures
            (r is Err) == (old(self).cr.pllon || old(self).cr.pllsai1on),
            r is Err ==> r == Err::<(), Error>(Error::PllEnabled) && *final(self) == *old(self),
            r is Ok ==> *final(self) == (Rcc { pllcfgr: RccPllcfgr { pllsrc: src, ..old(self).pllcfgr }, ..*old(self) }),
    {
        if self.cr.pllon || self.cr.pllsai1on {
            return Err(Error::PllEnabled);
        }
        self.pllcfgr = RccPllcfgr { pllsrc: src, ..self.pllcfgr };
        Ok(())
    }

    /// Sets the PLL input division while neither PLL runs.
    pub fn pllm(&mut self, pllm: Pllm) -> (r: Result<(), Error>)
        ensures
            (r is Err) == (old(self).cr.pllon || old(self).cr.pllsai1on),
            r is Err ==> r == Err::<(), Error>(Error::PllEnabled) && *final(self) == *old(self),
            r is Ok ==> *final(self) == (Rcc { pllcfgr: RccPllcfgr { pllm: pllm, ..old(self).pllcfgr }, ..*old(self) }),
    {
        if self.cr.pllon || self.cr.pllsai1on {
            return Err(Error::PllEnabled);
        }
        self.pllcfgr = RccPllcfgr { pllm: pllm, ..self.pllcfgr };
        Ok(())
    }

    /// Sets the main PLL multiplier while it is off.
    pub fn plln(&mut self, plln: Plln) -> (r: Result<(), Error>)
        ensures
            (r is Err) == (old(self).cr.pllon),
            r is Err ==> r == Err::<(), Error>(Error::PllEnabled) && *final(self) == *old(self),
            r is Ok ==> *final(self) == (Rcc { pllcfgr: RccPllcfgr { plln: plln, ..old(self).pllcfgr }, ..*old(self) }),
    {
        if self.cr.pllon {
            return Err(Error::PllEnabled);
        }
        self.pllcfgr = RccPllcfgr { plln: plln, ..self.pllcfgr };
        Ok(())
    }

    /// Sets the main PLL P division while it is off.
    pub fn pllp(&mut self, pllp: Pllp) -> (r: Result<(), Error>)
        ensures
            (r is Err) == (old(self).cr.pllon),
            r is Err ==> r == Err::<(), Error>(Error::PllEnabled) && *final(self) == *old(self),
            r is Ok ==> *final(self) == (Rcc { pllcfgr: RccPllcfgr { pllp: pllp, ..old(self).pllcfgr }, ..*old(self) }),
    {
        if self.cr.pllon {
            return Err(Error::PllEnabled);
        }
        self.pllcfgr = RccPllcfgr { pllp: pllp, ..self.pllcfgr };
        Ok(())
    }

    /// Sets the main PLL Q division while it is off.
    pub fn pllq(&mut self, pllq: PllQR) -> (r: Result<(), Error>)
        ensures
            (r is Err) == (old(self).cr.pllon),
            r is Err ==> r == Err::<(), Error>(Error::PllEnabled) && *final(self) == *old(self),
            r is Ok ==> *final(self) == (Rcc { pllcfgr: RccPllcfgr { pllq: pllq, ..old(self).pllcfgr }, ..*old(self) }),
    {
        if self.cr.pllon {
            return Err(Error::PllEnabled);
        }
        self.pllcfgr = RccPllcfgr { pllq: pllq, ..self.pllcfgr };
        Ok(())
    }

    /// Sets the main PLL R division while it is off.
    pub fn pllr(&mut self, pllr: PllQR) -> (r: Result<(), Error>)
        ensures
            (r is Err) == (old(self).cr.pllon),
            r is Err ==> r == Err::<(), Error>(Error::PllEnabled) && *final(self) == *old(self),
            r is Ok ==> *final(self) == (Rcc { pllcfgr: RccPllcfgr { pllr: pllr, ..old(self).pllcfgr }, ..*old(self) }),
    {
        if self.cr.pllon {
            return Err(Error::PllEnabled);
        }
        self.pllcfgr = RccPllcfgr { pllr: pllr, ..self.pllcfgr };
        Ok(())
    }

    /// Enables the main PLL P output.
    pub fn pllp_enable(&mut self, en: bool)
        ensures
            *final(self) == (Rcc { pllcfgr: RccPllcfgr { pllpen: en, ..old(self).pllcfgr }, ..*old(self) }),
    {
        self.pllcfgr = RccPllcfgr { pllpen: en, ..self.pllcfgr };
    }

    /// Enables the main PLL Q output.
    pub fn pllq_enable(&mut self, en: bool)
        ensures
            *final(self) == (Rcc { pllcfgr: RccPllcfgr { pllqen: en, ..old(self).pllcfgr }, ..*old(self) }),
    {
        self.pllcfgr = RccPllcfgr { pllqen: en, ..self.pllcfgr };
    }

    /// Enables the main PLL R output.
    pub fn pllr_enable(&mut self, en: bool)
        ensures
            *final(self) == (Rcc { pllcfgr: RccPllcfgr { pllren: en, ..old(self).pllcfgr }, ..*old(self) }),
    {
        self.pllcfgr = RccPllcfgr { pllren: en, ..self.pllcfgr };
    }

    /// Sets the PLLSAI1 multiplier while it is off.
    pub fn pllsai1n(&mut self, plln: Pllsai1N) -> (r: Result<(), Error>)
        ensures
            (r is Err) == (old(self).cr.pllsai1on),
            r is Err ==> r == Err::<(), Error>(Error::PllEnabled) && *final(self) == *old(self),
            r is Ok ==> *final(self) == (Rcc { pllsai1cfgr: RccPllsai1cfgr { plln: plln, ..old(self).pllsai1cfgr }, ..*old(self) }),
    {
        if self.cr.pllsai1on {
            return Err(Error::PllEnabled);
        }
        self.pllsai1cfgr = RccPllsai1cfgr { plln: plln, ..self.pllsai1cfgr };
        Ok(())
    }

    /// Sets the PLLSAI1 P division while it is off.
    pub fn pllsai1p(&mut self, pllp: Pllp) -> (r: Result<(), Error>)
        ensures
            (r is Err) == (old(self).cr.pllsai1on),
            r is Err ==> r == Err::<(), Error>(Error::PllEnabled) && *final(self) == *old(self),
            r is Ok ==> *final(self) == (Rcc { pllsai1cfgr: RccPllsai1cfgr { pllp: pllp, ..old(self).pllsai1cfgr }, ..*old(self) }),
    {
        if self.cr.pllsai1on {
            return Err(Error::PllEnabled);
        }
        self.pllsai1cfgr = RccPllsai1cfgr { pllp: pllp, ..self.pllsai1cfgr };
        Ok(())
    }

    /// Sets the PLLSAI1 Q division while it is off.
    pub fn pllsai1q(&mut self, pllq: PllQR) -> (r: Result<(), Error>)
        ensures
            (r is Err) == (old(self).cr.pllsai1on),
            r is Err ==> r == Err::<(), Error>(Error::PllEnabled) && *final(self) == *old(self),
            r is Ok ==> *final(self) == (Rcc { pllsai1cfgr: RccPllsai1cfgr { pllq: pllq, ..old(self).pllsai1cfgr }, ..*old(self) }),
    {
        if self.cr.pllsai1on {
            return Err(Error::PllEnabled);
        }
        self.pllsai1cfgr = RccPllsai1cfgr { pllq: pllq, ..self.pllsai1cfgr };
        Ok(())
    }

    /// Sets the PLLSAI1 R division while it is off.
    pub fn pllsai1r(&mut self, pllr: PllQR) -> (r: Result<(), Error>)
        ensures
            (r is Err) == (old(self).cr.pllsai1on),
            r is Err ==> r == Err::<(), Error>(Error::PllEnabled) && *final(self) == *old(self),
            r is Ok ==> *final(self) == (Rcc { pllsai1cfgr: RccPllsai1cfgr { pllr: pllr, ..old(self).pllsai1cfgr }, ..*old(self) }),
    {
        if self.cr.pllsai1on {
            return Err(Error::PllEnabled);
        }
        self.pllsai1cfgr = RccPllsai1cfgr { pllr: pllr, ..self.pllsai1cfgr };
        Ok(())
    }

    /// Enables the PLLSAI1 P output.
    pub fn pllsai1p_enable(&mut self, en: bool)
        ensures
            *final(self) == (Rcc { pllsai1cfgr: RccPllsai1cfgr { pllpen: en, ..old(self).pllsai1cfgr }, ..*old(self) }),
    {
        self.pllsai1cfgr = RccPllsai1cfgr { pllpen: en, ..self.pllsai1cfgr };
    }

    /// Enables the PLLSAI1 Q output.
    pub fn pllsai1q_enable(&mut self, en: bool)
        ensures
            *final(self) == (Rcc { pllsai1cfgr: RccPllsai1cfgr { pllqen: en, ..old(self).pllsai1cfgr }, ..*old(self) }),
    {
        self.pllsai1cfgr = RccPllsai1cfgr { pllqen: en, ..self.pllsai1cfgr };
    }

    /// Enables the PLLSAI1 R output.
    pub fn pllsai1r_enable(&mut self, en: bool)
        ensures
            *final(self) == (Rcc { pllsai1cfgr: RccPllsai1cfgr { pllren: en, ..old(self).pllsai1cfgr }, ..*old(self) }),
    {
        self.pllsai1cfgr = RccPllsai1cfgr { pllren: en, ..self.pllsai1cfgr };
    }

    /// Selects the clock of USART1.
    pub fn usart1_clock(&mut self, clock: Usart1sel)
        ensures
            *final(self) == (Rcc { ccipr: RccCcipr { usart1sel: clock, ..old(self).ccipr }, ..*old(self) }),
    {
        self.ccipr = RccCcipr { usart1sel: clock, ..self.ccipr };
    }

    /// Selects the clock of LPUART1.
    pub fn lp_uart1_clock(&mut self, clock: Usart1sel)
        ensures
            *final(self) == (Rcc { ccipr: RccCcipr { lpuart1sel: clock, ..old(self).ccipr }, ..*old(self) }),
    {
        self.ccipr = RccCcipr { lpuart1sel: clock, ..self.ccipr };
    }

    /// Selects the clock of I2C1.
    pub fn i2c1_clock(&mut self, clock: I2cSel)
        ensures
            *final(self) == (Rcc { ccipr: RccCcipr { i2c1sel: clock, ..old(self).ccipr }, ..*old(self) }),
    {
        self.ccipr = RccCcipr { i2c1sel: clock, ..self.ccipr };
    }

    /// Selects the clock of I2C3.
    pub fn i2c3_clock(&mut self, clock: I2cSel)
        ensures
            *final(self) == (Rcc { ccipr: RccCcipr { i2c3sel: clock, ..old(self).ccipr }, ..*old(self) }),
    {
        self.ccipr = RccCcipr { i2c3sel: clock, ..self.ccipr };
    }

    /// Selects the clock of LPTIM1.
    pub fn lptim1_clock(&mut self, clock: LptimSel)
        ensures
            *final(self) == (Rcc { ccipr: RccCcipr { lptim1sel: clock, ..old(self).ccipr }, ..*old(self) }),
    {
        self.ccipr = RccCcipr { lptim1sel: clock, ..self.ccipr };
    }

    /// Selects the clock of LPTIM2.
    pub fn lptim2_clock(&mut self, clock: LptimSel)
        ensures
            *final(self) == (Rcc { ccipr: RccCcipr { lptim2sel: clock, ..old(self).ccipr }, ..*old(self) }),
    {
        self.ccipr = RccCcipr { lptim2sel: clock, ..self.ccipr };
    }

    /// Selects the clock of SAI1.
    pub fn sai1_clock(&mut self, clock: Sai1Sel)
        ensures
            *final(self) == (Rcc { ccipr: RccCcipr { sai1sel: clock, ..old(self).ccipr }, ..*old(self) }),
    {
        self.ccipr = RccCcipr { sai1sel: clock, ..self.ccipr };
    }

    /// Selects the clock of the 48 MHz domain.
    pub fn clock_48(&mut self, clock: Clk48Sel)
        ensures
            *final(self) == (Rcc { ccipr: RccCcipr { clk48sel: clock, ..old(self).ccipr }, ..*old(self) }),
    {
        self.ccipr = RccCcipr { clk48sel: clock, ..self.ccipr };
    }

    /// Selects the clock of the ADC.
    pub fn adc_clock(&mut self, clock: AdcSel)
        ensures
            *final(self) == (Rcc { ccipr: RccCcipr { adcsel: clock, ..old(self).ccipr }, ..*old(self) }),
    {
        self.ccipr = RccCcipr { adcsel: clock, ..self.ccipr };
    }

    /// Selects the clock of the RNG.
    pub fn rng_clock(&mut self, clock: RngSel)
        ensures
            *final(self) == (Rcc { ccipr: RccCcipr { rngsel: clock, ..old(self).ccipr }, ..*old(self) }),
    {
        self.ccipr = RccCcipr { rngsel: clock, ..self.ccipr };
    }

}

/// MSI's highest frequency in each voltage range.
pub fn msi_max_hertz(vos: Vos) -> (r: Hertz)
    ensures
        r.hz == (match vos {
            Vos::Range1 => 48_000_000u32,
            Vos::Range2 => 16_000_000u32,
        }),
{
    match vos {
        Vos::Range1 => Hertz::MHz(48),
        Vos::Range2 => Hertz::MHz(16),
    }
}

/// HSI16 frequency.
pub fn hsi16_hertz() -> (r: Hertz)
    ensures
        r.hz == 16_000_000,
{
    Hertz::MHz(16)
}

/// HSI48 frequency.
pub fn hsi48_hertz() -> (r: Hertz)
    ensures
        r.hz == 48_000_000,
{
    Hertz::MHz(48)
}

/// HSE crystal frequency.
pub fn hse_hertz() -> (r: Hertz)
    ensures
        r.hz == 32_000_000,
{
    Hertz::MHz(32)
}

/// HSE after its optional division by two.
pub fn hse_output_hertz(hsepre: bool) -> (r: Hertz)
    ensures
        r.hz == (if hsepre {
            16_000_000u32
        } else {
            32_000_000u32
        }),
{
    if hsepre {
        Hertz::from_raw(hse_hertz().raw() / 2)
    } else {
        hse_hertz()
    }
}

/// Highest PLL output frequency in each voltage range.
pub fn pll_max_hertz(vos: Vos) -> (r: Hertz)
    ensures
        r.hz == (match vos {
            Vos::Range1 => 64_000_000u32,
            Vos::Range2 => 16_000_000u32,
        }),
{
    match vos {
        Vos::Range1 => Hertz::MHz(64),
        Vos::Range2 => Hertz::MHz(16),
    }
}

/// LSI1 frequency: the 32 kHz low-speed internal RC oscillator.
pub fn lsi1_hertz() -> (r: Hertz)
    ensures
        r.hz == 32_000,
{
    Hertz::kHz(32)
}

/// LSI2 frequency: the 32 kHz low-drift internal RC oscillator.
pub fn lsi2_hertz() -> (r: Hertz)
    ensures
        r.hz == 32_000,
{
    Hertz::kHz(32)
}

/// LSE crystal frequency: 32.768 kHz.
pub fn lse_hertz() -> (r: Hertz)
    ensures
        r.hz == 32_768,
{
    Hertz::Hz(32_768)
}

/// Frozen clock frequencies.
#[derive(Clone, Copy, Debug, PartialEq, Eq, Structural)]
pub struct Ccdr {
    pub sysclk: Hertz,
    pub hclk1: Hertz,
    pub hclk2: Hertz,
    pub hclk4: Hertz,
    pub pclk1: Hertz,
    pub pclk2: Hertz,
    pub i2c1_clk: Hertz,
    pub i2c3_clk: Hertz,
}

/// Something that knows the clock frequencies.
pub trait Clocks {
    fn sysclk(&self) -> Hertz;

    fn hclk1(&self) -> Hertz;

    fn hclk2(&self) -> Hertz;

    fn hclk4(&self) -> Hertz;

    fn pclk1(&self) -> Hertz;

    fn pclk2(&self) -> Hertz;

    fn i2c1_clk(&self) -> Hertz;

    fn i2c3_clk(&self) -> Hertz;
}

impl Clocks for Ccdr {
    fn sysclk(&self) -> Hertz {
        self.sysclk
    }

    fn hclk1(&self) -> Hertz {
        self.hclk1
    }

    fn hclk2(&self) -> Hertz {
        self.hclk2
    }

    fn hclk4(&self) -> Hertz {
        self.hclk4
    }

    fn pclk1(&self) -> Hertz {
        self.pclk1
    }

    fn pclk2(&self) -> Hertz {
        self.pclk2
    }

    fn i2c1_clk(&self) -> Hertz {
        self.i2c1_clk
    }

    fn i2c3_clk(&self) -> Hertz {
        self.i2c3_clk
    }
}

/// Sets the flash wait states that an HCLK4 of `hclk4` needs in the
/// voltage range `pwr` is in.
pub fn set_flash_latency(flash: &mut Flash, pwr: &Pwr, hclk4: Hertz)
    ensures
        *final(flash) == (Flash {
            acr: crate::flash::FlashAcr {
                latency: crate::flash::spec_latency(pwr.cr1.vos, hclk4.hz),
                ..old(flash).acr
            },
            ..*old(flash)
        }),
{
    let latency = Latency::from(pwr.cr1.vos, hclk4);
    flash.set_latency(latency);
}

} // verus!
