//! I2C: bus timing computation and the types of the bus driver.
use crate::time::Hertz;
use vstd::prelude::*;

verus! {

/// Pin pairs usable by an I2C peripheral.
pub trait Pins<I2C> {
}

/// Clock pins of an I2C peripheral.
pub trait SclPin<I2C> {
}

/// Data pins of an I2C peripheral.
pub trait SdaPin<I2C> {
}

/// SMBus alert pins of an I2C peripheral.
pub trait SmbaPin<I2C> {
}

/// How a transfer starts.
#[derive(Clone, Copy, Debug, PartialEq, Eq, Structural)]
pub enum Start {
    Start,
    Restart,
    Reload,
}

/// How a transfer ends.
#[derive(Clone, Copy, Debug, PartialEq, Eq, Structural)]
pub enum Stop {
    Software,
    Reload,
    Automatic,
}

/// Which byte was not acknowledged.
#[derive(Clone, Copy, Debug, PartialEq, Eq, Structural)]
pub enum NoAcknowledgeSource {
    Address,
    Data,
    Unknown,
}

/// Bus errors.
#[derive(Clone, Copy, Debug, PartialEq, Eq, Structural)]
pub enum Error {
    Bus,
    Arbitration,
    NoAcknowledge(NoAcknowledgeSource),
}

/// Why the peripheral could not be set up.
#[derive(Clone, Copy, Debug, PartialEq, Eq, Structural)]
pub enum ConfigError {
    I2cClockDisabled,
}

/// I2C interrupt sources.
#[derive(Clone, Copy, Debug, PartialEq, Eq, Structural)]
pub enum Event {
    Transmit,
    Receive,
    AddressMatch,
    NotAcknowledge,
    Stop,
    TransferComplete,
    Errors,
}

/// A target address.
#[derive(Clone, Copy, Debug, PartialEq, Eq, Structural)]
pub enum Address {
    SevenBit(u8),
    TenBit(u16),
}

/// What follows an operation of a transaction.
#[derive(Clone, Copy, Debug, PartialEq, Eq, Structural)]
pub enum NextOp {
    Start,
    Restart,
    Reload,
    Stop,
}

impl NextOp {
    /// How the next operation starts; nothing starts after the last one.
    pub fn start(self) -> (r: Start)
        requires
            self != NextOp::Stop,
        ensures
            r == (match self {
                NextOp::Start => Start::Start,
                NextOp::Restart => Start::Restart,
                _ => Start::Reload,
            }),
    {
        match self {
            NextOp::Start => Start::Start,
            NextOp::Restart => Start::Restart,
            _ => Start::Reload,
        }
    }

    /// How the current operation ends; the first one does not end one.
    pub fn stop(self) -> (r: Stop)
        requires
            self != NextOp::Start,
        ensures
            r == (match self {
                NextOp::Restart => Stop::Software,
                NextOp::Reload => Stop::Reload,
                _ => Stop::Automatic,
            }),
    {
        match self {
            NextOp::Restart => Stop::Software,
            NextOp::Reload => Stop::Reload,
            _ => Stop::Automatic,
        }
    }
}

/// Something that can become an I2C bus driver.
pub trait I2cExt {
}

/// An I2C peripheral with its pins.
pub struct I2c<I2C, PINS> {
    pub i2c: I2C,
    pub pins: PINS,
}

/// Timing constraints of one bus mode: least kernel clock (MHz), fall
/// time, rise time and data setup time (ns), prescaler ticks of the clock
/// period, weights of the low and high periods, and least low and high
/// periods (ns).
pub struct Mode {
    pub min_mhz: u64,
    pub tf: u64,
    pub tr: u64,
    pub su: u64,
    pub ticks: u64,
    pub l_weight: u64,
    pub h_weight: u64,
    pub scll_min: u64,
    pub sclh_min: u64,
}

/// The constraints of the mode that serves `freq` hertz: fast mode plus
/// above 400 kHz, fast mode above 100 kHz, standard mode below.
pub open spec fn spec_mode(freq: int) -> Mode {
    if freq > 400_000 {
        Mode { min_mhz: 19, tf: 120, tr: 120, su: 50, ticks: 384, l_weight: 2, h_weight: 1, scll_min: 500, sclh_min: 260 }
    } else if freq > 100_000 {
        Mode { min_mhz: 9, tf: 300, tr: 300, su: 100, ticks: 384, l_weight: 2, h_weight: 1, scll_min: 1300, sclh_min: 600 }
    } else {
        Mode { min_mhz: 2, tf: 300, tr: 1000, su: 250, ticks: 512, l_weight: 1, h_weight: 1, scll_min: 4700, sclh_min: 4000 }
    }
}

fn mode_for(freq: u32) -> (m: Mode)
    ensures
        m == spec_mode(freq as int),
{
    if freq > 400_000 {
        Mode { min_mhz: 19, tf: 120, tr: 120, su: 50, ticks: 384, l_weight: 2, h_weight: 1, scll_min: 500, sclh_min: 260 }
    } else if freq > 100_000 {
        Mode { min_mhz: 9, tf: 300, tr: 300, su: 100, ticks: 384, l_weight: 2, h_weight: 1, scll_min: 1300, sclh_min: 600 }
    } else {
        Mode { min_mhz: 2, tf: 300, tr: 1000, su: 250, ticks: 512, l_weight: 1, h_weight: 1, scll_min: 4700, sclh_min: 4000 }
    }
}

/// Prescaler register value that lets `ratio` fit in `ticks` steps.
pub open spec fn presc_of(ratio: int, ticks: int) -> int {
    if ratio != 0 {
        (ratio - 1) / ticks
    } else {
        0
    }
}

pub open spec fn max3(a: int, b: int, c: int) -> int {
    if a >= b && a >= c {
        a
    } else if b >= c {
        b
    } else {
        c
    }
}

pub open spec fn max2(a: int, b: int) -> int {
    if a >= b {
        a
    } else {
        b
    }
}

/// Low byte, as a cast to `u8` keeps it.
pub open spec fn byte(x: int) -> u8 {
    (x % 256) as u8
}

/// The register values `[PRESC, SCLL, SCLH, SDADEL, SCLDEL]` for a kernel
/// clock of `clk` hertz and a bus of `freq` hertz, or `None` where the
/// clock is below the mode's least, the clock ratio exceeds 8192, or an
/// intermediate value would go negative.
pub open spec fn spec_timings(clk: int, freq: int) -> Option<Seq<u8>> {
    let m = spec_mode(freq);
    let ratio: int = (clk + freq - 1) / freq;
    let khz: int = clk / 1000;
    let scl_ratio: int = ratio - 4 - khz / 10_000;
    let scll_min_ratio: int = (khz * m.scll_min + 999_999) / 1_000_000;
    let sclh_min_ratio: int = (khz * m.sclh_min + 999_999) / 1_000_000;
    let sdadel_ratio: int = if m.tf - 50 >= 3_000_000int / khz {
        ((m.tf - 50 - 3_000_000int / khz) * khz + 999_999) / 1_000_000
    } else {
        0
    };
    let scldel_ratio: int = (khz * (m.tr + m.su) + 999_999) / 1_000_000;
    let presc_reg: int = max3(
        presc_of(scl_ratio, m.ticks as int),
        presc_of(scldel_ratio, 16),
        presc_of(sdadel_ratio, 15),
    );
    let presc: int = presc_reg + 1;
    let scll0 = byte((scl_ratio * m.l_weight - 1) / (presc * (m.l_weight + m.h_weight)));
    let scll: int = max2(scll0 as int, byte((scll_min_ratio - 1) / presc) as int);
    let sclh0 = byte((scl_ratio - presc - 1) / presc - scll);
    let sclh: int = max2(sclh0 as int, byte((sclh_min_ratio - 1) / presc) as int);
    let sdadel = byte((sdadel_ratio + presc - 1) / presc);
    let scldel = byte((scldel_ratio - 1) / presc);
    if freq == 0 || ratio > 8192 || clk < m.min_mhz * 1_000_000 || scl_ratio < 1 || scl_ratio
        - presc - 1 < 0 || (scl_ratio - presc - 1) / presc - scll < 0 {
        None
    } else {
        Some(seq![byte(presc_reg), scll as u8, sclh as u8, sdadel, scldel])
    }
}

impl<I2C, PINS> I2c<I2C, PINS> {
    /// Timing register fields `[PRESC, SCLL, SCLH, SDADEL, SCLDEL]` for a
    /// bus of `frequency` on a kernel clock of `i2cclk`. The pair must be
    /// one the fields can be computed for (see `timings_defined`): the
    /// kernel clock at least the bus mode's least, a clock ratio of at most
    /// 8192, and no intermediate value negative.
    pub fn timings(i2cclk: Hertz, frequency: Hertz) -> (r: [u8; 5])
        requires
            spec_timings(i2cclk.hz as int, frequency.hz as int) is Some,
        ensures
            r@ == spec_timings(i2cclk.hz as int, frequency.hz as int)->0,
    {
        match Self::timings_opt(i2cclk, frequency) {
            Some(a) => a,
            None => [0u8; 5],
        }
    }

    /// Whether `timings` accepts the pair.
    pub fn timings_defined(i2cclk: Hertz, frequency: Hertz) -> (r: bool)
        ensures
            r == spec_timings(i2cclk.hz as int, frequency.hz as int) is Some,
    {
        Self::timings_opt(i2cclk, frequency).is_some()
    }

    #[verifier::rlimit(100)]
    fn timings_opt(i2cclk: Hertz, frequency: Hertz) -> (r: Option<[u8; 5]>)
        ensures
            r is Some == spec_timings(i2cclk.hz as int, frequency.hz as int) is Some,
            r matches Some(a) ==> a@ == spec_timings(i2cclk.hz as int, frequency.hz as int)->0,
    {
        let clk = i2cclk.hz as u64;
        let freq = frequency.hz as u64;
        let m = mode_for(frequency.hz);
        if freq == 0 {
            return None;
        }
        let ratio = (clk + freq - 1) / freq;
        if ratio > 8192 || clk < m.min_mhz * 1_000_000 {
            return None;
        }
        let khz = clk / 1000;
        if ratio < 4 + khz / 10_000 + 1 {
            return None;
        }
        let scl_ratio = ratio - 4 - khz / 10_000;
        proof {
            assert(m.scll_min <= 4700 && m.sclh_min <= 4000 && m.tr + m.su <= 1250 && m.tf <= 300
                && m.tf >= 120 && m.ticks >= 384 && m.l_weight <= 2 && m.h_weight == 1);
            assert(khz <= 4_294_967);
            assert(khz >= 2000);
            assert(m.l_weight >= 1 && m.scll_min >= 500 && m.sclh_min >= 260 && m.tr + m.su >= 170);
            assert(scl_ratio * m.l_weight >= 1) by (nonlinear_arith)
                requires
                    scl_ratio >= 1,
                    m.l_weight >= 1,
            ;
            assert(khz * m.scll_min >= 1) by (nonlinear_arith)
                requires
                    khz >= 2000,
                    m.scll_min >= 500,
            ;
            assert(khz * m.sclh_min >= 1) by (nonlinear_arith)
                requires
                    khz >= 2000,
                    m.sclh_min >= 260,
            ;
            assert(khz * (m.tr + m.su) >= 1) by (nonlinear_arith)
                requires
                    khz >= 2000,
                    m.tr + m.su >= 170,
            ;
            assert(khz * m.scll_min <= 4_294_967 * 4700) by (nonlinear_arith)
                requires
                    khz <= 4_294_967,
                    m.scll_min <= 4700,
            ;
            assert(khz * m.sclh_min <= 4_294_967 * 4000) by (nonlinear_arith)
                requires
                    khz <= 4_294_967,
                    m.sclh_min <= 4000,
            ;
            assert(khz * (m.tr + m.su) <= 4_294_967 * 1250) by (nonlinear_arith)
                requires
                    khz <= 4_294_967,
                    m.tr + m.su <= 1250,
            ;
            assert(250 * khz <= 4_294_967 * 250) by (nonlinear_arith)
                requires
                    khz <= 4_294_967,
            ;
            assert(scl_ratio * m.l_weight <= 8192 * 2) by (nonlinear_arith)
                requires
                    scl_ratio <= 8192,
                    m.l_weight <= 2,
            ;
        }
        let scll_min_ratio = (khz * m.scll_min + 999_999) / 1_000_000;
        let sclh_min_ratio = (khz * m.sclh_min + 999_999) / 1_000_000;
        let sdadel_ratio = if m.tf - 50 >= 3_000_000 / khz {
            let d = m.tf - 50 - 3_000_000 / khz;
            proof {
                assert(d * khz <= 250 * khz) by (nonlinear_arith)
                    requires
                        d <= 250,
            ;
            }
            (d * khz + 999_999) / 1_000_000
        } else {
            0
        };
        let scldel_ratio = (khz * (m.tr + m.su) + 999_999) / 1_000_000;
        let p1 = if scl_ratio != 0 { (scl_ratio - 1) / m.ticks } else { 0 };
        let p2 = if scldel_ratio != 0 { (scldel_ratio - 1) / 16 } else { 0 };
        let p3 = if sdadel_ratio != 0 { (sdadel_ratio - 1) / 15 } else { 0 };
        let presc_reg = if p1 >= p2 && p1 >= p3 { p1 } else if p2 >= p3 { p2 } else { p3 };
        proof {
            assert(p1 <= 8192);
            assert(p2 <= scldel_ratio);
            assert(p3 <= sdadel_ratio);
        }
        proof {
            assert(scldel_ratio <= 5_400_000);
            assert(presc_reg <= 5_400_000);
        }
        let presc = presc_reg + 1;
        proof {
            assert(presc * (m.l_weight + m.h_weight) <= 5_400_001 * 3) by (nonlinear_arith)
                requires
                    presc <= 5_400_001,
                    m.l_weight + m.h_weight <= 3,
            ;
            assert(presc * (m.l_weight + m.h_weight) >= 1) by (nonlinear_arith)
                requires
                    presc >= 1,
                    m.l_weight + m.h_weight >= 1,
            ;
        }
        let scll0 = ((scl_ratio * m.l_weight - 1) / (presc * (m.l_weight + m.h_weight))) % 256;
        let scll1 = ((scll_min_ratio - 1) / presc) % 256;
        let scll = if scll0 >= scll1 { scll0 } else { scll1 };
        if scl_ratio < presc + 1 || (scl_ratio - presc - 1) / presc < scll {
            return None;
        }
        let sclh0 = ((scl_ratio - presc - 1) / presc - scll) % 256;
        let sclh1 = ((sclh_min_ratio - 1) / presc) % 256;
        let sclh = if sclh0 >= sclh1 { sclh0 } else { sclh1 };
        let sdadel = ((sdadel_ratio + presc - 1) / presc) % 256;
        let scldel = ((scldel_ratio - 1) / presc) % 256;
        let a: [u8; 5] = [(presc_reg % 256) as u8, scll as u8, sclh as u8, sdadel as u8, scldel as u8];
        proof {
            assert(a@ =~= spec_timings(i2cclk.hz as int, frequency.hz as int)->0);
        }
        Some(a)
    }
}

} // verus!
