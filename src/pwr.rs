//! Power control: a model of the PWR registers as decoded fields.
use crate::rcc::Ccdr;
use vstd::prelude::*;

pub mod pxcr;

verus! {

/// Why a power mode change was refused.
#[derive(Clone, Copy, Debug, PartialEq, Eq, Structural)]
pub enum Error {
    SysclkTooHighVos,
    SysclkTooHighLpr,
    LPRunToStop2Illegal,
}

/// Battery charging through the VBAT pin.
#[derive(Clone, Copy, Debug, PartialEq, Eq, Structural)]
pub enum BatteryCharging {
    Disabled,
    R1_5,
    R5,
}

/// Power interrupt sources of the host core.
#[derive(Clone, Copy, Debug, PartialEq, Eq, Structural)]
pub enum Event {
    BorhSmpsStepDownInBypass,
    CriticalRadioPhaseEOA,
    BleEOA,
    _802EOA,
    Cpu2Hold,
}

/// Wakeup pins.
#[derive(Clone, Copy, Debug, PartialEq, Eq, Structural)]
pub enum WakeupSource {
    Wkup1,
    Wkup2,
    Wkup3,
    Wkup4,
    Wkup5,
}

/// Active level of a wakeup pin.
#[derive(Clone, Copy, Debug, PartialEq, Eq, Structural)]
pub enum Polarity {
    Low,
    High,
}

/// What a high brown-out does.
#[derive(Clone, Copy, Debug, PartialEq, Eq, Structural)]
pub enum Borh {
    SystemReset,
    SmpsBypass,
}

/// Low-power mode entered on deep sleep.
#[derive(Clone, Copy, Debug, PartialEq, Eq, Structural)]
pub enum Lpms {
    Stop0,
    Stop1,
    Stop2,
    Standby,
    Shutdown,
}

/// Voltage scaling range.
#[derive(Clone, Copy, Debug, PartialEq, Eq, Structural)]
pub enum Vos {
    Range1,
    Range2,
}

/// Power voltage detector threshold.
#[derive(Clone, Copy, Debug, PartialEq, Eq, Structural)]
pub enum Pls {
    PVD0,
    PVD1,
    PVD2,
    PVD3,
    PVD4,
    PVD5,
    PVD6,
    PVDIn,
}

/// A flag cleared through the status clear register.
#[derive(Clone, Copy, Debug, PartialEq, Eq, Structural)]
pub enum PwrClear {
    Wakeup(WakeupSource),
    Event(Event),
}

/// Control register 1 (and the radio wakeup bits of the second core's copy).
#[derive(Clone, Copy, Debug, PartialEq, Eq, Structural)]
pub struct PwrCr1 {
    pub lpms: Lpms,
    pub fpdr: bool,
    pub fpds: bool,
    pub dbp: bool,
    pub vos: Vos,
    pub lpr: bool,
    pub bleewkup: bool,
    pub i802ewkup: bool,
}

/// Control register 2.
#[derive(Clone, Copy, Debug, PartialEq, Eq, Structural)]
pub struct PwrCr2 {
    pub pls: Pls,
    pub pvde: bool,
    pub pvme1: bool,
    pub pvme3: bool,
    pub usv: bool,
}

/// Control register 3.
#[derive(Clone, Copy, Debug, PartialEq, Eq, Structural)]
pub struct PwrCr3 {
    pub ewup1: bool,
    pub ewup2: bool,
    pub ewup3: bool,
    pub ewup4: bool,
    pub ewup5: bool,
    pub rrs: bool,
    pub apc: bool,
    pub eborhsdfb: bool,
    pub ecrpe: bool,
    pub eblea: bool,
    pub e802a: bool,
    pub ec2h: bool,
    pub eiwul: bool,
}

/// Control register 4.
#[derive(Clone, Copy, Debug, PartialEq, Eq, Structural)]
pub struct PwrCr4 {
    pub wp1: bool,
    pub wp2: bool,
    pub wp3: bool,
    pub wp4: bool,
    pub wp5: bool,
    pub vbe: bool,
    pub vbrs: bool,
    pub c2boot: bool,
}

/// Control register 5 (SMPS).
#[derive(Clone, Copy, Debug, PartialEq, Eq, Structural)]
pub struct PwrCr5 {
    pub sdvos: u8,
    pub sdsc: u8,
    pub borhc: bool,
    pub sdeb: bool,
}

/// The PWR registers. `scr` holds the flag last cleared; `sr1` and `sr2`
/// are the raw status registers.
#[derive(Clone, Copy, Debug, PartialEq, Eq, Structural)]
pub struct Pwr {
    pub cr1: PwrCr1,
    pub cr2: PwrCr2,
    pub cr3: PwrCr3,
    pub cr4: PwrCr4,
    pub cr5: PwrCr5,
    pub scr: Option<PwrClear>,
    pub sr1: u32,
    pub sr2: u32,
}

/// The factory SMPS voltage word.
pub struct SmpsVos {
    pub word: u32,
}

impl SmpsVos {
    /// Bits 11 to 8 of the word.
    pub fn factory(&self) -> (r: u8)
        ensures
            r == (self.word >> 8u32) & 0xFu32,
            r < 16,
    {
        let w = self.word;
        let v = (w >> 8u32) & 0xFu32;
        assert(v < 16) by (bit_vector)
            requires
                v == (w >> 8u32) & 0xFu32,
        ;
        v as u8
    }
}

impl Pwr {
    /// Low-power mode entered on deep sleep.
    pub fn lp_mode(&self) -> (r: Lpms)
        ensures
            r == self.cr1.lpms,
    {
        self.cr1.lpms
    }

    /// Flash powered down in low-power run.
    pub fn lp_run_flash_powerdown(&self) -> (r: bool)
        ensures
            r == self.cr1.fpdr,
    {
        self.cr1.fpdr
    }

    /// Flash powered down in low-power sleep.
    pub fn lp_sleep_flash_powerdown(&self) -> (r: bool)
        ensures
            r == self.cr1.fpds,
    {
        self.cr1.fpds
    }

    /// Backup domain write access.
    pub fn dbp(&self) -> (r: bool)
        ensures
            r == self.cr1.dbp,
    {
        self.cr1.dbp
    }

    /// Voltage scaling range.
    pub fn power_range(&self) -> (r: Vos)
        ensures
            r == self.cr1.vos,
    {
        self.cr1.vos
    }

    /// Low-power run is on.
    pub fn lp_run(&self) -> (r: bool)
        ensures
            r == self.cr1.lpr,
    {
        self.cr1.lpr
    }

    /// BLE wakes the second core.
    pub fn blee_wakeup(&self) -> (r: bool)
        ensures
            r == self.cr1.bleewkup,
    {
        self.cr1.bleewkup
    }

    /// 802.15.4 wakes the second core.
    pub fn i802e_wakeup(&self) -> (r: bool)
        ensures
            r == self.cr1.i802ewkup,
    {
        self.cr1.i802ewkup
    }

    /// USB supply declared valid.
    pub fn usb_supply_valid(&self) -> (r: bool)
        ensures
            r == self.cr2.usv,
    {
        self.cr2.usv
    }

    /// Status register 1.
    pub fn sr1(&self) -> (r: u32)
        ensures
            r == self.sr1,
    {
        self.sr1
    }

    /// Status register 2.
    pub fn sr2(&self) -> (r: u32)
        ensures
            r == self.sr2,
    {
        self.sr2
    }

    /// Powers the flash down in low-power sleep.
    pub fn set_lp_sleep_flash_powerdown(&mut self, powerdown: bool)
        ensures
            *final(self) == (Pwr { cr1: PwrCr1 { fpds: powerdown, ..old(self).cr1 }, ..*old(self) }),
    {
        self.cr1.fpds = powerdown;
    }

    /// Lets BLE wake the second core.
    pub fn set_blee_wakeup(&mut self, wkup: bool)
        ensures
            *final(self) == (Pwr { cr1: PwrCr1 { bleewkup: wkup, ..old(self).cr1 }, ..*old(self) }),
    {
        self.cr1.bleewkup = wkup;
    }

    /// Lets 802.15.4 wake the second core.
    pub fn set_i802e_wakeup(&mut self, wkup: bool)
        ensures
            *final(self) == (Pwr { cr1: PwrCr1 { i802ewkup: wkup, ..old(self).cr1 }, ..*old(self) }),
    {
        self.cr1.i802ewkup = wkup;
    }

    /// Backup domain write access.
    pub fn set_dbp(&mut self, dbp: bool)
        ensures
            *final(self) == (Pwr { cr1: PwrCr1 { dbp: dbp, ..old(self).cr1 }, ..*old(self) }),
    {
        self.cr1.dbp = dbp;
    }

    /// USB supply monitoring.
    pub fn peripheral_voltage_monitoring_1(&mut self, en: bool)
        ensures
            *final(self) == (Pwr { cr2: PwrCr2 { pvme1: en, ..old(self).cr2 }, ..*old(self) }),
    {
        self.cr2.pvme1 = en;
    }

    /// ADC supply monitoring.
    pub fn peripheral_voltage_monitoring_3(&mut self, en: bool)
        ensures
            *final(self) == (Pwr { cr2: PwrCr2 { pvme3: en, ..old(self).cr2 }, ..*old(self) }),
    {
        self.cr2.pvme3 = en;
    }

    /// Declares the USB supply valid.
    pub fn set_usb_supply_valid(&mut self, val: bool)
        ensures
            *final(self) == (Pwr { cr2: PwrCr2 { usv: val, ..old(self).cr2 }, ..*old(self) }),
    {
        self.cr2.usv = val;
    }

    /// Keeps SRAM2a in standby.
    pub fn sram2a_retention(&mut self, rrs: bool)
        ensures
            *final(self) == (Pwr { cr3: PwrCr3 { rrs: rrs, ..old(self).cr3 }, ..*old(self) }),
    {
        self.cr3.rrs = rrs;
    }

    /// Applies the pull configuration in standby and shutdown.
    pub fn apply_pull_mode_cfg(&mut self, val: bool)
        ensures
            *final(self) == (Pwr { cr3: PwrCr3 { apc: val, ..old(self).cr3 }, ..*old(self) }),
    {
        self.cr3.apc = val;
    }

    /// Enables the internal wakeup line.
    pub fn internal_wakeup(&mut self, en: bool)
        ensures
            *final(self) == (Pwr { cr3: PwrCr3 { eiwul: en, ..old(self).cr3 }, ..*old(self) }),
    {
        self.cr3.eiwul = en;
    }

    /// Boots the second core.
    pub fn c2boot(&mut self, val: bool)
        ensures
            *final(self) == (Pwr { cr4: PwrCr4 { c2boot: val, ..old(self).cr4 }, ..*old(self) }),
    {
        self.cr4.c2boot = val;
    }

    /// Sets the SMPS output voltage step.
    pub fn smps_vos(&mut self, val: u8)
        requires
            val < 16,
        ensures
            *final(self) == (Pwr { cr5: PwrCr5 { sdvos: val, ..old(self).cr5 }, ..*old(self) }),
    {
        self.cr5.sdvos = val;
    }

    /// Sets the SMPS supply current limit step.
    pub fn smps_sc(&mut self, val: u8)
        requires
            val < 8,
        ensures
            *final(self) == (Pwr { cr5: PwrCr5 { sdsc: val, ..old(self).cr5 }, ..*old(self) }),
    {
        self.cr5.sdsc = val;
    }

    /// Turns the SMPS step-down converter on.
    pub fn smps_enable(&mut self, en: bool)
        ensures
            *final(self) == (Pwr { cr5: PwrCr5 { sdeb: en, ..old(self).cr5 }, ..*old(self) }),
    {
        self.cr5.sdeb = en;
    }

    /// What a high brown-out does.
    pub fn borh(&mut self, borh: Borh)
        ensures
            *final(self) == (Pwr { cr5: PwrCr5 { borhc: borh == Borh::SmpsBypass, ..old(self).cr5 }, ..*old(self) }),
    {
        self.cr5.borhc = borh == Borh::SmpsBypass;
    }

    /// Pull-up and pull-down registers of the ports.
    pub fn pxcr(&self) -> (r: pxcr::Pxcr<'_>)
        ensures
            r.pwr == self,
    {
        pxcr::Pxcr { pwr: self }
    }

    /// Enables the power voltage detector at threshold `level`.
    pub fn enable_power_voltage_detector(&mut self, level: Pls)
        ensures
            *final(self) == (Pwr { cr2: PwrCr2 { pls: level, pvde: true, ..old(self).cr2 }, ..*old(self) }),
    {
        self.cr2.pls = level;
        self.cr2.pvde = true;
    }

    /// Disables the power voltage detector.
    pub fn disable_power_voltage_detector(&mut self)
        ensures
            *final(self) == (Pwr { cr2: PwrCr2 { pvde: false, ..old(self).cr2 }, ..*old(self) }),
    {
        self.cr2.pvde = false;
    }

    /// Enters low-power run; refused above 2 MHz system clock.
    pub fn enter_low_power_run(&mut self, clocks: &Ccdr) -> (r: Result<(), Error>)
        ensures
            (r is Err) == (clocks.sysclk.hz > 2_000_000),
            r is Err ==> r == Err::<(), Error>(Error::SysclkTooHighLpr) && *final(self) == *old(self),
            r is Ok ==> *final(self) == (Pwr { cr1: PwrCr1 { fpdr: false, lpr: true, ..old(self).cr1 }, ..*old(self) }),
    {
        if clocks.sysclk.hz > 2_000_000 {
            return Err(Error::SysclkTooHighLpr);
        }
        self.cr1.fpdr = false;
        self.cr1.lpr = true;
        Ok(())
    }

    /// Leaves low-power run.
    pub fn exit_low_power_run(&mut self)
        ensures
            *final(self) == (Pwr { cr1: PwrCr1 { lpr: false, ..old(self).cr1 }, ..*old(self) }),
    {
        self.cr1.lpr = false;
    }

    /// Selects the voltage range; range 2 is refused above 2 MHz system
    /// clock.
    pub fn set_power_range(&mut self, range: Vos, clocks: &Ccdr) -> (r: Result<(), Error>)
        ensures
            (r is Err) == (range == Vos::Range2 && clocks.sysclk.hz > 2_000_000),
            r is Err ==> r == Err::<(), Error>(Error::SysclkTooHighVos) && *final(self) == *old(self),
            r is Ok ==> *final(self) == (Pwr { cr1: PwrCr1 { vos: range, ..old(self).cr1 }, ..*old(self) }),
    {
        if range == Vos::Range2 && clocks.sysclk.hz > 2_000_000 {
            return Err(Error::SysclkTooHighVos);
        }
        self.cr1.vos = range;
        Ok(())
    }

    /// Selects the mode deep sleep enters; stop 2 is refused in low-power
    /// run.
    pub fn set_low_power_mode(&mut self, mode: Lpms) -> (r: Result<(), Error>)
        ensures
            (r is Err) == (old(self).cr1.lpr && mode == Lpms::Stop2),
            r is Err ==> r == Err::<(), Error>(Error::LPRunToStop2Illegal) && *final(self) == *old(self),
            r is Ok ==> *final(self) == (Pwr { cr1: PwrCr1 { lpms: mode, ..old(self).cr1 }, ..*old(self) }),
    {
        if self.cr1.lpr && mode == Lpms::Stop2 {
            return Err(Error::LPRunToStop2Illegal);
        }
        self.cr1.lpms = mode;
        Ok(())
    }

    /// Powers the flash down in low-power run.
    pub fn set_lp_run_flash_powerdown(&mut self, powerdown: bool)
        ensures
            *final(self) == (Pwr { cr1: PwrCr1 { fpdr: powerdown, ..old(self).cr1 }, ..*old(self) }),
    {
        self.cr1.fpdr = powerdown;
    }

    /// Enables wakeup from pin `src`.
    pub fn enable_wakeup_src(&mut self, src: WakeupSource)
        ensures
            *final(self) == (Pwr { cr3: with_ewup(old(self).cr3, src, true), ..*old(self) }),
    {
        self.cr3 = set_ewup(self.cr3, src, true);
    }

    /// Disables wakeup from pin `src`.
    pub fn disable_wakeup_src(&mut self, src: WakeupSource)
        ensures
            *final(self) == (Pwr { cr3: with_ewup(old(self).cr3, src, false), ..*old(self) }),
    {
        self.cr3 = set_ewup(self.cr3, src, false);
    }

    /// Sets the active level of wakeup pin `pin`.
    pub fn wakeup_polarity(&mut self, pin: WakeupSource, polarity: Polarity)
        ensures
            *final(self) == (Pwr {
                cr4: match pin {
                    WakeupSource::Wkup1 => PwrCr4 { wp1: polarity == Polarity::Low, ..old(self).cr4 },
                    WakeupSource::Wkup2 => PwrCr4 { wp2: polarity == Polarity::Low, ..old(self).cr4 },
                    WakeupSource::Wkup3 => PwrCr4 { wp3: polarity == Polarity::Low, ..old(self).cr4 },
                    WakeupSource::Wkup4 => PwrCr4 { wp4: polarity == Polarity::Low, ..old(self).cr4 },
                    WakeupSource::Wkup5 => PwrCr4 { wp5: polarity == Polarity::Low, ..old(self).cr4 },
                },
                ..*old(self)
            }),
    {
        let low = polarity == Polarity::Low;
        match pin {
            WakeupSource::Wkup1 => self.cr4.wp1 = low,
            WakeupSource::Wkup2 => self.cr4.wp2 = low,
            WakeupSource::Wkup3 => self.cr4.wp3 = low,
            WakeupSource::Wkup4 => self.cr4.wp4 = low,
            WakeupSource::Wkup5 => self.cr4.wp5 = low,
        }
    }

    /// Clears the wakeup flag of pin `src`.
    pub fn clear_wakeup_flag(&mut self, src: WakeupSource)
        ensures
            *final(self) == (Pwr { scr: Some(PwrClear::Wakeup(src)), ..*old(self) }),
    {
        self.scr = Some(PwrClear::Wakeup(src));
    }

    /// Enables one power interrupt.
    pub fn listen(&mut self, event: Event)
        ensures
            *final(self) == (Pwr { cr3: with_event(old(self).cr3, event, true), ..*old(self) }),
    {
        self.cr3 = set_event(self.cr3, event, true);
    }

    /// Disables one power interrupt.
    pub fn unlisten(&mut self, event: Event)
        ensures
            *final(self) == (Pwr { cr3: with_event(old(self).cr3, event, false), ..*old(self) }),
    {
        self.cr3 = set_event(self.cr3, event, false);
    }

    /// Clears the flag of one power interrupt.
    pub fn clear_event_flag(&mut self, event: Event)
        ensures
            *final(self) == (Pwr { scr: Some(PwrClear::Event(event)), ..*old(self) }),
    {
        self.scr = Some(PwrClear::Event(event));
    }

    /// Battery charging: off, or on through 1.5 kOhm or 5 kOhm.
    pub fn charge_bat(&mut self, bat: BatteryCharging)
        ensures
            *final(self) == (Pwr {
                cr4: match bat {
                    BatteryCharging::Disabled => PwrCr4 { vbe: false, ..old(self).cr4 },
                    BatteryCharging::R1_5 => PwrCr4 { vbe: true, vbrs: true, ..old(self).cr4 },
                    BatteryCharging::R5 => PwrCr4 { vbe: true, vbrs: false, ..old(self).cr4 },
                },
                ..*old(self)
            }),
    {
        match bat {
            BatteryCharging::Disabled => {
                self.cr4.vbe = false;
            },
            BatteryCharging::R1_5 => {
                self.cr4.vbe = true;
                self.cr4.vbrs = true;
            },
            BatteryCharging::R5 => {
                self.cr4.vbe = true;
                self.cr4.vbrs = false;
            },
        }
    }

    /// The factory SMPS voltage step.
    pub fn smpsvos_factory(word: &SmpsVos) -> (r: u8)
        ensures
            r == (word.word >> 8u32) & 0xFu32,
    {
        word.factory()
    }
}

/// `cr3` with the enable of wakeup pin `src` set to `v`.
pub open spec fn with_ewup(cr3: PwrCr3, src: WakeupSource, v: bool) -> PwrCr3 {
    match src {
        WakeupSource::Wkup1 => PwrCr3 { ewup1: v, ..cr3 },
        WakeupSource::Wkup2 => PwrCr3 { ewup2: v, ..cr3 },
        WakeupSource::Wkup3 => PwrCr3 { ewup3: v, ..cr3 },
        WakeupSource::Wkup4 => PwrCr3 { ewup4: v, ..cr3 },
        WakeupSource::Wkup5 => PwrCr3 { ewup5: v, ..cr3 },
    }
}

fn set_ewup(cr3: PwrCr3, src: WakeupSource, v: bool) -> (r: PwrCr3)
    ensures
        r == with_ewup(cr3, src, v),
{
    let mut c = cr3;
    match src {
        WakeupSource::Wkup1 => c.ewup1 = v,
        WakeupSource::Wkup2 => c.ewup2 = v,
        WakeupSource::Wkup3 => c.ewup3 = v,
        WakeupSource::Wkup4 => c.ewup4 = v,
        WakeupSource::Wkup5 => c.ewup5 = v,
    }
    c
}

/// `cr3` with the enable of interrupt `event` set to `v`.
pub open spec fn with_event(cr3: PwrCr3, event: Event, v: bool) -> PwrCr3 {
    match event {
        Event::BorhSmpsStepDownInBypass => PwrCr3 { eborhsdfb: v, ..cr3 },
        Event::CriticalRadioPhaseEOA => PwrCr3 { ecrpe: v, ..cr3 },
        Event::BleEOA => PwrCr3 { eblea: v, ..cr3 },
        Event::_802EOA => PwrCr3 { e802a: v, ..cr3 },
        Event::Cpu2Hold => PwrCr3 { ec2h: v, ..cr3 },
    }
}

fn set_event(cr3: PwrCr3, event: Event, v: bool) -> (r: PwrCr3)
    ensures
        r == with_event(cr3, event, v),
{
    let mut c = cr3;
    match event {
        Event::BorhSmpsStepDownInBypass => c.eborhsdfb = v,
        Event::CriticalRadioPhaseEOA => c.ecrpe = v,
        Event::BleEOA => c.eblea = v,
        Event::_802EOA => c.e802a = v,
        Event::Cpu2Hold => c.ec2h = v,
    }
    c
}

} // verus!
