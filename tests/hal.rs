use stm32wb_hal::i2c::{NextOp, Start, Stop};
use stm32wb_hal::cpu::Cpu;
use stm32wb_hal::flash::{flash_end, FlashUid, HalfPage, Latency, Page, SramPage};
use stm32wb_hal::gpio::{Input, Pin, PinRegs, PinState, Pull, Speed};
use stm32wb_hal::macros::R;
use stm32wb_hal::pwr::pxcr::{Mode, Pin as PxPin, PxcrR, PxcrW};
use stm32wb_hal::pwr::{SmpsVos, Vos};
use stm32wb_hal::rcc::{
    hse_output_hertz, lse_hertz, msi_max_hertz, pll_max_hertz, McoPrescaler, MsiRange, PllQR,
    Pllm, Plln, Pllp, Pllsai1N, PpreScaler, PreScaler,
};
use stm32wb_hal::signature::{FlashSize, Uid};
use stm32wb_hal::time::Hertz;

#[test]
fn pll_factors_are_range_checked() {
    assert!(Plln::new(5).is_err());
    assert_eq!(Plln::new(6).unwrap().get(), 6);
    assert_eq!(Plln::new(127).unwrap().get(), 127);
    assert!(Plln::new(128).is_err());
    assert!(Pllp::new(1).is_err());
    assert_eq!(Pllp::new(32).unwrap().get(), 32);
    assert!(Pllp::new(33).is_err());
    assert!(Pllsai1N::new(3).is_err());
    assert_eq!(Pllsai1N::new(86).unwrap().get(), 86);
    assert!(Pllsai1N::new(87).is_err());
}

#[test]
fn division_factors() {
    assert_eq!(PreScaler::D512.div_scale(), 512);
    assert_eq!(PreScaler::D3.div_scale(), 3);
    assert_eq!(PpreScaler::D16.div_scale(), 16);
    assert_eq!(McoPrescaler::D8.div_scale(), 8);
    assert_eq!(Pllm::D7.div_factor(), 7);
    assert_eq!(PllQR::D2.div_factor(), 2);
    assert_eq!(PreScaler::D6.bits(), 0b0101);
    assert_eq!(PreScaler::from_bits(0b0101), Some(PreScaler::D6));
    assert_eq!(PreScaler::from_bits(0b0011), None);
}

#[test]
fn clock_frequencies() {
    assert_eq!(MsiRange::R24M.hertz(), Hertz::from_raw(24_000_000));
    assert_eq!(MsiRange::R100K.hertz().raw(), 100_000);
    assert_eq!(msi_max_hertz(Vos::Range2).raw(), 16_000_000);
    assert_eq!(pll_max_hertz(Vos::Range1).raw(), 64_000_000);
    assert_eq!(hse_output_hertz(true).raw(), 16_000_000);
    assert_eq!(hse_output_hertz(false).raw(), 32_000_000);
    assert_eq!(lse_hertz().raw(), 32_768);
    assert_eq!(stm32wb_hal::rcc::lsi1_hertz().raw(), 32_000);
    assert_eq!(stm32wb_hal::rcc::lsi2_hertz().raw(), 32_000);
}

#[test]
fn flash_latency_follows_voltage_range() {
    assert_eq!(Latency::from(Vos::Range1, Hertz::from_raw(18_000_000)), Latency::W0);
    assert_eq!(Latency::from(Vos::Range1, Hertz::from_raw(18_000_001)), Latency::W1);
    assert_eq!(Latency::from(Vos::Range1, Hertz::from_raw(64_000_000)), Latency::W3);
    assert_eq!(Latency::from(Vos::Range2, Hertz::from_raw(6_000_000)), Latency::W0);
    assert_eq!(Latency::from(Vos::Range2, Hertz::from_raw(12_000_000)), Latency::W1);
    assert_eq!(Latency::from(Vos::Range2, Hertz::from_raw(16_000_000)), Latency::W2);
}

#[test]
fn flash_ids_and_sizes() {
    let uid = FlashUid { reg_1: 0x1234_5678, reg_2: 0xAABB_CCDD };
    assert_eq!(uid.uid(), 0x1234_5678);
    assert_eq!(uid.dev_id(), 0xDD);
    assert_eq!(uid.manufacturer(), 0x00AA_BBCC);
    assert_eq!(uid.uid64(), 0x1234_5678_AABB_CCDD);
    let size = FlashSize::new(1024);
    assert_eq!(size.kilo_bytes(), 1024);
    assert_eq!(size.bytes(), 1024 * 1024);
    assert_eq!(flash_end(&size), 0x080F_FFFF);
    assert_eq!(HalfPage::new(511).get(), 511);
    assert_eq!(Page::new(7).get(), 7);
    assert_eq!(SramPage::new(31).get(), 31);
}

#[test]
fn device_uid_fields() {
    let uid = Uid { x: 3, y: 4, waf_lot: [9, b'L', b'O', b'T', b'1', b'2', b'3', b'4'] };
    assert_eq!(uid.x(), 3);
    assert_eq!(uid.y(), 4);
    assert_eq!(uid.waf_num(), 9);
    assert_eq!(uid.lot_num(), b"LOT1234".to_vec());
}

#[test]
fn smps_factory_trim() {
    assert_eq!(SmpsVos { word: 0x0000_0A00 }.factory(), 0xA);
    assert_eq!(SmpsVos { word: 0xFFFF_F0FF }.factory(), 0x0);
}

#[test]
fn standby_pulls() {
    let r = PxcrR { pd: 0b0100, pu: 0b0110 };
    assert_eq!(r.mode(PxPin::P2), Mode::PullDown);
    assert_eq!(r.mode(PxPin::P1), Mode::PullUp);
    assert_eq!(r.mode(PxPin::P0), Mode::NoPull);
    let mut w = PxcrW { pd: 0b0100, pu: 0b0110 };
    w.mode(PxPin::P2, Mode::PullUp);
    assert_eq!((w.pd, w.pu), (0b0000, 0b0110));
    w.mode(PxPin::P1, Mode::NoPull);
    assert_eq!((w.pd, w.pu), (0b0000, 0b0100));
    w.mode(PxPin::P15, Mode::PullDown);
    assert_eq!(w.pd, 0x8000);
}

#[test]
fn cpu_from_cpuid() {
    assert_eq!(Cpu::from_cpuid(0x410F_C241), Cpu::C1);
    assert_eq!(Cpu::from_cpuid(0x410C_C601), Cpu::C2);
}

#[test]
fn register_field_reads() {
    assert!(R::<bool>::r(1));
    assert!(!R::<bool>::r(0));
    assert_eq!(R::<u8>::r(0x1FF), 0xFF);
    assert_eq!(R::<u16>::r(0x1_0002), 2);
    assert_eq!(R::<u32>::r(77), 77);
}

#[test]
fn pin_mode_changes() {
    let regs = PinRegs {
        port: 0,
        n: 5,
        moder: 0b11,
        open_drain: false,
        afr: 0,
        odr: true,
        idr: false,
        speed: Speed::Low,
        pull: Pull::Floating,
    };
    let pin: Pin<Input> = Pin::new(regs);
    let mut out = pin.into_push_pull_output();
    assert_eq!(out.regs.moder, 0b01);
    assert!(out.is_set_low());
    out.toggle();
    assert!(out.is_set_high());
    let od = out.into_open_drain_output_in_state(PinState::Low);
    assert!(od.regs.open_drain);
    assert!(!od.regs.odr);
    let af = od.into_alternate::<7>();
    assert_eq!((af.regs.moder, af.regs.afr, af.regs.open_drain), (0b10, 7, false));
    let input = af.into_pull_up_input().speed(Speed::High);
    assert_eq!(input.regs.pull, Pull::Up);
    assert_eq!(input.regs.speed, Speed::High);
    assert!(input.is_low());
}

use stm32wb_hal::flash::{
    BorResetLevel, Flash, FlashAcr, FlashCr, FlashOptions, FlashSr, FlashUid2, RdpLevel,
};
use stm32wb_hal::pwr::{
    Lpms, Pls, PwrCr1, PwrCr2, PwrCr3, PwrCr4, PwrCr5, Pwr, WakeupSource,
};
use stm32wb_hal::rcc::{
    set_flash_latency, AdcSel, Clk48Sel, Error as RccError, I2cSel, LptimSel, McoSelector, PllSrc,
    Rcc, RccBdcr, RccCcipr, RccCfgr, RccCier, RccCr, RccExtcfgr, RccPllcfgr, RccPllsai1cfgr,
    RngSel, Sai1Sel, SysclkSwitch, Usart1sel,
};

fn reset_rcc() -> Rcc {
    Rcc {
        cr: RccCr {
            msion: true,
            msirdy: true,
            msipllen: false,
            msirange: MsiRange::R4M,
            hsion: false,
            hsikeron: false,
            hsiasfs: false,
            hsirdy: false,
            hsikerdy: false,
            hseon: false,
            hserdy: false,
            csson: false,
            hsepre: false,
            pllon: false,
            pllrdy: false,
            pllsai1on: false,
            pllsai1rdy: false,
        },
        cfgr: RccCfgr {
            sw: SysclkSwitch::Msi,
            sws: SysclkSwitch::Msi,
            hpre: PreScaler::D1,
            hpref: true,
            ppre1: PpreScaler::D1,
            ppre2: PpreScaler::D1,
            stopwuck: false,
            mcosel: McoSelector::Disabled,
            mcopre: McoPrescaler::D1,
        },
        extcfgr: RccExtcfgr {
            shdhpre: PreScaler::D1,
            c2hpre: PreScaler::D1,
            shdhpref: true,
            c2hpref: true,
            rfcss: false,
        },
        pllcfgr: RccPllcfgr {
            pllsrc: PllSrc::NoClock,
            pllm: Pllm::D1,
            plln: Plln::new(8).unwrap(),
            pllp: Pllp::new(2).unwrap(),
            pllpen: false,
            pllq: PllQR::D2,
            pllqen: false,
            pllr: PllQR::D2,
            pllren: false,
        },
        pllsai1cfgr: RccPllsai1cfgr {
            plln: Pllsai1N::new(8).unwrap(),
            pllp: Pllp::new(2).unwrap(),
            pllpen: false,
            pllq: PllQR::D2,
            pllqen: false,
            pllr: PllQR::D2,
            pllren: false,
        },
        ccipr: RccCcipr {
            usart1sel: Usart1sel::Pclk,
            lpuart1sel: Usart1sel::Pclk,
            i2c1sel: I2cSel::Pclk,
            i2c3sel: I2cSel::Pclk,
            lptim1sel: LptimSel::Pclk,
            lptim2sel: LptimSel::Pclk,
            sai1sel: Sai1Sel::PllsaiP,
            clk48sel: Clk48Sel::Hsi48,
            adcsel: AdcSel::NoClock,
            rngsel: RngSel::Clk48,
        },
        bdcr: RccBdcr { lseon: false, lserdy: false },
        cier: RccCier {
            lsi1rdyie: false,
            lserdyie: false,
            msirdyie: false,
            hsirdyie: false,
            hserdyie: false,
            pllrdyie: false,
            pllsai1rdyie: false,
            lsecssie: false,
            hsi48rdyie: false,
            lsi2rdyie: false,
        },
        cicr: None,
    }
}

fn reset_pwr(vos: Vos) -> Pwr {
    Pwr {
        cr1: PwrCr1 {
            lpms: Lpms::Stop0,
            fpdr: false,
            fpds: false,
            dbp: false,
            vos,
            lpr: false,
            bleewkup: false,
            i802ewkup: false,
        },
        cr2: PwrCr2 { pls: Pls::PVD0, pvde: false, pvme1: false, pvme3: false, usv: false },
        cr3: PwrCr3 {
            ewup1: false,
            ewup2: false,
            ewup3: false,
            ewup4: false,
            ewup5: false,
            rrs: true,
            apc: false,
            eborhsdfb: false,
            ecrpe: false,
            eblea: false,
            e802a: false,
            ec2h: false,
            eiwul: true,
        },
        cr4: PwrCr4 {
            wp1: false,
            wp2: false,
            wp3: false,
            wp4: false,
            wp5: false,
            vbe: false,
            vbrs: false,
            c2boot: false,
        },
        cr5: PwrCr5 { sdvos: 0, sdsc: 0, borhc: false, sdeb: false },
        scr: None,
        sr1: 0,
        sr2: 0,
    }
}

#[test]
fn msi_in_use_cannot_be_turned_off() {
    let mut rcc = reset_rcc();
    assert_eq!(rcc.msi_enable(false), Err(RccError::ClockInUse));
    assert_eq!(rcc.hsi_enable(false), Ok(()));
    assert!(!rcc.cr.hsion);
    assert_eq!(rcc.msi_pll_mode(true), Err(RccError::LseDisabled));
}

#[test]
fn sysclk_switch_checks_readiness_and_range() {
    let mut rcc = reset_rcc();
    let pwr = reset_pwr(Vos::Range1);
    let mut flash = make_flash();
    assert_eq!(
        rcc.sysclk(&pwr, &mut flash, SysclkSwitch::Hsi16),
        Err(RccError::SelectedClockNotEnabled)
    );
    rcc.hsi_enable(true).unwrap();
    rcc.cr.hsirdy = true;
    assert_eq!(rcc.sysclk(&pwr, &mut flash, SysclkSwitch::Hsi16), Ok(()));
    assert_eq!(rcc.cfgr.sw, SysclkSwitch::Hsi16);
    // 16 MHz HCLK4 in range 1 needs no wait state.
    assert_eq!(flash.latency(), Latency::W0);
    rcc.cfgr.sws = SysclkSwitch::Hsi16;
    assert_eq!(rcc.try_sysclk(), Some(Hertz::from_raw(16_000_000)));
    rcc.pclk1_prescaler(PpreScaler::D4);
    assert_eq!(rcc.try_pclk1(), Some(Hertz::from_raw(4_000_000)));
    rcc.i2c1_clock(I2cSel::Hsi16);
    assert_eq!(rcc.try_i2c1_clk(), Some(Hertz::from_raw(16_000_000)));
}

#[test]
fn range_two_limits_the_system_clock() {
    let mut rcc = reset_rcc();
    let pwr = reset_pwr(Vos::Range2);
    let mut flash = make_flash();
    assert_eq!(
        rcc.msi_range(&pwr, &mut flash, MsiRange::R32M),
        Err(RccError::SysclkTooHighVosRange2)
    );
    assert_eq!(rcc.cr.msirange, MsiRange::R4M);
    assert_eq!(flash.latency(), Latency::W0);
    assert_eq!(rcc.hclk1_prescaler(&pwr, PreScaler::D2), Ok(()));
    assert_eq!(rcc.msi_range(&pwr, &mut flash, MsiRange::R16M), Ok(()));
    assert_eq!(rcc.cr.msirange, MsiRange::R16M);
    // 16 MHz HCLK4 in range 2 needs two wait states.
    assert_eq!(flash.latency(), Latency::W2);
}

#[test]
fn hclk4_prescaler_moves_flash_latency() {
    let mut rcc = reset_rcc();
    let pwr = reset_pwr(Vos::Range1);
    let mut flash = make_flash();
    assert_eq!(rcc.msi_range(&pwr, &mut flash, MsiRange::R48M), Ok(()));
    assert_eq!(flash.latency(), Latency::W2);
    assert_eq!(rcc.hclk4_prescaler(&pwr, &mut flash, PreScaler::D4), Ok(()));
    assert_eq!(rcc.extcfgr.shdhpre, PreScaler::D4);
    assert_eq!(flash.latency(), Latency::W0);
    rcc.extcfgr.shdhpref = false;
    assert_eq!(
        rcc.hclk4_prescaler(&pwr, &mut flash, PreScaler::D1),
        Err(RccError::PrescalerNotApplied)
    );
    assert_eq!(flash.latency(), Latency::W0);
}

#[test]
fn pll_is_checked_before_it_starts() {
    let mut rcc = reset_rcc();
    let pwr = reset_pwr(Vos::Range1);
    // No input selected.
    assert_eq!(rcc.pll_enabled(&pwr, true), Err(RccError::SelectedClockNotEnabled));
    rcc.hsi_enable(true).unwrap();
    rcc.cr.hsirdy = true;
    assert_eq!(rcc.pll_src(PllSrc::Hsi16), Ok(()));
    // HSI16 / 2 = 8 MHz in, x 8 = 64 MHz VCO: below 96 MHz.
    assert_eq!(rcc.pllm(Pllm::D2), Ok(()));
    assert_eq!(rcc.pll_enabled(&pwr, true), Err(RccError::PllClkIllegalRange));
    // x 32 = 256 MHz VCO, outputs 128 / 128 / 64 MHz: P too fast.
    assert_eq!(rcc.plln(Plln::new(32).unwrap()), Ok(()));
    assert_eq!(rcc.pll_enabled(&pwr, true), Err(RccError::PllClkIllegalRange));
    // P / 4 = 64 MHz, Q and R / 4 = 64 MHz.
    assert_eq!(rcc.pllp(Pllp::new(4).unwrap()), Ok(()));
    assert_eq!(rcc.pllq(PllQR::D4), Ok(()));
    assert_eq!(rcc.pllr(PllQR::D4), Ok(()));
    assert_eq!(rcc.pll_enabled(&pwr, true), Ok(()));
    assert!(rcc.cr.pllon);
    // Settings are locked while the PLL runs.
    assert_eq!(rcc.plln(Plln::new(16).unwrap()), Err(RccError::PllEnabled));
    assert_eq!(rcc.pll_src(PllSrc::Msi), Err(RccError::PllEnabled));
}

#[test]
fn power_modes() {
    let mut pwr = reset_pwr(Vos::Range1);
    pwr.enable_wakeup_src(WakeupSource::Wkup3);
    assert!(pwr.cr3.ewup3);
    pwr.disable_wakeup_src(WakeupSource::Wkup3);
    assert!(!pwr.cr3.ewup3);
    pwr.smps_vos(15);
    assert_eq!(pwr.cr5.sdvos, 15);
    pwr.cr1.lpr = true;
    assert_eq!(pwr.set_low_power_mode(Lpms::Stop2), Err(stm32wb_hal::pwr::Error::LPRunToStop2Illegal));
    assert_eq!(pwr.set_low_power_mode(Lpms::Stop1), Ok(()));
    assert_eq!(pwr.lp_mode(), Lpms::Stop1);
}

#[test]
fn flash_latency_is_set_from_hclk4() {
    let mut flash = make_flash();
    set_flash_latency(&mut flash, &reset_pwr(Vos::Range1), Hertz::from_raw(48_000_000));
    assert_eq!(flash.latency(), Latency::W2);
    assert!(flash.instruction_cache_reset().is_err());
    assert_eq!(flash.page(4096 * 3 + 5), Some(3));
    assert_eq!(flash.page(1024 * 1024), None);
    assert_eq!(flash.uid(), 0x1_0000_0002);
    let unlocked = flash.unlocked();
    assert!(!unlocked.flash.cr.lock);
    let mut options = unlocked.options_unlocked();
    options.reset_on_stop(true);
    options.agc_trim(5);
    let unlocked = options.lock_options();
    assert!(!unlocked.flash.options.n_rst_stop);
    assert_eq!(unlocked.flash.options.agc_trim, 5);
    let mut unlocked = unlocked;
    assert!(unlocked.page_erase(3).is_ok());
    assert_eq!((unlocked.flash.cr.pnb, unlocked.flash.cr.per, unlocked.flash.cr.strt), (3, true, true));
    let words = unlocked.program(8, &[1, 2, 3, 4, 5, 6, 7, 8]);
    assert_eq!(words, vec![0x0403_0201, 0x0807_0605]);
    assert!(unlocked.flash.cr.pg);
    assert!(unlocked.end_of_write().is_err());
    unlocked.flash.sr.eop = true;
    assert!(unlocked.end_of_write().is_ok());
    assert!(!unlocked.flash.sr.eop);
    unlocked.end_programming();
    assert!(!unlocked.flash.cr.pg);
    unlocked.flash.sr.pesd = true;
    assert!(unlocked.page_erase(4).is_err());
    let flash = unlocked.relock();
    assert!(flash.cr.lock && flash.cr.optlock);
}

#[test]
fn next_operation_of_a_transaction() {
    assert_eq!(NextOp::Start.start(), Start::Start);
    assert_eq!(NextOp::Reload.start(), Start::Reload);
    assert_eq!(NextOp::Restart.stop(), Stop::Software);
    assert_eq!(NextOp::Stop.stop(), Stop::Automatic);
}

#[test]
fn standby_pull_of_a_pin() {
    let regs = PinRegs {
        port: 1,
        n: 3,
        moder: 0,
        open_drain: false,
        afr: 0,
        odr: false,
        idr: false,
        speed: Speed::Low,
        pull: Pull::Floating,
    };
    let pin: Pin<Input> = Pin::new(regs);
    let mut w = PxcrW { pd: 0b1000, pu: 0 };
    pin.set_internal_resistor_lp(&mut w, Pull::Up);
    assert_eq!((w.pu, w.pd), (0b1000, 0));
    pin.set_internal_resistor_lp(&mut w, Pull::Floating);
    assert_eq!((w.pu, w.pd), (0, 0));
}

fn make_flash() -> Flash {
    Flash::new(
        FlashAcr {
            latency: Latency::W0,
            prften: false,
            icen: true,
            icrst: false,
            dcen: false,
            dcrst: false,
            pes: false,
            empty: false,
        },
        FlashCr {
            lock: true,
            optlock: true,
            obl_launch: false,
            pnb: 0,
            mer: false,
            per: false,
            pg: false,
            fstpg: false,
            strt: false,
        },
        FlashSr {
            bsy: false,
            eop: false,
            pesd: false,
            sizerr: false,
            miserr: false,
            fasterr: false,
            wrperr: false,
            pgaerr: false,
            pgserr: false,
            progerr: false,
        },
        FlashOptions {
            rdp: RdpLevel::L0,
            ese: false,
            bor_lev: BorResetLevel::L0,
            n_rst_stop: true,
            n_rst_stdby: true,
            n_rst_shdw: true,
            idwg_sw: true,
            iwdg_stop: true,
            iwdg_stdby: true,
            wwdg_sw: true,
            n_boot1: true,
            sram2_pe: true,
            sram2_rst: true,
            n_swboot0: true,
            n_boot0: true,
            agc_trim: 0,
            pcrop_rdp: false,
            pcrop1a_strt: 0,
            pcrop1a_end: 0,
            pcrop1b_strt: 0,
            pcrop1b_end: 0,
            wrp1a_strt: 0,
            wrp1a_end: 0,
            wrp1b_strt: 0,
            wrp1b_end: 0,
            ipccdba: 0,
            fsd: false,
            dds: false,
            sfsa: 0,
            c2opt: false,
            sbrv: 0,
            sbrsa: 0,
            brsd: false,
            snbrsa: 0,
            nbrsd: false,
        },
        FlashSize::new(1024),
        FlashUid2 { reg_1: 1, reg_2: 2 },
    )
}
