use stm32wb_hal::i2c::I2c;
use stm32wb_hal::time::Hertz;

/// Runs a timing testcase over PCLK and I2C clock ranges
fn i2c_timing_testcase<F>(f: F)
where
    F: Fn(u32, u32),
{
    let i2c_timing_tests = [
        // (i2c_clk, range of bus frequencies to test)
        (2_000_000, (1_000..=100_000)),
        (9_000_000, (2_000..=400_000)),
        (16_000_000, (2_000..=400_000)),
        (19_000_000, (4_000..=1_000_000)),
        (24_000_000, (4_000..=1_000_000)),
        (32_000_000, (4_000..=1_000_000)),
        (48_000_000, (6_000..=1_000_000)),
        (64_000_000, (8_000..=1_000_000)),
    ];

    for (clock, freq_range) in i2c_timing_tests.iter() {
        for freq in freq_range.clone().step_by(1_000) {
            f(*clock, freq)
        }
    }
}

fn timings(i2c_clk: u32, freq: u32) -> [u8; 5] {
    let (clk, f) = (Hertz::from_raw(i2c_clk), Hertz::from_raw(freq));
    assert!(I2c::<(), ()>::timings_defined(clk, f));
    I2c::<(), ()>::timings(clk, f)
}

#[test]
/// Test the SCL frequency is within the expected range
fn i2c_frequency() {
    i2c_timing_testcase(|i2c_clk: u32, freq: u32| {
        let [presc_reg, scll, sclh, _, _] = timings(i2c_clk, freq);

        // Timing parameters
        let presc = (presc_reg + 1) as f32;
        let t_i2c_clk = 1. / (i2c_clk as f32);
        let freq = freq as f32;

        // Estimate minimum sync times. Analog filter on, 2 i2c_clk cycles
        let t_af_min = 50e-9_f32; // Analog filter 50ns. From WB55 Datasheet
        let t_sync1 = t_af_min + 2. * t_i2c_clk;
        let t_sync2 = t_af_min + 2. * t_i2c_clk;

        // See RM0434 Rev 9 Section 32.4.9
        let t_high_low = sclh as f32 + 1. + scll as f32 + 1.;
        let t_scl = t_sync1 + t_sync2 + (t_high_low * presc * t_i2c_clk);
        let f_scl = 1. / t_scl;

        let error = (freq - f_scl) / freq;
        println!(
            "Clock = {}: Set SCL = {} Actual = {} Error {:.1}%",
            i2c_clk,
            freq,
            f_scl,
            100. * error
        );

        // We must generate a bus frequency less than or equal to that
        // specified. Tolerate a 2% error
        assert!(f_scl <= 1.02 * freq);

        // But it should not be too much less than specified
        assert!(f_scl > 0.9 * freq);
    });
}

#[test]
/// Test that the low period of SCL is greater than the minimum specification
fn i2c_scl_low() {
    i2c_timing_testcase(|i2c_clk: u32, freq: u32| {
        let [presc_reg, scll, _, _, _] = timings(i2c_clk, freq);

        // Timing parameters
        let presc = (presc_reg + 1) as f32;
        let t_i2c_clk = 1. / (i2c_clk as f32);
        let freq = freq as f32;
        let t_scll = (scll as f32 + 1.) * presc * t_i2c_clk;

        // From RM0434 Rev 9 Table 192
        let t_scll_minimum = match freq {
            x if x <= 100_000. => 4.7e-6, // Standard mode (Sm)
            x if x <= 400_000. => 1.3e-6, // Fast mode (Fm)
            _ => 0.5e-6,                  // Fast mode Plus (Fm+)
        };

        println!("Clock = {}: Target {} Hz; SCLL {}", i2c_clk, freq, scll);
        println!("T SCL LOW {:.2e}; MINIMUM {:.2e}", t_scll, t_scll_minimum);
        assert!(t_scll >= t_scll_minimum);
    });
}

#[test]
/// Test that the high period of SCL is greater than the minimum specification
fn i2c_scl_high() {
    i2c_timing_testcase(|i2c_clk: u32, freq: u32| {
        let [presc_reg, _, sclh, _, _] = timings(i2c_clk, freq);

        // Timing parameters
        let presc = (presc_reg + 1) as f32;
        let t_i2c_clk = 1. / (i2c_clk as f32);
        let freq = freq as f32;
        let t_sclh = (sclh as f32 + 1.) * presc * t_i2c_clk;

        // From RM0434 Rev 9 Table 192
        let t_sclh_minimum = match freq {
            x if x <= 100_000. => 4e-6,   // Standard mode (Sm)
            x if x <= 400_000. => 0.6e-6, // Fast mode (Fm)
            _ => 0.26e-6,                 // Fast mode Plus (Fm+)
        };

        println!("Clock = {}: Target {} Hz; SCLH {}", i2c_clk, freq, sclh);
        println!("T SCL HIGH {:.2e}; MINIMUM {:.2e}", t_sclh, t_sclh_minimum);
        assert!(t_sclh >= t_sclh_minimum);
    });
}

#[test]
/// Test the SDADEL value is greater than the minimum specification
fn i2c_sdadel_minimum() {
    i2c_timing_testcase(|i2c_clk: u32, freq: u32| {
        let [presc_reg, _, _, sdadel, _] = timings(i2c_clk, freq);
        // Timing parameters
        let presc = (presc_reg + 1) as f32;
        let t_i2c_clk = 1. / (i2c_clk as f32);
        let freq = freq as f32;
        let t_sdadel = (sdadel as f32) * presc * t_i2c_clk;

        // From RM0434 Rev 9 Table 192
        let t_fall_max = match freq {
            x if x <= 100_000. => 300e-9, // Standard mode (Sm)
            x if x <= 400_000. => 300e-9, // Fast mode (Fm)
            _ => 120e-9,                  // Fast mode Plus (Fm+)
        };

        let t_af_min = 50e-9_f32; // Analog filter min 50ns. From WB55 Datasheet
        let hddat_min = 0.;

        // From RM0434 Rev 9 Section 32.4.5
        //
        // tSDADEL >= {tf + tHD;DAT(min) - tAF(min) - [(DNF + 3) x tI2CCLK]}
        let t_sdadel_minimim = t_fall_max + hddat_min - t_af_min - (3. * t_i2c_clk);

        println!("Target {} Hz; SDADEL {}", freq, sdadel);
        println!(
            "T SDA DELAY {:.2e} MINIMUM {:.2e}",
            t_sdadel, t_sdadel_minimim
        );
        assert!(sdadel <= 15);
        assert!(t_sdadel >= t_sdadel_minimim);
    });
}

#[test]
/// Test the SDADEL value is less than the maximum specification
fn i2c_sdadel_maximum() {
    i2c_timing_testcase(|i2c_clk: u32, freq: u32| {
        let [presc_reg, _, _, sdadel, _] = timings(i2c_clk, freq);
        // Timing parameters
        let presc = (presc_reg + 1) as f32;
        let t_i2c_clk = 1. / (i2c_clk as f32);
        let freq = freq as f32;
        let t_sdadel = (sdadel as f32) * presc * t_i2c_clk;

        let t_hddat_max = match freq {
            x if x <= 100_000. => 3.45e-6, // Standard mode (Sm)
            x if x <= 400_000. => 0.9e-6,  // Fast mode (Fm)
            _ => 0.45e-6,                  // Fast mode Plus (Fm+)
        };
        let t_af_max = 110e-9_f32; // Analog filter max 110ns. From WB55 Datasheet

        // From RM0434 Rev 9 Section 32.4.5
        //
        // tSDADEL <= {tHD;DAT(max) - tAF(max) - [(DNF + 4) x tI2CCLK]}
        let t_sdadel_maximum = t_hddat_max - t_af_max - (4. * t_i2c_clk);

        println!("Target {} Hz; SDADEL {}", freq, sdadel);
        println!(
            "T SDA DELAY {:.2e} MAXIMUM {:.2e}",
            t_sdadel, t_sdadel_maximum
        );
        assert!(sdadel <= 15);
        assert!(t_sdadel <= t_sdadel_maximum);
    });
}

#[test]
/// Test the SCLDEL value is greater than the minimum specification
fn i2c_scldel_minimum() {
    i2c_timing_testcase(|i2c_clk: u32, freq: u32| {
        let [presc_reg, _, _, _, scldel_reg] = timings(i2c_clk, freq);
        let scldel = scldel_reg + 1;
        // Timing parameters
        let presc = (presc_reg + 1) as f32;
        let t_i2c_clk = 1. / (i2c_clk as f32);
        let freq = freq as f32;
        let t_scldel = (scldel as f32) * presc * t_i2c_clk;

        // From RM0434 Rev 9 Table 192
        let t_rise_max = match freq {
            x if x <= 100_000. => 1000e-9, // Standard mode (Sm)
            x if x <= 400_000. => 300e-9,  // Fast mode (Fm)
            _ => 120e-9,                   // Fast mode Plus (Fm+)
        };
        let t_sudat_min = match freq {
            x if x <= 100_000. => 250e-9, // Standard mode (Sm)
            x if x <= 400_000. => 100e-9, // Fast mode (Fm)
            _ => 50e-9,                   // Fast mode Plus (Fm+)
        };

        // From RM0434 Rev 9 Section 32.4.5
        //
        // tSCLDEL >= tr + tSU;DAT(min)
        let t_scldel_minimum = t_rise_max + t_sudat_min;

        println!("Target {} Hz; SCLDEL {}", freq, scldel);
        println!(
            "T SCL DELAY {:.2e} MINIMUM {:.2e}",
            t_scldel, t_scldel_minimum
        );
        assert!(scldel <= 16);
        assert!(t_scldel >= t_scldel_minimum);
    });
}

#[test]
fn timings_refuse_clock_below_mode_minimum() {
    // Fast mode plus needs at least 19 MHz.
    assert!(!I2c::<(), ()>::timings_defined(Hertz::from_raw(16_000_000), Hertz::from_raw(1_000_000)));
}

#[test]
fn timings_refuse_zero_frequency() {
    assert!(!I2c::<(), ()>::timings_defined(Hertz::from_raw(16_000_000), Hertz::from_raw(0)));
}

#[test]
fn timings_refuse_ratio_above_8192() {
    assert!(!I2c::<(), ()>::timings_defined(Hertz::from_raw(64_000_000), Hertz::from_raw(1_000)));
}

#[test]
fn timings_standard_mode_exact_fields() {
    // 16 MHz kernel clock, 100 kHz bus.
    let clk = Hertz::from_raw(16_000_000);
    let f = Hertz::from_raw(100_000);
    assert!(I2c::<(), ()>::timings_defined(clk, f));
    assert_eq!(I2c::<(), ()>::timings(clk, f), [1, 38, 38, 1, 9]);
}
