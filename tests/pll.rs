use stm32f2xx_hal::rcc::pll::{I2sPll, MainPll, MainPllFields, PllError, PllField, SingleOutputPll};

fn aux_candidate(src: u32, m: u32, target: u32, d: u32) -> Option<u64> {
    let vi = (src / m) as u64;
    let n = (target as u64 * d as u64 + vi / 2) / vi;
    let vco = vi * n;
    if !(100_000_000..=432_000_000).contains(&vco) {
        return None;
    }
    let out = vco / d as u64;
    Some(if out >= target as u64 { out - target as u64 } else { target as u64 - out })
}

#[test]
fn main_pll_disabled_when_nothing_requested() {
    let r = MainPll::fast_setup(16_000_000, true, None, false);
    assert_eq!(
        r,
        Ok(MainPll {
            use_pll: false,
            pllsysclk: None,
            pll48clk: None,
            m: None,
            plli2sclk: None,
            use_hse: true,
            fields: None,
        })
    );
    let r = MainPll::fast_setup(0, false, None, false).unwrap();
    assert!(!r.use_pll);
    assert_eq!(r.m, None);
    assert_eq!(r.fields, None);
}

#[test]
fn main_pll_sysclk_48mhz_from_16mhz_needs_a_too_small_multiplier() {
    // sysclk divisor 2 asks for a 96 MHz VCO, so N would be 48
    let r = MainPll::fast_setup(16_000_000, false, Some(48_000_000), false);
    assert_eq!(r, Err(PllError::OutOfRangeDerivedField(PllField::N)));
}

#[test]
fn main_pll_48mhz_only_from_16mhz() {
    // M = 8 gives a 2 MHz VCO input; Q = 4 would need N = 96, so Q = 8 with
    // N = 192 is the first divisor whose multiplier is in range.
    let r = MainPll::fast_setup(16_000_000, false, None, true).unwrap();
    assert!(r.use_pll);
    assert_eq!(r.m, Some(8));
    let f = r.fields.unwrap();
    assert_eq!(f, MainPllFields { pllm: 8, plln: 192, pllp: 3, pllq: 8 });
    let vco = (16_000_000 / f.pllm as u32) * f.plln as u32;
    let pll48 = vco / f.pllq as u32;
    assert!((pll48 as i64 - 48_000_000).abs() < 1_000);
    assert!((4..=9).contains(&f.pllq));
    assert_eq!(r.pllsysclk, Some(64_000_000));
}

#[test]
fn main_pll_48mhz_from_8mhz_and_24mhz() {
    let r = MainPll::fast_setup(8_000_000, false, None, true).unwrap();
    assert_eq!(r.fields, Some(MainPllFields { pllm: 4, plln: 192, pllp: 3, pllq: 8 }));
    assert_eq!(r.pllsysclk, Some(48_000_000));
    let r = MainPll::fast_setup(24_000_000, true, None, true).unwrap();
    assert_eq!(r.fields, Some(MainPllFields { pllm: 12, plln: 192, pllp: 3, pllq: 8 }));
    assert_eq!(r.pllsysclk, Some(96_000_000));
}

#[test]
fn main_pll_48mhz_from_25mhz() {
    let r = MainPll::fast_setup(25_000_000, true, None, true);
    assert_eq!(
        r,
        Ok(MainPll {
            use_pll: true,
            pllsysclk: Some(48_000_000),
            pll48clk: None,
            m: Some(25),
            plli2sclk: None,
            use_hse: true,
            fields: Some(MainPllFields { pllm: 25, plln: 192, pllp: 1, pllq: 4 }),
        })
    );
}

#[test]
fn main_pll_48mhz_with_sysclk_from_17mhz() {
    let r = MainPll::fast_setup(17_000_000, false, Some(16_000_000), true).unwrap();
    assert!(r.use_pll);
    assert_eq!(r.m, Some(17));
    assert_eq!(r.pllsysclk, Some(32_000_000));
    assert_eq!(r.fields, Some(MainPllFields { pllm: 17, plln: 192, pllp: 1, pllq: 4 }));
    assert!(!r.use_hse);
}

#[test]
fn main_pll_sysclk_above_60mhz_has_no_divisor() {
    let r = MainPll::fast_setup(25_000_000, true, Some(120_000_000), false);
    assert_eq!(r, Err(PllError::OutOfRangeDerivedField(PllField::SysclkDiv)));
}

#[test]
fn main_pll_source_below_1mhz_is_unsatisfiable() {
    let r = MainPll::fast_setup(500_000, false, Some(8_000_000), false);
    assert_eq!(r, Err(PllError::UnsatisfiableVcoConstraint));
}

#[test]
fn main_pll_input_divisor_out_of_field_range() {
    assert_eq!(
        MainPll::fast_setup(1_500_000, false, Some(8_000_000), false),
        Err(PllError::OutOfRangeDerivedField(PllField::M))
    );
    assert_eq!(
        MainPll::fast_setup(200_000_000, false, Some(48_000_000), false),
        Err(PllError::OutOfRangeDerivedField(PllField::M))
    );
}

#[test]
fn main_pll_is_deterministic() {
    for src in [5_000_000u32, 16_000_000, 25_000_000] {
        for sys in [None, Some(16_000_000u32), Some(48_000_000)] {
            for p48 in [false, true] {
                let a = MainPll::fast_setup(src, true, sys, p48);
                let b = MainPll::fast_setup(src, true, sys, p48);
                assert_eq!(a, b);
            }
        }
    }
}

#[test]
fn main_pll_fields_stay_in_range() {
    let mut src = 4_000_000u32;
    while src <= 26_000_000 {
        let mut target = 8_000_000u32;
        while target <= 216_000_000 {
            for p48 in [false, true] {
                if let Ok(p) = MainPll::fast_setup(src, true, Some(target), p48) {
                    let f = p.fields.unwrap();
                    assert!((2..=63).contains(&f.pllm));
                    assert!((192..=432).contains(&f.plln));
                    assert!(f.pllp <= 3);
                    assert!((2..=15).contains(&f.pllq));
                    let vco = (src / f.pllm as u32) as u64 * f.plln as u64;
                    assert!((192_000_000..=432_000_000).contains(&vco));
                    assert_eq!(p.m, Some(f.pllm as u32));
                }
            }
            target += 8_000_000;
        }
        src += 1_000_000;
    }
}

#[test]
fn i2s_pll_unused() {
    let p = I2sPll::unused();
    assert_eq!(p, I2sPll { use_pll: false, m: None, plli2sclk: None, config: None });
}

#[test]
fn i2s_pll_without_request_stays_off() {
    assert_eq!(I2sPll::setup(8_000_000, None), Ok(I2sPll::unused()));
    assert_eq!(I2sPll::setup_shared_m(8_000_000, Some(4), None), Ok(I2sPll::unused()));
}

#[test]
fn i2s_pll_86mhz_from_8mhz() {
    let p = I2sPll::setup(8_000_000, Some(86_000_000)).unwrap();
    assert_eq!(
        p,
        I2sPll {
            use_pll: true,
            m: Some(4),
            plli2sclk: Some(86_000_000),
            config: Some(SingleOutputPll { m: 4, n: 86, outdiv: 2 }),
        }
    );
    let c = p.config.unwrap();
    assert!((2..=7).contains(&c.outdiv));
    let vco = (8_000_000 / c.m as u32) as u64 * c.n as u64;
    assert!((100_000_000..=432_000_000).contains(&vco));
}

#[test]
fn i2s_pll_1mhz_is_unsatisfiable() {
    assert_eq!(I2sPll::setup(16_000_000, Some(1_000_000)), Err(PllError::UnsatisfiableVcoConstraint));
    assert_eq!(
        I2sPll::setup_shared_m(16_000_000, Some(9), Some(1_000_000)),
        Err(PllError::UnsatisfiableVcoConstraint)
    );
}

#[test]
fn i2s_pll_source_below_1mhz_is_unsatisfiable() {
    assert_eq!(I2sPll::setup(500_000, Some(48_000_000)), Err(PllError::UnsatisfiableVcoConstraint));
}

#[test]
fn i2s_pll_61440khz_from_25mhz() {
    let p = I2sPll::setup(25_000_000, Some(61_440_000)).unwrap();
    assert_eq!(p.m, Some(20));
    assert_eq!(p.plli2sclk, Some(61_428_571));
    assert_eq!(p.config, Some(SingleOutputPll { m: 20, n: 344, outdiv: 7 }));
}

#[test]
fn i2s_pll_search_is_exhaustive() {
    for (src, target) in [(25_000_000u32, 61_440_000u32), (8_000_000, 86_000_000), (12_288_000, 49_152_000), (26_000_000, 45_158_400)] {
        let p = I2sPll::setup(src, Some(target)).unwrap();
        let got = p.plli2sclk.unwrap() as i64;
        let err = (got - target as i64).unsigned_abs();
        let lo = (src + 1_999_999) / 2_000_000;
        let hi = src / 1_000_000;
        for m in lo.max(2)..=hi.min(63) {
            for d in 2..=7 {
                if let Some(e) = aux_candidate(src, m, target, d) {
                    assert!(err <= e);
                }
            }
        }
    }
}

#[test]
fn i2s_pll_is_deterministic() {
    for target in [None, Some(61_440_000u32), Some(1_000_000)] {
        assert_eq!(I2sPll::setup(25_000_000, target), I2sPll::setup(25_000_000, target));
        assert_eq!(
            I2sPll::setup_shared_m(25_000_000, Some(13), target),
            I2sPll::setup_shared_m(25_000_000, Some(13), target)
        );
    }
}

#[test]
fn i2s_pll_shares_the_main_input_divisor() {
    let main = MainPll::fast_setup(25_000_000, true, None, true).unwrap();
    let p = I2sPll::setup_shared_m(25_000_000, main.m, Some(61_440_000)).unwrap();
    assert_eq!(p.m, main.m);
    assert_eq!(p.config.unwrap().m as u32, main.m.unwrap());
}

#[test]
fn i2s_pll_shared_divisor_13_from_25mhz() {
    let p = I2sPll::setup_shared_m(25_000_000, Some(13), Some(61_440_000)).unwrap();
    assert_eq!(p.plli2sclk, Some(61_538_432));
    assert_eq!(p.config, Some(SingleOutputPll { m: 13, n: 64, outdiv: 2 }));
}

#[test]
fn i2s_pll_without_main_divisor_searches_its_own() {
    assert_eq!(
        I2sPll::setup_shared_m(8_000_000, None, Some(86_000_000)),
        I2sPll::setup(8_000_000, Some(86_000_000))
    );
}

#[test]
fn i2s_pll_rejects_a_bad_shared_divisor() {
    assert_eq!(
        I2sPll::setup_shared_m(8_000_000, Some(1), Some(86_000_000)),
        Err(PllError::OutOfRangeDerivedField(PllField::M))
    );
    assert_eq!(
        I2sPll::setup_shared_m(8_000_000, Some(16), Some(86_000_000)),
        Err(PllError::OutOfRangeDerivedField(PllField::M))
    );
}

#[test]
fn single_output_optimize_picks_the_closest_divisor() {
    let r = SingleOutputPll::optimize(25_000_000, 20, 61_440_000, 2, 7);
    assert_eq!(r, Some((SingleOutputPll { m: 20, n: 344, outdiv: 7 }, 61_428_571, 11_429)));
    let r = SingleOutputPll::optimize(8_000_000, 8, 86_000_000, 2, 7);
    assert_eq!(r, Some((SingleOutputPll { m: 8, n: 172, outdiv: 2 }, 86_000_000, 0)));
}

#[test]
fn single_output_optimize_error_is_minimal() {
    let (src, m, target) = (25_000_000u32, 13u32, 61_440_000u32);
    let (_, _, err) = SingleOutputPll::optimize(src, m, target, 2, 7).unwrap();
    for d in 2..=7 {
        if let Some(e) = aux_candidate(src, m, target, d) {
            assert!(err as u64 <= e);
        }
    }
}

#[test]
fn single_output_optimize_without_candidate() {
    assert_eq!(SingleOutputPll::optimize(16_000_000, 8, 1_000_000, 2, 7), None);
    assert_eq!(SingleOutputPll::optimize(16_000_000, 8, 86_000_000, 5, 4), None);
}
