use ads1115::{scale, sign_correct, Ads1115PgaConfig, Coefficient};

const GAINS: [Ads1115PgaConfig; 6] = [
    Ads1115PgaConfig::Ads1115RegConfigPga6144v,
    Ads1115PgaConfig::Ads1115RegConfigPga4096v,
    Ads1115PgaConfig::Ads1115RegConfigPga2048v,
    Ads1115PgaConfig::Ads1115RegConfigPga1024v,
    Ads1115PgaConfig::Ads1115RegConfigPga0512v,
    Ads1115PgaConfig::Ads1115RegConfigPga0256v,
];

const STEPS: [f64; 6] = [0.1875, 0.125, 0.0625, 0.03125, 0.015625, 0.0078125];

const FULL_SCALE: [i32; 6] = [6144, 4096, 2048, 1024, 512, 256];

fn as_float(step: Coefficient) -> f64 {
    step.numerator as f64 / step.denominator as f64
}

#[test]
fn sign_correction_at_the_twos_complement_boundary() {
    assert_eq!(sign_correct(0x7FFF), 32767);
    assert_eq!(sign_correct(0x8000), -32768);
    assert_eq!(sign_correct(0xFFFF), -1);
}

#[test]
fn sign_correction_of_small_values() {
    assert_eq!(sign_correct(0), 0);
    assert_eq!(sign_correct(1), 1);
    assert_eq!(sign_correct(400), 400);
    assert_eq!(sign_correct(0xFF38), -200);
    assert_eq!(sign_correct(0x8001), -32767);
}

#[test]
fn sign_correction_subtracts_65536_from_the_upper_half() {
    for raw in 0..=u16::MAX {
        let expected = if raw >= 32768 { raw as i32 - 65536 } else { raw as i32 };
        assert_eq!(sign_correct(raw) as i32, expected);
    }
}

#[test]
fn coefficient_table_holds_the_documented_steps() {
    for (gain, step) in GAINS.iter().zip(STEPS) {
        assert_eq!(as_float(gain.coefficient()), step);
    }
    assert_eq!(
        Ads1115PgaConfig::Ads1115RegConfigPga4096v.coefficient(),
        Coefficient { numerator: 1, denominator: 8 }
    );
    assert_eq!(
        Ads1115PgaConfig::Ads1115RegConfigPga6144v.coefficient(),
        Coefficient { numerator: 3, denominator: 16 }
    );
}

#[test]
fn coefficient_is_full_scale_over_32768_counts() {
    for (gain, full_scale) in GAINS.iter().zip(FULL_SCALE) {
        let step = gain.coefficient();
        assert!(step.numerator > 0);
        assert!(step.denominator > 0);
        assert_eq!(32768 * step.numerator as i32, full_scale * step.denominator as i32);
    }
}

#[test]
fn scale_gives_exact_products() {
    let step = Coefficient { numerator: 3, denominator: 16 };
    assert_eq!(scale(400, step), 75);
    assert_eq!(scale(-400, step), -75);
    assert_eq!(scale(16, step), 3);
    assert_eq!(scale(0, step), 0);
    assert_eq!(scale(32767, Coefficient { numerator: 1, denominator: 8 }), 4095);
    assert_eq!(scale(-32768, Coefficient { numerator: 1, denominator: 8 }), -4096);
    assert_eq!(scale(128, Coefficient { numerator: 1, denominator: 128 }), 1);
}

#[test]
fn scale_truncates_toward_zero() {
    let step = Coefficient { numerator: 3, denominator: 16 };
    assert_eq!(scale(6, step), 1);
    assert_eq!(scale(-6, step), -1);
    assert_eq!(scale(5, step), 0);
    assert_eq!(scale(-5, step), 0);
    assert_eq!(scale(1, step), 0);
    assert_eq!(scale(-1, step), 0);
    assert_eq!(scale(32767, step), 6143);
    assert_eq!(scale(-32767, step), -6143);
    assert_eq!(scale(-32768, step), -6144);
    assert_eq!(scale(-200, step), -37);
    assert_eq!(scale(200, step), 37);
}

#[test]
fn scale_takes_any_fraction_with_a_positive_denominator() {
    assert_eq!(scale(7, Coefficient { numerator: 5, denominator: 2 }), 17);
    assert_eq!(scale(-7, Coefficient { numerator: 5, denominator: 2 }), -17);
    assert_eq!(scale(123, Coefficient { numerator: 0, denominator: 9 }), 0);
    assert_eq!(scale(-123, Coefficient { numerator: 0, denominator: 9 }), 0);
    assert_eq!(scale(-32768, Coefficient { numerator: 65535, denominator: 1 }), -2147450880);
    assert_eq!(scale(32767, Coefficient { numerator: 65535, denominator: 1 }), 2147385345);
    assert_eq!(scale(32767, Coefficient { numerator: 1, denominator: 65535 }), 0);
}

#[test]
fn scale_agrees_with_the_truncated_float_product() {
    for (gain, step) in GAINS.iter().zip(STEPS) {
        for sample in i16::MIN..=i16::MAX {
            let expected = (sample as f64 * step) as i32;
            assert_eq!(scale(sample, gain.coefficient()), expected);
        }
    }
}

#[test]
fn scale_brackets_the_exact_product() {
    for gain in GAINS {
        let step = gain.coefficient();
        let n = step.numerator as i64;
        let d = step.denominator as i64;
        for sample in i16::MIN..=i16::MAX {
            let v = scale(sample, step) as i64;
            let exact = sample as i64 * n;
            if sample >= 0 {
                assert!(0 <= v * d && v * d <= exact && exact < (v + 1) * d);
            }
            if sample <= 0 {
                assert!(0 >= v * d && v * d >= exact && exact > (v - 1) * d);
            }
        }
    }
}

#[test]
fn scale_never_flips_the_sign() {
    for gain in GAINS {
        let step = gain.coefficient();
        for sample in i16::MIN..=i16::MAX {
            let v = scale(sample, step);
            if sample >= 0 {
                assert!(v >= 0);
            }
            if sample <= 0 {
                assert!(v <= 0);
            }
        }
    }
}

#[test]
fn scale_is_monotonic() {
    for gain in GAINS {
        let step = gain.coefficient();
        let mut previous = scale(i16::MIN, step);
        for sample in i16::MIN..=i16::MAX {
            let v = scale(sample, step);
            assert!(previous <= v);
            previous = v;
        }
    }
}

#[test]
fn scale_stays_within_the_full_scale_range() {
    for (gain, full_scale) in GAINS.iter().zip(FULL_SCALE) {
        let step = gain.coefficient();
        assert_eq!(scale(i16::MIN, step), -full_scale);
        for sample in i16::MIN..=i16::MAX {
            let v = scale(sample, step);
            assert!(-full_scale <= v && v <= full_scale);
        }
    }
}
