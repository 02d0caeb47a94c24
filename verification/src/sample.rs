//! Decoding of the conversion register: sign correction of the raw value and
//! scaling of the signed sample to millivolts.
//!
//! The scale factors of the device are binary fractions of a millivolt, so they
//! are held as exact fractions and all arithmetic is done on integers. A scaled
//! reading is the exact product truncated toward zero.

use crate::registers::Ads1115PgaConfig;
use vstd::prelude::*;

verus! {

/// The voltage step of one count, in millivolts, as the exact fraction
/// `numerator / denominator`.
#[derive(Clone, Copy, Debug, PartialEq, Eq)]
pub struct Coefficient {
    pub numerator: u16,
    pub denominator: u16,
}

impl Ads1115PgaConfig {
    /// The voltage step that belongs to the gain setting:
    /// 6.144 V gives 3/16 = 0.1875 mV, 4.096 V gives 1/8 = 0.125 mV,
    /// 2.048 V gives 1/16 = 0.0625 mV, 1.024 V gives 1/32 = 0.03125 mV,
    /// 0.512 V gives 1/64 = 0.015625 mV, 0.256 V gives 1/128 = 0.0078125 mV.
    pub open spec fn spec_coefficient(self) -> Coefficient {
        match self {
            Ads1115PgaConfig::Ads1115RegConfigPga6144v => Coefficient {
                numerator: 3,
                denominator: 16,
            },
            Ads1115PgaConfig::Ads1115RegConfigPga4096v => Coefficient {
                numerator: 1,
                denominator: 8,
            },
            Ads1115PgaConfig::Ads1115RegConfigPga2048v => Coefficient {
                numerator: 1,
                denominator: 16,
            },
            Ads1115PgaConfig::Ads1115RegConfigPga1024v => Coefficient {
                numerator: 1,
                denominator: 32,
            },
            Ads1115PgaConfig::Ads1115RegConfigPga0512v => Coefficient {
                numerator: 1,
                denominator: 64,
            },
            Ads1115PgaConfig::Ads1115RegConfigPga0256v => Coefficient {
                numerator: 1,
                denominator: 128,
            },
        }
    }

    /// Looks up the voltage step that belongs to the gain setting.
    #[verifier::when_used_as_spec(spec_coefficient)]
    pub fn coefficient(self) -> (step: Coefficient)
        ensures
            step == self.spec_coefficient(),
    {
        match self {
            Ads1115PgaConfig::Ads1115RegConfigPga6144v => Coefficient {
                numerator: 3,
                denominator: 16,
            },
            Ads1115PgaConfig::Ads1115RegConfigPga4096v => Coefficient {
                numerator: 1,
                denominator: 8,
            },
            Ads1115PgaConfig::Ads1115RegConfigPga2048v => Coefficient {
                numerator: 1,
                denominator: 16,
            },
            Ads1115PgaConfig::Ads1115RegConfigPga1024v => Coefficient {
                numerator: 1,
                denominator: 32,
            },
            Ads1115PgaConfig::Ads1115RegConfigPga0512v => Coefficient {
                numerator: 1,
                denominator: 64,
            },
            Ads1115PgaConfig::Ads1115RegConfigPga0256v => Coefficient {
                numerator: 1,
                denominator: 128,
            },
        }
    }

    /// The voltage step as the data sheet prints it, in tenths of a nanovolt:
    /// 0.1875 mV is 1 875 000, and so on down to 0.0078125 mV, which is 78 125.
    pub open spec fn step_tenth_nanovolts(self) -> int {
        match self {
            Ads1115PgaConfig::Ads1115RegConfigPga6144v => 1_875_000,
            Ads1115PgaConfig::Ads1115RegConfigPga4096v => 1_250_000,
            Ads1115PgaConfig::Ads1115RegConfigPga2048v => 625_000,
            Ads1115PgaConfig::Ads1115RegConfigPga1024v => 312_500,
            Ads1115PgaConfig::Ads1115RegConfigPga0512v => 156_250,
            Ads1115PgaConfig::Ads1115RegConfigPga0256v => 78_125,
        }
    }

    /// The magnitude of the full-scale input range in millivolts.
    pub open spec fn full_scale_millivolts(self) -> int {
        match self {
            Ads1115PgaConfig::Ads1115RegConfigPga6144v => 6144,
            Ads1115PgaConfig::Ads1115RegConfigPga4096v => 4096,
            Ads1115PgaConfig::Ads1115RegConfigPga2048v => 2048,
            Ads1115PgaConfig::Ads1115RegConfigPga1024v => 1024,
            Ads1115PgaConfig::Ads1115RegConfigPga0512v => 512,
            Ads1115PgaConfig::Ads1115RegConfigPga0256v => 256,
        }
    }
}

/// The two's-complement reading of an unsigned 16-bit register value: values at
/// or above 32768 stand for `raw - 65536`.
pub open spec fn signed_sample(raw: int) -> int {
    if raw >= 32768 {
        raw - 65536
    } else {
        raw
    }
}

/// Reinterprets a raw conversion register value as the signed sample it encodes.
pub fn sign_correct(raw: u16) -> (sample: i16)
    ensures
        sample == signed_sample(raw as int),
{
    let wide: i32 = raw as i32;
    if wide >= 32768 {
        (wide - 65536) as i16
    } else {
        wide as i16
    }
}

/// The quotient of `dividend` by a positive `divisor`, rounded toward zero.
pub open spec fn truncated_quotient(dividend: int, divisor: int) -> int
    recommends
        divisor > 0,
{
    if dividend >= 0 {
        dividend / divisor
    } else {
        -((-dividend) / divisor)
    }
}

/// The voltage in millivolts that `sample` counts stand for at the given step:
/// the exact product, truncated toward zero.
pub open spec fn spec_scale(sample: int, step: Coefficient) -> int
    recommends
        step.denominator > 0,
{
    truncated_quotient(sample * step.numerator, step.denominator as int)
}

/// Scales a signed sample to millivolts, truncating toward zero.
pub fn scale(sample: i16, step: Coefficient) -> (millivolts: i32)
    requires
        step.denominator > 0,
    ensures
        millivolts == spec_scale(sample as int, step),
{
    let negative: bool = sample < 0;
    let magnitude: u32 = if negative {
        (-(sample as i32)) as u32
    } else {
        sample as u32
    };
    let factor: u32 = step.numerator as u32;
    let divisor: u32 = step.denominator as u32;
    assert(magnitude * factor <= 32768 * 65535) by (nonlinear_arith)
        requires
            magnitude <= 32768,
            factor <= 65535,
    ;
    let product: u32 = magnitude * factor;
    let quotient: u32 = product / divisor;
    assert(quotient <= product) by (nonlinear_arith)
        requires
            quotient == product / divisor,
            divisor > 0,
    ;
    proof {
        if negative {
            assert(sample * step.numerator == -(magnitude * factor)) by (nonlinear_arith)
                requires
                    magnitude == -sample,
                    factor == step.numerator,
            ;
        }
    }
    if negative {
        -(quotient as i32)
    } else {
        quotient as i32
    }
}

/// Each table entry is a positive fraction, equal to the full-scale range
/// divided by 32768 counts and equal to the decimal value the data sheet
/// prints for the gain.
pub proof fn lemma_coefficient_matches_range(gain: Ads1115PgaConfig)
    ensures
        gain.coefficient().numerator > 0,
        gain.coefficient().denominator > 0,
        32768 * gain.coefficient().numerator == gain.full_scale_millivolts()
            * gain.coefficient().denominator,
        10_000_000 * gain.coefficient().numerator == gain.step_tenth_nanovolts()
            * gain.coefficient().denominator,
{
}

/// Scaling truncates toward zero: the magnitude of the result is the largest
/// whole number of millivolts that does not exceed the magnitude of the exact
/// product, and the result is never on the other side of zero than the sample.
pub proof fn lemma_scale_truncates(sample: int, step: Coefficient)
    requires
        step.denominator > 0,
    ensures
        sample >= 0 ==> 0 <= spec_scale(sample, step) * step.denominator <= sample * step.numerator
            < (spec_scale(sample, step) + 1) * step.denominator,
        sample <= 0 ==> 0 >= spec_scale(sample, step) * step.denominator >= sample * step.numerator
            > (spec_scale(sample, step) - 1) * step.denominator,
{
    let n = step.numerator as int;
    let d = step.denominator as int;
    let a = sample * n;
    if sample >= 0 {
        assert(a >= 0) by (nonlinear_arith)
            requires
                a == sample * n,
                sample >= 0,
                n >= 0,
        ;
        lemma_floor_bounds(a, d);
    }
    if sample <= 0 {
        assert(a <= 0) by (nonlinear_arith)
            requires
                a == sample * n,
                sample <= 0,
                n >= 0,
        ;
        lemma_floor_bounds(-a, d);
        let q = (-a) / d;
        assert(a == 0 ==> q == 0) by (nonlinear_arith)
            requires
                0 <= q * d <= -a,
                d > 0,
        ;
        assert(spec_scale(sample, step) == -q);
        assert((-q) * d == -(q * d)) by (nonlinear_arith);
        assert((-q - 1) * d == -((q + 1) * d)) by (nonlinear_arith);
    }
}

/// Scaling never flips the sign: a sample that is not negative gives a voltage
/// that is not negative, one that is not positive gives a voltage that is not
/// positive, and zero gives zero.
pub proof fn lemma_scale_keeps_sign(sample: int, step: Coefficient)
    requires
        step.denominator > 0,
    ensures
        sample >= 0 ==> spec_scale(sample, step) >= 0,
        sample <= 0 ==> spec_scale(sample, step) <= 0,
        sample == 0 ==> spec_scale(sample, step) == 0,
{
    lemma_scale_truncates(sample, step);
    let d = step.denominator as int;
    let v = spec_scale(sample, step);
    assert(v * d >= 0 ==> v >= 0) by (nonlinear_arith)
        requires
            d > 0,
    ;
    assert(v * d <= 0 ==> v <= 0) by (nonlinear_arith)
        requires
            d > 0,
    ;
}

/// Scaling is monotonic: a larger sample never gives a smaller voltage.
pub proof fn lemma_scale_monotonic(low: int, high: int, step: Coefficient)
    requires
        step.denominator > 0,
        low <= high,
    ensures
        spec_scale(low, step) <= spec_scale(high, step),
{
    let n = step.numerator as int;
    let d = step.denominator as int;
    lemma_scale_keeps_sign(low, step);
    lemma_scale_keeps_sign(high, step);
    assert(low * n <= high * n) by (nonlinear_arith)
        requires
            low <= high,
            n >= 0,
    ;
    if low >= 0 {
        assert(low * n >= 0) by (nonlinear_arith)
            requires
                low >= 0,
                n >= 0,
        ;
        lemma_floor_monotonic(low * n, high * n, d);
    } else if high <= 0 {
        assert(high * n <= 0) by (nonlinear_arith)
            requires
                high <= 0,
                n >= 0,
        ;
        lemma_floor_monotonic(-(high * n), -(low * n), d);
    }
}

/// A scaled reading at a table step stays within the full-scale range of its
/// gain setting.
pub proof fn lemma_scale_within_range(sample: int, gain: Ads1115PgaConfig)
    requires
        -32768 <= sample <= 32767,
    ensures
        -gain.full_scale_millivolts() <= spec_scale(sample, gain.coefficient())
            <= gain.full_scale_millivolts(),
{
    let step = gain.coefficient();
    lemma_coefficient_matches_range(gain);
    assert(spec_scale(32768, step) == gain.full_scale_millivolts());
    assert(spec_scale(-32768, step) == -gain.full_scale_millivolts());
    lemma_scale_monotonic(-32768, sample, step);
    lemma_scale_monotonic(sample, 32768, step);
}

/// Floor division by a positive divisor brackets a dividend that is not
/// negative.
proof fn lemma_floor_bounds(a: int, d: int)
    by (nonlinear_arith)
    requires
        a >= 0,
        d > 0,
    ensures
        0 <= (a / d) * d <= a < (a / d + 1) * d,
{
}

/// Floor division by a positive divisor is monotonic on dividends that are not
/// negative.
proof fn lemma_floor_monotonic(a: int, b: int, d: int)
    by (nonlinear_arith)
    requires
        0 <= a <= b,
        d > 0,
    ensures
        a / d <= b / d,
{
}

} // verus!
