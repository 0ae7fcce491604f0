//! PWM parameter derivation for an unvalidated fan speed.
//!
//! Unlike [`crate::decode::fan::Power`], a [`FanSpeed`] carries whatever
//! ratio its caller supplied; the conversion clamps the resulting compare
//! value into the 16-bit register instead of rejecting the input.

use vstd::arithmetic::div_mod::lemma_div_is_ordered;
use vstd::arithmetic::div_mod::lemma_div_multiples_vanish_fancy;
use vstd::arithmetic::mul::lemma_mul_inequality;
use vstd::arithmetic::mul::lemma_mul_is_commutative;
use vstd::arithmetic::mul::lemma_mul_upper_bound;
use vstd::prelude::*;

use crate::decode::fan::clock_top;
use crate::decode::fan::spec_top;
use crate::units::Frequency;
use crate::units::Ratio;

verus! {

/// Desired fan speed, not yet validated.
#[derive(Clone, Copy, Debug, PartialEq, Eq, Structural)]
pub struct FanSpeed(pub Ratio);

/// RP2040 PWM slice parameters: the counter wrap value and the level at
/// which the output falls.
#[derive(Clone, Copy, Debug, PartialEq, Eq, Structural)]
pub struct PwmParams {
    pub top: u16,
    pub compare: u16,
}

/// The compare value for an unvalidated speed: the product rounded to the
/// nearest tick, with negative speeds clamped to zero and oversized ones
/// saturated to the 16-bit register.
pub open spec fn spec_clamped_compare(top: int, tenths_of_percent: int) -> int {
    if tenths_of_percent <= 0 {
        0
    } else if (top * tenths_of_percent + 500) / 1000 > 0xffff {
        0xffff as int
    } else {
        (top * tenths_of_percent + 500) / 1000
    }
}

impl FanSpeed {
    /// The PWM parameters that drive the fan at this speed, following the
    /// 4-wire fan convention of a 25 kHz control signal; the period and the
    /// duty level are each rounded to the nearest tick. For speeds within
    /// [0%, 100%] the duty level never exceeds the period.
    pub fn to_pwm_params(&self, clock: Frequency) -> (r: PwmParams)
        ensures
            r.top == spec_top(clock) as u16,
            r.compare == spec_clamped_compare(
                spec_top(clock),
                self.0.tenths_of_percent as int,
            ) as u16,
            0 <= self.0.tenths_of_percent <= 1000 ==> r.compare <= r.top,
    {
        let top: u16 = clock_top(clock);
        let tenths: i16 = self.0.tenths_of_percent;

        if tenths <= 0 {
            return PwmParams { top, compare: 0 };
        }

        proof {
            lemma_mul_upper_bound(top as int, 0xffff, tenths as int, 0x7fff);
            lemma_mul_is_commutative(top as int, tenths as int);
            lemma_mul_is_commutative(top as int, 1000);
            if tenths <= 1000 {
                lemma_mul_inequality(tenths as int, 1000, top as int);
                lemma_div_is_ordered(
                    (top as int) * (tenths as int) + 500,
                    (top as int) * 1000 + 500,
                    1000,
                );
            }
            lemma_div_multiples_vanish_fancy(top as int, 500, 1000);
        }
        let compare_full: u64 = ((top as u64) * (tenths as u64) + 500) / 1000;
        let compare: u16 = if compare_full > 0xffff {
            0xffff
        } else {
            compare_full as u16
        };
        PwmParams { top, compare }
    }
}

} // verus!
