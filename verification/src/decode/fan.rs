//! Fan power validation, PWM register derivation, and tachometer
//! frequency estimation.

use vstd::arithmetic::div_mod::lemma_div_is_ordered;
use vstd::arithmetic::div_mod::lemma_div_multiples_vanish_fancy;
use vstd::arithmetic::mul::lemma_mul_basics;
use vstd::arithmetic::mul::lemma_mul_inequality;
use vstd::arithmetic::mul::lemma_mul_is_commutative;
use vstd::arithmetic::mul::lemma_mul_upper_bound;
use vstd::prelude::*;

use crate::units::Frequency;
use crate::units::Ratio;

verus! {

/// The PWM frequency expected by 4-wire fans, in hertz.
pub const FAN_PWM_HZ: u64 = 25_000;

/// The PWM frequency expected by 4-wire fans, in millihertz.
pub const FAN_PWM_MILLIHERTZ: u64 = FAN_PWM_HZ * 1000;

/// Tachometer pulses emitted per fan revolution by 4-wire fans.
pub const PULSES_PER_REVOLUTION: u64 = 2;

/// A fan control error.
#[derive(Clone, Copy, Debug, PartialEq, Eq, Structural)]
pub enum Error {
    /// The requested power, in tenths of a percent, lies outside
    /// [0%, 100%].
    InvalidPower(i16),
    /// The tachometer saw too few pulse edges in its sampling window.
    NotEnoughSamples(usize),
}

/// Desired fan power: a ratio validated to lie in [0%, 100%].
#[derive(Clone, Copy, Debug, Default, PartialEq, Eq, Structural)]
pub struct Power(Ratio);

/// RP2040 PWM slice parameters: the counter wrap value and the level at
/// which the output falls.
#[derive(Clone, Copy, Debug, PartialEq, Eq, Structural)]
pub struct RpPwmConfig {
    pub top: u16,
    pub compare: u16,
}

/// The PWM wrap value for a system clock: the clock divided by the fan PWM
/// frequency, rounded to the nearest tick and saturated to the 16-bit
/// register.
pub open spec fn spec_top(clock: Frequency) -> int {
    let top = (clock.millihertz + (FAN_PWM_MILLIHERTZ as int) / 2) / (FAN_PWM_MILLIHERTZ as int);
    if top > 0xffff {
        0xffff as int
    } else {
        top
    }
}

/// The PWM compare value for a wrap value and a power in tenths of a
/// percent: the product, rounded to the nearest tick.
pub open spec fn spec_compare(top: int, tenths_of_percent: int) -> int {
    (top * tenths_of_percent + 500) / 1000
}

/// The PWM parameters commanded for a power (in tenths of a percent) at a
/// system clock frequency.
pub open spec fn spec_pwm_config(tenths_of_percent: int, clock: Frequency) -> RpPwmConfig {
    RpPwmConfig {
        top: spec_top(clock) as u16,
        compare: spec_compare(spec_top(clock), tenths_of_percent) as u16,
    }
}

/// Computes the PWM wrap value for a system clock: the nearest whole tick
/// to clock / 25 kHz, saturated to the 16-bit register.
pub(crate) fn clock_top(clock: Frequency) -> (r: u16)
    ensures
        r == spec_top(clock),
{
    let half: u64 = FAN_PWM_MILLIHERTZ / 2;
    if clock.millihertz > u64::MAX - half {
        // The rounded quotient is far beyond the register either way.
        proof {
            lemma_div_is_ordered(
                0x10000000000000000int,
                clock.millihertz + (FAN_PWM_MILLIHERTZ as int) / 2,
                FAN_PWM_MILLIHERTZ as int,
            );
            assert(0x10000000000000000int / (FAN_PWM_MILLIHERTZ as int) > 0xffff);
        }
        0xffff
    } else {
        let top_full: u64 = (clock.millihertz + half) / FAN_PWM_MILLIHERTZ;
        if top_full > 0xffff {
            0xffff
        } else {
            top_full as u16
        }
    }
}

impl Power {
    /// The power in tenths of a percent; always in [0, 1000].
    pub closed spec fn spec_tenths_of_percent(self) -> int {
        self.0.tenths_of_percent as int
    }

    #[verifier::type_invariant]
    spec fn inv(self) -> bool {
        0 <= self.0.tenths_of_percent <= 1000
    }

    /// Validates a ratio as a fan power, rejecting anything outside
    /// [0%, 100%].
    pub fn new(ratio: Ratio) -> (r: Result<Power, Error>)
        ensures
            match r {
                Ok(p) => 0 <= ratio.tenths_of_percent <= 1000 && p.spec_tenths_of_percent()
                    == ratio.tenths_of_percent,
                Err(e) => !(0 <= ratio.tenths_of_percent <= 1000) && e == Error::InvalidPower(
                    ratio.tenths_of_percent,
                ),
            },
    {
        if 0 <= ratio.tenths_of_percent && ratio.tenths_of_percent <= 1000 {
            Ok(Power(ratio))
        } else {
            Err(Error::InvalidPower(ratio.tenths_of_percent))
        }
    }

    /// The validated ratio.
    pub fn get(&self) -> (r: Ratio)
        ensures
            r.tenths_of_percent == self.spec_tenths_of_percent(),
    {
        self.0
    }

    /// The PWM parameters that drive the fan at this power, following the
    /// 4-wire fan convention of a 25 kHz control signal; the period and the
    /// duty level are each rounded to the nearest tick. The duty level
    /// never exceeds the period: zero power yields a zero compare value and
    /// full power yields the wrap value itself.
    pub fn pwm_config(&self, clock: Frequency) -> (r: RpPwmConfig)
        ensures
            r == spec_pwm_config(self.spec_tenths_of_percent(), clock),
            r.compare <= r.top,
            self.spec_tenths_of_percent() == 0 ==> r.compare == 0,
            self.spec_tenths_of_percent() == 1000 ==> r.compare == r.top,
    {
        proof {
            use_type_invariant(&*self);
        }
        let top: u16 = clock_top(clock);
        let tenths: u64 = self.0.tenths_of_percent as u64;
        proof {
            lemma_mul_upper_bound(top as int, 0xffff, tenths as int, 1000);
        }
        let compare_full: u64 = ((top as u64) * tenths + 500) / 1000;
        proof {
            lemma_mul_is_commutative(top as int, tenths as int);
            lemma_mul_is_commutative(top as int, 1000);
            lemma_mul_basics(top as int);
            lemma_mul_inequality(tenths as int, 1000, top as int);
            lemma_div_is_ordered(
                (top as int) * (tenths as int) + 500,
                (top as int) * 1000 + 500,
                1000,
            );
            lemma_div_multiples_vanish_fancy(top as int, 500, 1000);
        }
        RpPwmConfig { top, compare: compare_full as u16 }
    }
}

/// The fan rotation frequency, in millihertz, implied by a pulse count
/// over a sampling window.
pub open spec fn spec_fan_frequency_millihertz(pulse_count: int, sample_window_ms: int) -> int {
    pulse_count * 1_000_000 / (sample_window_ms * (PULSES_PER_REVOLUTION as int))
}

/// Estimates the fan rotation frequency from the number of tachometer pulse
/// edges counted over a sampling window. At least two edges are required;
/// 4-wire fans emit two pulses per revolution.
pub fn fan_frequency(pulse_count: u16, sample_window_ms: u32) -> (r: Result<Frequency, Error>)
    requires
        1 <= sample_window_ms,
    ensures
        match r {
            Ok(f) => pulse_count >= 2 && f.millihertz == spec_fan_frequency_millihertz(
                pulse_count as int,
                sample_window_ms as int,
            ),
            Err(e) => pulse_count < 2 && e == Error::NotEnoughSamples(pulse_count as usize),
        },
{
    if pulse_count < 2 {
        return Err(Error::NotEnoughSamples(pulse_count as usize));
    }
    let millihertz: u64 = (pulse_count as u64) * 1_000_000 / ((sample_window_ms as u64)
        * PULSES_PER_REVOLUTION);
    Ok(Frequency { millihertz })
}

} // verus!
