//! Fan control orchestration: one control-loop decision.
//!
//! Each cycle the caller reads the temperature register bytes and the
//! system clock; [`FanControl::update`] decodes and validates the
//! temperature, samples the fan curve, and returns the PWM parameters to
//! write. The first failure aborts the cycle; nothing is carried into the
//! next one.

use vstd::prelude::*;

use crate::decode::fan;
use crate::decode::fan::RpPwmConfig;
use crate::decode::mcp9808;
use crate::decode::mcp9808::raw;
use crate::decode::mcp9808::TemperaturePayload;
use crate::fan_curve;
use crate::fan_curve::FanCurve;
use crate::fan_curve::Knot;
use crate::units::Frequency;

verus! {

/// A control-cycle error.
#[derive(Clone, Copy, Debug, PartialEq, Eq, Structural)]
pub enum Error {
    /// The temperature sensor payload was rejected.
    TempSensorError(mcp9808::Error),
    /// A fan power value was rejected.
    FanDecodeError(fan::Error),
    /// The fan curve failed.
    FanCurveError(fan_curve::Error),
}

/// The control-loop state: the calibrated curve, held immutably.
pub struct FanControl {
    curve: FanCurve,
}

impl View for FanControl {
    type V = Seq<Knot>;

    closed spec fn view(&self) -> Seq<Knot> {
        self.curve@
    }
}

impl FanControl {
    /// Whether the controller's curve is well formed; the constructor
    /// establishes this.
    pub open spec fn wf(self) -> bool {
        fan_curve::spec_wf(self@)
    }

    /// Builds a controller around a calibrated curve.
    pub fn new(curve: FanCurve) -> (r: FanControl)
        requires
            curve.wf(),
        ensures
            r@ == curve@,
            r.wf(),
    {
        FanControl { curve }
    }

    /// One control cycle: decode the sensed temperature, sample the curve,
    /// and derive the PWM parameters for the system clock. Fails exactly
    /// when the temperature payload decodes outside the sensor's range;
    /// every valid payload yields the curve's answer.
    pub fn update(&self, payload: TemperaturePayload, clock: Frequency) -> (r: Result<
        RpPwmConfig,
        Error,
    >)
        requires
            self.wf(),
        ensures
            ({
                let v = raw::spec_temperature_sixteenths(payload@);
                match r {
                    Ok(cfg) => mcp9808::MIN_TEMPERATURE_SIXTEENTHS <= v
                        <= mcp9808::MAX_TEMPERATURE_SIXTEENTHS && cfg == fan::spec_pwm_config(
                        fan_curve::spec_sample(self@, raw::spec_tenths_of_sixteenths(v)),
                        clock,
                    ),
                    Err(Error::TempSensorError(e)) => !(mcp9808::MIN_TEMPERATURE_SIXTEENTHS <= v
                        <= mcp9808::MAX_TEMPERATURE_SIXTEENTHS) && e
                        == mcp9808::Error::InvalidTemperature(v as i16),
                    Err(_) => false,
                }
            }),
    {
        let temperature = match mcp9808::decode_temperature(payload) {
            Ok(t) => t,
            Err(e) => {
                return Err(Error::TempSensorError(e));
            },
        };

        let target = match self.curve.sample(temperature.to_tenths_of_degree()) {
            Ok(p) => p,
            Err(e) => {
                return Err(Error::FanCurveError(e));
            },
        };

        Ok(target.pwm_config(clock))
    }
}

} // verus!
