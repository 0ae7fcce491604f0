//! Scaled-integer physical quantities.
//!
//! Floating point is avoided throughout: each quantity fixes a scale fine
//! enough for its sensor or actuator and stores an integer count of that
//! unit.

use vstd::prelude::*;

verus! {

/// A dimensionless ratio stored in tenths of a percent, so `393` means
/// 39.3%. The single-wire sensor reports humidity with exactly this
/// resolution.
#[derive(Clone, Copy, Debug, Default, PartialEq, Eq, Structural)]
pub struct Ratio {
    pub tenths_of_percent: i16,
}

/// A temperature stored in tenths of a degree Celsius, so `-208` means
/// -20.8 °C. The single-wire sensor reports temperature with exactly this
/// resolution.
#[derive(Clone, Copy, Debug, Default, PartialEq, Eq, Structural)]
pub struct ThermodynamicTemperature {
    pub tenths_of_degree: i16,
}

/// A frequency stored in millihertz, so `2000` means 2 Hz.
#[derive(Clone, Copy, Debug, Default, PartialEq, Eq, Structural)]
pub struct Frequency {
    pub millihertz: u64,
}

impl Ratio {
    /// Builds a ratio from tenths of a percent.
    pub fn from_tenths_of_percent(tenths_of_percent: i16) -> (r: Ratio)
        ensures
            r.tenths_of_percent == tenths_of_percent,
    {
        Ratio { tenths_of_percent }
    }
}

impl ThermodynamicTemperature {
    /// Builds a temperature from tenths of a degree Celsius.
    pub fn from_tenths_of_degree(tenths_of_degree: i16) -> (r: ThermodynamicTemperature)
        ensures
            r.tenths_of_degree == tenths_of_degree,
    {
        ThermodynamicTemperature { tenths_of_degree }
    }
}

impl Frequency {
    /// Builds a frequency from a whole number of hertz.
    pub fn from_hertz(hertz: u32) -> (r: Frequency)
        ensures
            r.millihertz == hertz * 1000,
    {
        Frequency { millihertz: (hertz as u64) * 1000 }
    }
}

} // verus!
