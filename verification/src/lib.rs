//! Fan-controller core logic.
//!
//! The crate verifies the decision-making heart of a PC-fan controller:
//! the single-wire sensor protocol state machine and payload decoder, the
//! register-based temperature sensor decoder, the temperature-to-speed fan
//! curve, and the PWM and tachometer conversions. Hardware access (pins,
//! buses, timers) is left to the caller, which drives the state machines
//! and decoders with plain values.
//!
//! All physical quantities are carried as scaled integers: ratios in tenths
//! of a percent, single-wire temperatures in tenths of a degree Celsius,
//! register temperatures in sixteenths of a degree Celsius, and frequencies
//! in millihertz.

pub mod decode;
pub mod dht;
pub mod fan;
pub mod fan_control;
pub mod fan_curve;
pub mod tasks;
pub mod units;
