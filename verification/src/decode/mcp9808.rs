//! MCP9808 register payload decoders.
//!
//! The `raw` submodule decodes register payloads structurally; this module
//! adds the physical-range validation for the ambient temperature register.

use vstd::prelude::*;

pub mod raw;

verus! {

/// An MCP9808 decoding error.
#[derive(Clone, Copy, Debug, PartialEq, Eq, Structural)]
pub enum Error {
    /// The decoded temperature, in sixteenths of a degree Celsius, lies
    /// outside [-40 °C, 125 °C].
    InvalidTemperature(i16),
}

/// An I2C bus address.
#[derive(Clone, Copy, Debug, PartialEq, Eq, Structural)]
pub struct Address(pub u16);

/// The manufacturer ID register value.
#[derive(Clone, Copy, Debug, PartialEq, Eq, Structural)]
pub struct ManufacturerId(pub u16);

/// The device ID half of the device ID/revision register.
#[derive(Clone, Copy, Debug, PartialEq, Eq, Structural)]
pub struct DeviceId(pub u8);

/// The revision half of the device ID/revision register.
#[derive(Clone, Copy, Debug, PartialEq, Eq, Structural)]
pub struct Revision(pub u8);

/// The two bytes of the ambient temperature register, big endian.
pub type TemperaturePayload = [u8; 2];

/// The two bytes of the manufacturer ID register, big endian.
pub type ManufacturerIdPayload = [u8; 2];

/// The two bytes of the device ID/revision register, big endian.
pub type DeviceIdPayload = [u8; 2];

/// The register selector for the ambient temperature register.
pub const TEMPERATURE_REGISTER: u8 = 0x05;

/// The register selector for the manufacturer ID register.
pub const MANUFACTURER_ID_REGISTER: u8 = 0x06;

/// The register selector for the device ID/revision register.
pub const DEVICE_ID_REGISTER: u8 = 0x07;

/// The sensor's default I2C bus address, as an [`Address`] value.
pub const DEFAULT_ADDRESS: u16 = 0x18;

/// The manufacturer ID every MCP9808 answers, as a [`ManufacturerId`]
/// value.
pub const MANUFACTURER_ID: u16 = 0x54;

/// The device ID every MCP9808 answers, as a [`DeviceId`] value.
pub const DEVICE_ID: u8 = 0x04;

/// Lowest temperature the sensor reports, in sixteenths of a degree.
pub const MIN_TEMPERATURE_SIXTEENTHS: i16 = -640;

/// Highest temperature the sensor reports, in sixteenths of a degree.
pub const MAX_TEMPERATURE_SIXTEENTHS: i16 = 2000;

/// Decodes the ambient temperature register and validates that the value
/// lies in the sensor's operating range of [-40 °C, 125 °C].
pub fn decode_temperature(payload: TemperaturePayload) -> (r: Result<raw::Temperature, Error>)
    ensures
        ({
            let v = raw::spec_temperature_sixteenths(payload@);
            match r {
                Ok(t) => MIN_TEMPERATURE_SIXTEENTHS <= v <= MAX_TEMPERATURE_SIXTEENTHS && t == (
                raw::Temperature { sixteenths: v as i16 }),
                Err(e) => !(MIN_TEMPERATURE_SIXTEENTHS <= v <= MAX_TEMPERATURE_SIXTEENTHS) && e
                    == Error::InvalidTemperature(v as i16),
            }
        }),
{
    proof {
        raw::lemma_temperature_bounds(payload@);
    }
    let temperature = match raw::decode_temperature(payload) {
        Ok(t) => t,
        Err(e) => {
            return Err(e);
        },
    };

    if temperature.sixteenths < MIN_TEMPERATURE_SIXTEENTHS || temperature.sixteenths
        > MAX_TEMPERATURE_SIXTEENTHS {
        return Err(Error::InvalidTemperature(temperature.sixteenths));
    }

    Ok(temperature)
}

/// Decodes the manufacturer ID register.
pub fn decode_manufacturer_id(payload: TemperaturePayload) -> (r: Result<ManufacturerId, Error>)
    ensures
        r == Ok::<ManufacturerId, Error>(
            ManufacturerId(raw::spec_be_u16(payload@) as u16),
        ),
{
    raw::decode_manufacturer_id(payload)
}

/// Decodes the device ID/revision register.
pub fn decode_device_id(payload: DeviceIdPayload) -> (r: Result<(DeviceId, Revision), Error>)
    ensures
        r == Ok::<(DeviceId, Revision), Error>((DeviceId(payload@[0]), Revision(payload@[1]))),
{
    raw::decode_device_id(payload)
}

} // verus!
