//! Structural decoders for MCP9808 register payloads.
//!
//! # Temperature register encoding
//!
//! The ambient temperature register is sixteen bits, most significant bit
//! first:
//!
//! ```txt
//!  0                   1
//!  0 1 2 3 4 5 6 7 8 9 0 1 2 3 4 5
//! +-+-+-+-+-+-+-+-+-+-+-+-+-+-+-+-+
//! |flags|S|      magnitude        |
//! +-+-+-+-+-+-+-+-+-+-+-+-+-+-+-+-+
//! ```
//!
//! Bit 3 (`S`) is the sign and bits 4 through 15 are a 12-bit magnitude in
//! Q4 fixed point, so one unit is 1/16 °C. The top three bits are alarm
//! flags and are ignored here. The other registers are plain big-endian
//! unsigned fields.

use vstd::prelude::*;

use crate::decode::mcp9808::DeviceId;
use crate::decode::mcp9808::DeviceIdPayload;
use crate::decode::mcp9808::Error;
use crate::decode::mcp9808::ManufacturerId;
use crate::decode::mcp9808::ManufacturerIdPayload;
use crate::decode::mcp9808::Revision;
use crate::decode::mcp9808::TemperaturePayload;
use crate::units::ThermodynamicTemperature;

verus! {

/// A temperature in sixteenths of a degree Celsius (Q4 fixed point), so
/// `404` means 25.25 °C.
#[derive(Clone, Copy, Debug, Default, PartialEq, Eq, Structural)]
pub struct Temperature {
    pub sixteenths: i16,
}

/// The 12-bit Q4 magnitude of a temperature payload, in sixteenths of a
/// degree.
pub open spec fn spec_magnitude_sixteenths(b: Seq<u8>) -> int
    recommends
        b.len() == 2,
{
    (b[0] & 0x0f) * 256 + b[1]
}

/// The signed value of a temperature payload, in sixteenths of a degree:
/// the magnitude, negated when the sign bit is set.
pub open spec fn spec_temperature_sixteenths(b: Seq<u8>) -> int
    recommends
        b.len() == 2,
{
    if b[0] & 0x10 == 0x10 {
        -spec_magnitude_sixteenths(b)
    } else {
        spec_magnitude_sixteenths(b)
    }
}

/// The big-endian unsigned value of a two-byte payload.
pub open spec fn spec_be_u16(b: Seq<u8>) -> int
    recommends
        b.len() == 2,
{
    b[0] * 256 + b[1]
}

/// A temperature in tenths of a degree, rounded toward zero from
/// sixteenths.
pub open spec fn spec_tenths_of_sixteenths(sixteenths: int) -> int {
    if sixteenths >= 0 {
        sixteenths * 10 / 16
    } else {
        -((-sixteenths) * 10 / 16)
    }
}

impl Temperature {
    /// The temperature in tenths of a degree Celsius, rounded toward zero.
    /// This is the resolution shared with the single-wire sensor and used
    /// by the fan curve.
    pub fn to_tenths_of_degree(&self) -> (r: ThermodynamicTemperature)
        ensures
            r.tenths_of_degree == spec_tenths_of_sixteenths(self.sixteenths as int),
    {
        let wide: i32 = self.sixteenths as i32;
        if wide >= 0 {
            ThermodynamicTemperature { tenths_of_degree: (wide * 10 / 16) as i16 }
        } else {
            ThermodynamicTemperature { tenths_of_degree: (-((-wide) * 10 / 16)) as i16 }
        }
    }
}

/// Decodes the ambient temperature register into sixteenths of a degree:
/// sign bit 3 applied to the 12-bit Q4 magnitude in bits 4 through 15.
pub fn decode_temperature(payload: TemperaturePayload) -> (r: Result<Temperature, Error>)
    ensures
        r == Ok::<Temperature, Error>(
            Temperature { sixteenths: spec_temperature_sixteenths(payload@) as i16 },
        ),
{
    let b0 = payload[0];
    let b1 = payload[1];
    proof {
        assert(b0 & 0x0f <= 0x0f) by (bit_vector);
    }
    let magnitude: u16 = ((b0 & 0x0f) as u16) * 256 + b1 as u16;
    let sixteenths: i16 = if b0 & 0x10 == 0x10 {
        -(magnitude as i16)
    } else {
        magnitude as i16
    };
    Ok(Temperature { sixteenths })
}

/// Decodes the manufacturer ID register as a big-endian unsigned value.
pub fn decode_manufacturer_id(payload: ManufacturerIdPayload) -> (r: Result<ManufacturerId, Error>)
    ensures
        r == Ok::<ManufacturerId, Error>(ManufacturerId(spec_be_u16(payload@) as u16)),
{
    Ok(ManufacturerId((payload[0] as u16) * 256 + payload[1] as u16))
}

/// Decodes the device ID/revision register as two adjacent bytes.
pub fn decode_device_id(payload: DeviceIdPayload) -> (r: Result<(DeviceId, Revision), Error>)
    ensures
        r == Ok::<(DeviceId, Revision), Error>((DeviceId(payload@[0]), Revision(payload@[1]))),
{
    Ok((DeviceId(payload[0]), Revision(payload[1])))
}

/// The decoded temperature is a 12-bit magnitude with a sign, so it lies
/// in [-4095, 4095] sixteenths.
pub proof fn lemma_temperature_bounds(b: Seq<u8>)
    requires
        b.len() == 2,
    ensures
        -4095 <= spec_temperature_sixteenths(b) <= 4095,
{
    let b0 = b[0];
    assert(b0 & 0x0f <= 0x0f) by (bit_vector);
}

/// Setting the sign bit of a temperature payload negates the decoded
/// value and changes nothing else.
pub proof fn lemma_sign_bit_negates(b0: u8, b1: u8)
    requires
        b0 & 0x10 == 0,
    ensures
        spec_temperature_sixteenths(seq![b0 | 0x10, b1]) == -spec_temperature_sixteenths(
            seq![b0, b1],
        ),
{
    let c0 = b0 | 0x10;
    assert(c0 & 0x0f == b0 & 0x0f && c0 & 0x10 == 0x10) by (bit_vector)
        requires
            c0 == b0 | 0x10,
    ;
}

} // verus!
