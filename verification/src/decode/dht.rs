//! DHT11 temperature and humidity payload decoder.
//!
//! # Encoding
//!
//! A DHT11 payload is five bytes, most significant bit first:
//!
//! ```txt
//!  0                   1
//!  0 1 2 3 4 5 6 7 8 9 0 1 2 3 4 5
//! +-+-+-+-+-+-+-+-+-+-+-+-+-+-+-+-+
//! |  Humidity int | Humidity frac |
//! +-+-+-+-+-+-+-+-+-+-+-+-+-+-+-+-+
//! |    Temp int   |   Temp frac   |
//! +-+-+-+-+-+-+-+-+-+-+-+-+-+-+-+-+
//! |    Checksum   |
//! +-+-+-+-+-+-+-+-+
//! ```
//!
//! Each integer byte is sign-magnitude: its top bit is the sign and the
//! remaining seven bits are the integer magnitude. The fractional byte
//! counts tenths. The checksum byte equals the wrapping sum of the other
//! four bytes.
//!
//! A value therefore decodes to `sign * (integer * 10 + fractional)` tenths,
//! and decoding is a pure function of the payload: it either yields a
//! humidity in [0%, 100%] and a temperature in [-50 °C, 50 °C], or reports
//! exactly why the payload was rejected.

use vstd::prelude::*;

use crate::units::Ratio;
use crate::units::ThermodynamicTemperature;

verus! {

/// A decoding error for a DHT11 payload.
#[derive(Clone, Copy, Debug, PartialEq, Eq, Structural)]
pub enum Error {
    /// The checksum byte does not equal the wrapping sum of the other four.
    ChecksumMismatch { expected: u8, actual: u8 },
    /// The decoded temperature, in tenths of a degree Celsius, lies outside
    /// [-50 °C, 50 °C].
    InvalidTemperature(i16),
    /// The decoded humidity, in tenths of a percent, lies outside
    /// [0%, 100%].
    InvalidHumidity(i16),
}

/// A decoded DHT11 reading.
#[derive(Clone, Copy, Debug, Default, PartialEq, Eq, Structural)]
pub struct Data {
    /// Current humidity.
    pub humidity: Ratio,
    /// Current temperature.
    pub temperature: ThermodynamicTemperature,
}

/// The four payload fields, before sign-magnitude interpretation.
#[derive(Clone, Copy, Debug, Default, PartialEq, Eq, Structural)]
pub struct RawData {
    pub humidity: u8,
    pub humidity_frac: u8,
    pub temperature: u8,
    pub temperature_frac: u8,
}

/// The checksum a five-byte payload should carry: the wrapping sum of its
/// first four bytes.
pub open spec fn spec_checksum(b: Seq<u8>) -> u8
    recommends
        b.len() == 5,
{
    (((b[0] + b[1] + b[2] + b[3]) % 256) as u8)
}

/// The value, in tenths, of a sign-magnitude integer byte paired with a
/// fractional byte counting tenths.
pub open spec fn spec_sign_magnitude_tenths(int_byte: u8, frac_byte: u8) -> int {
    if int_byte & 0x80 == 0x80 {
        -((int_byte & 0x7f) * 10 + frac_byte)
    } else {
        (int_byte & 0x7f) * 10 + frac_byte
    }
}

/// What a five-byte payload decodes to: the checksum is checked first, then
/// the humidity range, then the temperature range.
pub open spec fn spec_decode(b: Seq<u8>) -> Result<Data, Error>
    recommends
        b.len() == 5,
{
    if spec_checksum(b) != b[4] {
        Err(Error::ChecksumMismatch { expected: b[4], actual: spec_checksum(b) })
    } else {
        let humidity = spec_sign_magnitude_tenths(b[0], b[1]);
        let temperature = spec_sign_magnitude_tenths(b[2], b[3]);
        if !(0 <= humidity <= 1000) {
            Err(Error::InvalidHumidity(humidity as i16))
        } else if !(-500 <= temperature <= 500) {
            Err(Error::InvalidTemperature(temperature as i16))
        } else {
            Ok(
                Data {
                    humidity: Ratio { tenths_of_percent: humidity as i16 },
                    temperature: ThermodynamicTemperature { tenths_of_degree: temperature as i16 },
                },
            )
        }
    }
}

/// Splits a payload into its four fields after validating the checksum.
pub fn decode_raw(data: &[u8; 5]) -> (r: Result<RawData, Error>)
    ensures
        match r {
            Ok(raw) => spec_checksum(data@) == data@[4] && raw == (RawData {
                humidity: data@[0],
                humidity_frac: data@[1],
                temperature: data@[2],
                temperature_frac: data@[3],
            }),
            Err(e) => spec_checksum(data@) != data@[4] && e == (Error::ChecksumMismatch {
                expected: data@[4],
                actual: spec_checksum(data@),
            }),
        },
{
    let sum: u16 = data[0] as u16 + data[1] as u16 + data[2] as u16 + data[3] as u16;
    let actual: u8 = (sum % 256) as u8;
    let expected: u8 = data[4];

    if actual != expected {
        return Err(Error::ChecksumMismatch { expected, actual });
    }

    Ok(
        RawData {
            humidity: data[0],
            humidity_frac: data[1],
            temperature: data[2],
            temperature_frac: data[3],
        },
    )
}

/// Combines a sign-magnitude integer byte with a tenths byte.
fn sign_magnitude_tenths(int_byte: u8, frac_byte: u8) -> (r: i16)
    ensures
        r == spec_sign_magnitude_tenths(int_byte, frac_byte),
{
    proof {
        assert(int_byte & 0x7f <= 0x7f) by (bit_vector);
    }
    let magnitude: u16 = ((int_byte & 0x7f) as u16) * 10 + frac_byte as u16;
    if int_byte & 0x80 == 0x80 {
        -(magnitude as i16)
    } else {
        magnitude as i16
    }
}

/// Decodes a DHT11 payload into a humidity and temperature reading.
pub fn decode(data: &[u8; 5]) -> (r: Result<Data, Error>)
    ensures
        r == spec_decode(data@),
{
    let raw = match decode_raw(data) {
        Ok(raw) => raw,
        Err(e) => {
            return Err(e);
        },
    };

    let humidity = sign_magnitude_tenths(raw.humidity, raw.humidity_frac);
    let temperature = sign_magnitude_tenths(raw.temperature, raw.temperature_frac);

    if humidity < 0 || humidity > 1000 {
        return Err(Error::InvalidHumidity(humidity));
    }

    if temperature < -500 || temperature > 500 {
        return Err(Error::InvalidTemperature(temperature));
    }

    Ok(
        Data {
            humidity: Ratio { tenths_of_percent: humidity },
            temperature: ThermodynamicTemperature { tenths_of_degree: temperature },
        },
    )
}

/// Decoding has no hidden state: equal payloads decode to equal results.
pub proof fn lemma_decode_deterministic(a: Seq<u8>, b: Seq<u8>)
    requires
        a == b,
    ensures
        spec_decode(a) == spec_decode(b),
{
}

} // verus!
