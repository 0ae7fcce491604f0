use fan_controller::decode::mcp9808::decode_device_id;
use fan_controller::decode::mcp9808::decode_manufacturer_id;
use fan_controller::decode::mcp9808::decode_temperature;
use fan_controller::decode::mcp9808::raw;
use fan_controller::decode::mcp9808::raw::Temperature;
use fan_controller::decode::mcp9808::DeviceId;
use fan_controller::decode::mcp9808::Error;
use fan_controller::decode::mcp9808::ManufacturerId;
use fan_controller::decode::mcp9808::Revision;
use fan_controller::decode::mcp9808::DEFAULT_ADDRESS;
use fan_controller::decode::mcp9808::DEVICE_ID;
use fan_controller::decode::mcp9808::DEVICE_ID_REGISTER;
use fan_controller::decode::mcp9808::MANUFACTURER_ID;
use fan_controller::decode::mcp9808::MANUFACTURER_ID_REGISTER;
use fan_controller::decode::mcp9808::TEMPERATURE_REGISTER;
use fan_controller::units::ThermodynamicTemperature;

fn assert_temp_eq(payload: [u8; 2], raw_temp: Temperature) {
    assert_eq!(raw_temp, raw::decode_temperature(payload).unwrap());
}

#[test]
fn valid_range() {
    let temp = decode_temperature([0x0, 0x0]).unwrap();
    assert_eq!(temp, Temperature { sixteenths: 0 });
}

#[test]
fn invalid_range() {
    // Sign bit set with a large magnitude: far below -40 °C.
    let temp = decode_temperature([0x1F, 0xF0]);
    assert!(temp.is_err());
    assert_eq!(temp, Err(Error::InvalidTemperature(-4080)));
}

#[test]
fn zero_celsius() {
    assert_temp_eq([0b0000_0000, 0b0000_0000], Temperature { sixteenths: 0 });
}

#[test]
fn slightly_above_zero_celsius() {
    // One sixteenth is 0.0625 °C.
    assert_temp_eq([0b0000_0000, 0b0000_0001], Temperature { sixteenths: 1 });
    assert_temp_eq([0b0000_0000, 0b0000_0010], Temperature { sixteenths: 2 });
    assert_temp_eq([0b0000_0000, 0b0000_1000], Temperature { sixteenths: 8 });
    assert_temp_eq([0b0000_0000, 0b0000_1010], Temperature { sixteenths: 10 });
}

#[test]
fn slightly_below_zero_celsius() {
    assert_temp_eq([0b0001_0000, 0b0000_0001], Temperature { sixteenths: -1 });
    assert_temp_eq([0b0001_0000, 0b0000_0010], Temperature { sixteenths: -2 });
    assert_temp_eq([0b0001_0000, 0b0000_1000], Temperature { sixteenths: -8 });
    assert_temp_eq([0b0001_0000, 0b0000_1010], Temperature { sixteenths: -10 });
}

#[test]
fn above_zero_celsius() {
    // 25.25 °C is 404 sixteenths.
    assert_temp_eq([0b0000_0001, 0b1001_0100], Temperature { sixteenths: 404 });
}

#[test]
fn below_zero_celsius() {
    // Setting the sign bit negates: -25.25 °C.
    assert_temp_eq([0b0001_0001, 0b1001_0100], Temperature { sixteenths: -404 });
}

#[test]
fn standard() {
    let (device_id, revision) = raw::decode_device_id([0x54, 0x0]).unwrap();
    assert_eq!(device_id, DeviceId(0x54));
    assert_eq!(revision, Revision(0x0));
}

#[test]
fn manufacturer_id_is_big_endian() {
    assert_eq!(
        raw::decode_manufacturer_id([0x00, 0x54]),
        Ok(ManufacturerId(0x54))
    );
    assert_eq!(
        decode_manufacturer_id([0x12, 0x34]),
        Ok(ManufacturerId(0x1234))
    );
}

#[test]
fn device_id_validated_matches_raw() {
    assert_eq!(
        decode_device_id([0x54, 0x01]),
        Ok((DeviceId(0x54), Revision(0x01)))
    );
}

#[test]
fn operating_range_boundaries() {
    // -40.0 °C is -640 sixteenths: bytes [0x12, 0x80] (sign, magnitude 640).
    assert_eq!(
        decode_temperature([0x12, 0x80]),
        Ok(Temperature { sixteenths: -640 })
    );
    // One sixteenth colder is rejected.
    assert_eq!(
        decode_temperature([0x12, 0x81]),
        Err(Error::InvalidTemperature(-641))
    );
    // 125.0 °C is 2000 sixteenths: bytes [0x07, 0xD0].
    assert_eq!(
        decode_temperature([0x07, 0xD0]),
        Ok(Temperature { sixteenths: 2000 })
    );
    // One sixteenth hotter is rejected.
    assert_eq!(
        decode_temperature([0x07, 0xD1]),
        Err(Error::InvalidTemperature(2001))
    );
}

#[test]
fn register_map_matches_the_datasheet() {
    assert_eq!(TEMPERATURE_REGISTER, 0x05);
    assert_eq!(MANUFACTURER_ID_REGISTER, 0x06);
    assert_eq!(DEVICE_ID_REGISTER, 0x07);
    assert_eq!(DEFAULT_ADDRESS, 0x18);
}

#[test]
fn known_answer_identification() {
    // A genuine sensor's register contents decode to the known IDs.
    assert_eq!(
        decode_manufacturer_id([0x00, 0x54]),
        Ok(ManufacturerId(MANUFACTURER_ID))
    );
    assert_eq!(
        decode_device_id([0x04, 0x00]),
        Ok((DeviceId(DEVICE_ID), Revision(0x00)))
    );
}

#[test]
fn tenths_conversion_rounds_toward_zero() {
    // 25.25 °C -> 252.5 tenths -> 252.
    assert_eq!(
        Temperature { sixteenths: 404 }.to_tenths_of_degree(),
        ThermodynamicTemperature {
            tenths_of_degree: 252
        }
    );
    assert_eq!(
        Temperature { sixteenths: -404 }.to_tenths_of_degree(),
        ThermodynamicTemperature {
            tenths_of_degree: -252
        }
    );
    assert_eq!(
        Temperature { sixteenths: 0 }.to_tenths_of_degree(),
        ThermodynamicTemperature { tenths_of_degree: 0 }
    );
}
