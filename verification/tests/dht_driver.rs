use fan_controller::decode::dht;
use fan_controller::decode::dht::decode;
use fan_controller::decode::dht::decode_raw;
use fan_controller::dht::classify_pulse;
use fan_controller::dht::Command;
use fan_controller::dht::Dht11;
use fan_controller::dht::Error;
use fan_controller::dht::Event;
use fan_controller::dht::Level;
use fan_controller::dht::Outcome;
use fan_controller::dht::State;
use fan_controller::units::Ratio;
use fan_controller::units::ThermodynamicTemperature;

/// Converts an `i8` to a sign-magnitude byte.
fn from_i8(x: i8) -> u8 {
    let magnitude = x.unsigned_abs();
    if x < 0 {
        magnitude | 0x80
    } else {
        magnitude
    }
}

fn data(humidity_tenths: i16, temperature_tenths: i16) -> dht::Data {
    dht::Data {
        humidity: Ratio {
            tenths_of_percent: humidity_tenths,
        },
        temperature: ThermodynamicTemperature {
            tenths_of_degree: temperature_tenths,
        },
    }
}

#[test]
fn dht_driver_typical_positive_temp() {
    let payload = [0x27, 0x00, 0x14, 0x08, 0x43];
    let raw_data = decode_raw(&payload).unwrap();
    assert_eq!(raw_data.humidity, from_i8(39));
    assert_eq!(raw_data.humidity_frac, 0);
    assert_eq!(raw_data.temperature, from_i8(20));
    assert_eq!(raw_data.temperature_frac, 8);

    // Humidity 39.0%, temperature 20.8 °C.
    assert_eq!(decode(&payload), Ok(data(390, 208)));
}

#[test]
fn dht_driver_typical_negative_temp() {
    let payload = [0x27, 0x00, 0x94, 0x00, 0xbb];
    let raw_data = decode_raw(&payload).unwrap();
    assert_eq!(raw_data.humidity, from_i8(39));
    assert_eq!(raw_data.humidity_frac, 0);
    assert_eq!(raw_data.temperature, from_i8(-20));
    assert_eq!(raw_data.temperature_frac, 0);

    // Humidity 39.0%, temperature -20.0 °C.
    assert_eq!(decode(&payload), Ok(data(390, -200)));
}

#[test]
fn dht_driver_checksum_mismatch() {
    assert_eq!(
        decode(&[0x27, 0x00, 0x14, 0x00, 0x00]),
        Err(dht::Error::ChecksumMismatch {
            expected: 0x00,
            actual: 0x3b
        })
    );

    assert_eq!(
        decode(&[0x27, 0x00, 0x14, 0x00, 0xff]),
        Err(dht::Error::ChecksumMismatch {
            expected: 0xff,
            actual: 0x3b
        })
    );
}

#[test]
fn dht_driver_invalid_humidity() {
    // Check the lower boundary: 0%.
    let payload = [0x00, 0x00, 0x14, 0x00, 0x14];
    let raw_data = decode_raw(&payload).unwrap();
    assert_eq!(raw_data.humidity, from_i8(0));
    assert_eq!(raw_data.humidity_frac, 0);
    assert_eq!(raw_data.temperature, from_i8(20));
    assert_eq!(raw_data.temperature_frac, 0);
    assert_eq!(decode(&payload), Ok(data(0, 200)));

    // Check the upper boundary: 100%.
    let payload = [0x64, 0x00, 0x14, 0x00, 0x78];
    let raw_data = decode_raw(&payload).unwrap();
    assert_eq!(raw_data.humidity, from_i8(100));
    assert_eq!(raw_data.humidity_frac, 0);
    assert_eq!(raw_data.temperature, from_i8(20));
    assert_eq!(raw_data.temperature_frac, 0);
    assert_eq!(decode(&payload), Ok(data(1000, 200)));

    // Check below the lower boundary: -0.1%.
    assert_eq!(
        decode(&[0x80, 0x01, 0x14, 0x00, 0x95]),
        Err(dht::Error::InvalidHumidity(-1))
    );

    // Check above the upper boundary: 100.1%.
    assert_eq!(
        decode(&[0x64, 0x01, 0x14, 0x00, 0x79]),
        Err(dht::Error::InvalidHumidity(1001))
    );
}

#[test]
fn dht_driver_invalid_temperature() {
    // Check the lower boundary: -50.0 °C.
    let payload = [0x14, 0x00, 0xB2, 0x00, 0xc6];
    let raw_data = decode_raw(&payload).unwrap();
    assert_eq!(raw_data.humidity, from_i8(20));
    assert_eq!(raw_data.humidity_frac, 0);
    assert_eq!(raw_data.temperature, from_i8(-50));
    assert_eq!(raw_data.temperature_frac, 0);
    assert_eq!(decode(&payload), Ok(data(200, -500)));

    // Check the upper boundary: 50.0 °C.
    let payload = [0x14, 0x00, 0x32, 0x00, 0x46];
    let raw_data = decode_raw(&payload).unwrap();
    assert_eq!(raw_data.humidity, from_i8(20));
    assert_eq!(raw_data.humidity_frac, 0);
    assert_eq!(raw_data.temperature, from_i8(50));
    assert_eq!(raw_data.temperature_frac, 0);
    assert_eq!(decode(&payload), Ok(data(200, 500)));

    // Check below the lower boundary: -50.1 °C.
    assert_eq!(
        decode(&[0x14, 0x00, 0xB2, 0x01, 0xc7]),
        Err(dht::Error::InvalidTemperature(-501))
    );

    // Check above the upper boundary: 50.1 °C.
    assert_eq!(
        decode(&[0x14, 0x00, 0x32, 0x01, 0x47]),
        Err(dht::Error::InvalidTemperature(501))
    );
}

/// Drives the machine through the wake pulse and handshake.
fn handshake(driver: &mut Dht11) {
    let cmd = driver.begin();
    assert_eq!(cmd, Command::DriveLow { hold_us: 18_000 });

    let r = driver.step(Event::HoldElapsed);
    assert_eq!(r, Outcome::Next(Command::DriveHigh { hold_us: 40 }));

    let r = driver.step(Event::HoldElapsed);
    assert_eq!(
        r,
        Outcome::Next(Command::WaitFor {
            level: Level::High,
            timeout_us: 90
        })
    );

    // ACK seen after 78 μs.
    let r = driver.step(Event::LineReached { elapsed_us: 78 });
    assert_eq!(
        r,
        Outcome::Next(Command::WaitFor {
            level: Level::Low,
            timeout_us: 90
        })
    );

    // READY seen after 81 μs.
    let r = driver.step(Event::LineReached { elapsed_us: 81 });
    assert_eq!(
        r,
        Outcome::Next(Command::WaitFor {
            level: Level::High,
            timeout_us: 55
        })
    );
}

/// Feeds one payload bit: the start-of-transmission marker, then a high
/// pulse of the given duration.
fn feed_bit(driver: &mut Dht11, pulse_us: u64) -> Outcome {
    let r = driver.step(Event::LineReached { elapsed_us: 48 });
    assert_eq!(
        r,
        Outcome::Next(Command::WaitFor {
            level: Level::Low,
            timeout_us: 80
        })
    );
    driver.step(Event::LineReached {
        elapsed_us: pulse_us,
    })
}

/// Feeds a whole five-byte payload, most significant bit first, and
/// returns the machine's final outcome.
fn feed_payload(driver: &mut Dht11, payload: [u8; 5]) -> Outcome {
    let mut last = Outcome::Failed(Error::Timeout);
    for (i, byte) in payload.iter().enumerate() {
        for bit in 0..8 {
            let one = *byte & (0x80u8 >> bit) != 0;
            let pulse = if one { 70 } else { 28 };
            last = feed_bit(driver, pulse);
            if i < 4 || bit < 7 {
                assert_eq!(
                    last,
                    Outcome::Next(Command::WaitFor {
                        level: Level::High,
                        timeout_us: 55
                    })
                );
            }
        }
    }
    last
}

#[test]
fn dht_driver_reads_a_full_payload() {
    let mut driver = Dht11::new();
    assert_eq!(driver.state, State::Idle);

    handshake(&mut driver);
    let outcome = feed_payload(&mut driver, [0x27, 0x03, 0x14, 0x08, 0x46]);

    assert_eq!(outcome, Outcome::Complete(data(393, 208)));
    assert_eq!(driver.state, State::Idle);
}

#[test]
fn dht_driver_reads_are_repeatable() {
    // Two identical reads through the same machine decode identically:
    // nothing carries over between attempts.
    let mut driver = Dht11::new();
    handshake(&mut driver);
    let first = feed_payload(&mut driver, [0x27, 0x00, 0x94, 0x00, 0xbb]);
    handshake(&mut driver);
    let second = feed_payload(&mut driver, [0x27, 0x00, 0x94, 0x00, 0xbb]);
    assert_eq!(first, second);
    assert_eq!(first, Outcome::Complete(data(390, -200)));
}

#[test]
fn dht_driver_not_present() {
    let mut driver = Dht11::new();
    driver.begin();
    driver.step(Event::HoldElapsed);
    driver.step(Event::HoldElapsed);

    // No acknowledge within the timeout.
    let r = driver.step(Event::WaitTimedOut);
    assert_eq!(r, Outcome::Failed(Error::NotPresent));
    assert_eq!(driver.state, State::Idle);
}

#[test]
fn dht_driver_ready_not_seen() {
    let mut driver = Dht11::new();
    driver.begin();
    driver.step(Event::HoldElapsed);
    driver.step(Event::HoldElapsed);
    driver.step(Event::LineReached { elapsed_us: 78 });

    // Acknowledged, but never pulled low again.
    let r = driver.step(Event::WaitTimedOut);
    assert_eq!(r, Outcome::Failed(Error::NotPresent));
    assert_eq!(driver.state, State::Idle);
}

#[test]
fn dht_driver_timeout_during_bits() {
    let mut driver = Dht11::new();
    handshake(&mut driver);
    feed_bit(&mut driver, 28);

    // The next bit's start marker never comes.
    let r = driver.step(Event::WaitTimedOut);
    assert_eq!(r, Outcome::Failed(Error::Timeout));
    assert_eq!(driver.state, State::Idle);
}

#[test]
fn dht_driver_suspect_bit() {
    let mut driver = Dht11::new();
    handshake(&mut driver);

    // A high pulse outside both bands.
    let r = feed_bit(&mut driver, 81);
    assert_eq!(r, Outcome::Failed(Error::SuspectBit));
    assert_eq!(driver.state, State::Idle);
}

#[test]
fn dht_driver_reports_decode_errors() {
    let mut driver = Dht11::new();
    handshake(&mut driver);
    let outcome = feed_payload(&mut driver, [0x27, 0x00, 0x14, 0x00, 0x00]);
    assert_eq!(
        outcome,
        Outcome::Failed(Error::DecodeError(dht::Error::ChecksumMismatch {
            expected: 0x00,
            actual: 0x3b
        }))
    );
    assert_eq!(driver.state, State::Idle);
}

#[test]
fn dht_driver_classifies_pulses() {
    assert_eq!(classify_pulse(0), Ok(false));
    assert_eq!(classify_pulse(28), Ok(false));
    assert_eq!(classify_pulse(40), Ok(false));
    assert_eq!(classify_pulse(41), Ok(true));
    assert_eq!(classify_pulse(70), Ok(true));
    assert_eq!(classify_pulse(80), Ok(true));
    assert_eq!(classify_pulse(81), Err(Error::SuspectBit));
}
