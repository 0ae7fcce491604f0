use fan_controller::decode::fan::RpPwmConfig;
use fan_controller::decode::mcp9808;
use fan_controller::fan_control::Error;
use fan_controller::fan_control::FanControl;
use fan_controller::fan_curve::FanCurve;
use fan_controller::units::Frequency;

fn controller() -> FanControl {
    FanControl::new(FanCurve::new().unwrap())
}

fn clock() -> Frequency {
    Frequency::from_hertz(125_000_000)
}

#[test]
fn update_follows_the_curve() {
    // 25.25 C = 404 sixteenths = 252 tenths; the default curve gives
    // 300 + 52 * 700 / 450 = 380 tenths of a percent, and the PWM compare
    // level is 5000 * 380 / 1000 = 1900.
    let r = controller().update([0b0000_0001, 0b1001_0100], clock());
    assert_eq!(
        r,
        Ok(RpPwmConfig {
            top: 5000,
            compare: 1900,
        })
    );
}

#[test]
fn update_clamps_cold_and_hot_readings() {
    // 0 C: below the first knot, 30% of 5000.
    assert_eq!(
        controller().update([0x00, 0x00], clock()),
        Ok(RpPwmConfig {
            top: 5000,
            compare: 1500,
        })
    );
    // 100 C (1600 sixteenths, bytes [0x06, 0x40]): above the last knot,
    // full speed.
    assert_eq!(
        controller().update([0x06, 0x40], clock()),
        Ok(RpPwmConfig {
            top: 5000,
            compare: 5000,
        })
    );
}

#[test]
fn update_propagates_sensor_errors() {
    // A reading far below the sensor's operating range aborts the cycle.
    assert_eq!(
        controller().update([0x1F, 0xF0], clock()),
        Err(Error::TempSensorError(
            mcp9808::Error::InvalidTemperature(-4080)
        ))
    );
}

#[test]
fn update_is_stateless_across_cycles() {
    // A failed cycle leaves no trace: the next one behaves as if fresh.
    let control = controller();
    assert!(control.update([0x1F, 0xF0], clock()).is_err());
    assert_eq!(
        control.update([0b0000_0001, 0b1001_0100], clock()),
        Ok(RpPwmConfig {
            top: 5000,
            compare: 1900,
        })
    );
}
