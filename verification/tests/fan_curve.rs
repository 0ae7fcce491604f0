use fan_controller::decode::fan;
use fan_controller::fan_curve::Error;
use fan_controller::fan_curve::FanCurve;
use fan_controller::fan_curve::Knot;
use fan_controller::units::Ratio;
use fan_controller::units::ThermodynamicTemperature;

fn knot(temperature_tenths: i16, speed_tenths: i16) -> Knot {
    Knot {
        temperature: ThermodynamicTemperature {
            tenths_of_degree: temperature_tenths,
        },
        speed: Ratio {
            tenths_of_percent: speed_tenths,
        },
    }
}

fn sample_tenths(curve: &FanCurve, temperature_tenths: i16) -> i16 {
    curve
        .sample(ThermodynamicTemperature {
            tenths_of_degree: temperature_tenths,
        })
        .unwrap()
        .get()
        .tenths_of_percent
}

#[test]
fn sample_curve() {
    let curve = FanCurve::new().unwrap();

    let actual_samples: Vec<i16> = (0..=100)
        .step_by(10)
        .map(|celsius| sample_tenths(&curve, celsius * 10))
        .collect();

    // In tenths of a percent: 30% below the first knot, linear up to 100%
    // at 65 °C, clamped beyond.
    let expected_samples = [300, 300, 300, 455, 611, 766, 922, 1000, 1000, 1000];

    for (actual, expected) in actual_samples.into_iter().zip(expected_samples) {
        assert_eq!(actual, expected);
    }
}

#[test]
fn sample_clamps_at_both_ends() {
    // For knots (20 °C, 30%) and (65 °C, 100%): sampling below the first
    // knot equals sampling at it, and likewise above the last.
    let curve = FanCurve::new().unwrap();
    assert_eq!(sample_tenths(&curve, 0), sample_tenths(&curve, 200));
    assert_eq!(sample_tenths(&curve, 1000), sample_tenths(&curve, 650));
    assert_eq!(sample_tenths(&curve, -3000), 300);
    assert_eq!(sample_tenths(&curve, 3000), 1000);
}

#[test]
fn sample_is_monotonic_across_the_knots() {
    let curve = FanCurve::new().unwrap();
    let mut previous = sample_tenths(&curve, 200);
    let mut t = 200;
    while t <= 650 {
        let current = sample_tenths(&curve, t);
        assert!(previous <= current);
        previous = current;
        t += 1;
    }
}

#[test]
fn interpolation_hits_the_knots_exactly() {
    let curve = FanCurve::from_knots(vec![knot(100, 200), knot(200, 800), knot(400, 500)])
        .unwrap();
    assert_eq!(sample_tenths(&curve, 100), 200);
    assert_eq!(sample_tenths(&curve, 200), 800);
    assert_eq!(sample_tenths(&curve, 400), 500);
    // Midway down the falling segment: 800 - 100*300/200 = 650.
    assert_eq!(sample_tenths(&curve, 300), 650);
}

#[test]
fn too_few_knots_are_rejected() {
    assert!(matches!(
        FanCurve::from_knots(vec![]),
        Err(Error::SplineError)
    ));
    assert!(matches!(
        FanCurve::from_knots(vec![knot(200, 300)]),
        Err(Error::SplineError)
    ));
}

#[test]
fn unsorted_knots_are_rejected() {
    assert!(matches!(
        FanCurve::from_knots(vec![knot(650, 1000), knot(200, 300)]),
        Err(Error::SplineError)
    ));
}

#[test]
fn duplicate_knots_are_rejected() {
    assert!(matches!(
        FanCurve::from_knots(vec![knot(200, 300), knot(200, 1000)]),
        Err(Error::SplineError)
    ));
}

#[test]
fn out_of_range_speeds_are_rejected() {
    assert_eq!(
        FanCurve::from_knots(vec![knot(200, 300), knot(650, 1001)]).err(),
        Some(Error::FanDecodeError(fan::Error::InvalidPower(1001)))
    );
    assert_eq!(
        FanCurve::from_knots(vec![knot(200, -1), knot(650, 1000)]).err(),
        Some(Error::FanDecodeError(fan::Error::InvalidPower(-1)))
    );
}

#[test]
fn default_equals_new() {
    let from_default = FanCurve::default();
    let from_new = FanCurve::new().unwrap();
    for t in [-100, 0, 200, 300, 450, 650, 900] {
        assert_eq!(sample_tenths(&from_default, t), sample_tenths(&from_new, t));
    }
}
