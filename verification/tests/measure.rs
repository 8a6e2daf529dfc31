use plant_telemetry::measure::Measure;

#[test]
fn two_decimals() {
    assert_eq!(Measure::from_hundredths(5_000).fixed2(), "50.00");
    assert_eq!(Measure::from_hundredths(34_310).fixed2(), "343.10");
    assert_eq!(Measure::from_hundredths(1_205).fixed2(), "12.05");
    assert_eq!(Measure::from_hundredths(0).fixed2(), "0.00");
    assert_eq!(Measure::from_hundredths(7).fixed2(), "0.07");
    assert_eq!(Measure::from_hundredths(70).fixed2(), "0.70");
    assert_eq!(Measure::from_hundredths(10_000).fixed2(), "100.00");
    assert_eq!(Measure::from_hundredths(5_461_250).fixed2(), "54612.50");
}

#[test]
fn two_decimals_below_zero() {
    assert_eq!(Measure::from_hundredths(-5).fixed2(), "-0.05");
    assert_eq!(Measure::from_hundredths(-1_250).fixed2(), "-12.50");
    assert_eq!(Measure::from_hundredths(i32::MIN).fixed2(), "-21474836.48");
    assert_eq!(Measure::from_hundredths(i32::MAX).fixed2(), "21474836.47");
}

#[test]
fn two_decimals_agree_with_the_float_format() {
    let mut h: i32 = -30_000;
    while h <= 30_000 {
        let text = Measure::from_hundredths(h).fixed2();
        let parsed: f64 = text.parse().unwrap();
        assert_eq!((parsed * 100.0).round() as i32, h, "{text}");
        assert_eq!(text.split('.').nth(1).unwrap().len(), 2);
        h += 1;
    }
}

#[test]
fn compact_keeps_one_decimal() {
    assert_eq!(Measure::from_hundredths(5_000).compact(), "50.0");
    assert_eq!(Measure::from_hundredths(34_310).compact(), "343.1");
    assert_eq!(Measure::from_hundredths(1_205).compact(), "12.05");
    assert_eq!(Measure::from_hundredths(0).compact(), "0.0");
    assert_eq!(Measure::from_hundredths(7).compact(), "0.07");
    assert_eq!(Measure::from_hundredths(-7).compact(), "-0.07");
    assert_eq!(Measure::from_hundredths(-1_250).compact(), "-12.5");
    assert_eq!(Measure::from_hundredths(i32::MIN).compact(), "-21474836.48");
}

#[test]
fn compact_reads_back() {
    let mut h: i32 = -30_000;
    while h <= 30_000 {
        let text = Measure::from_hundredths(h).compact();
        let parsed: f64 = text.parse().unwrap();
        assert_eq!((parsed * 100.0).round() as i32, h, "{text}");
        assert!(text.contains('.'));
        h += 1;
    }
}

#[test]
fn zero_and_accessors() {
    assert_eq!(Measure::zero(), Measure::from_hundredths(0));
    assert_eq!(Measure::from_hundredths(-42).hundredths(), -42);
    assert_eq!(Measure { hundredths: 17 }, Measure::from_hundredths(17));
}
