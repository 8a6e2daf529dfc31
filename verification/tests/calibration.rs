use plant_telemetry::calibration::{calibrate_light, calibrate_moisture};
use plant_telemetry::sensor::soil_humidity_sensor::{CalibrationError, SoilMoistureSensor};

fn percent(raw: i16, wet: i16, dry: i16) -> f32 {
    calibrate_moisture(raw, wet, dry).hundredths() as f32 / 100.0
}

#[test]
fn moisture_round_trip() {
    assert_eq!(percent(900, 900, 2500), 100.0);
    assert_eq!(percent(2500, 900, 2500), 0.0);
    assert!((percent(1700, 900, 2500) - 50.0).abs() <= 0.1);
    assert_eq!(calibrate_moisture(1700, 900, 2500).hundredths(), 5_000);
}

#[test]
fn moisture_is_rounded_to_the_nearest_hundredth() {
    // 1499 / 1600 = 93.6875 %
    assert_eq!(calibrate_moisture(1001, 900, 2500).hundredths(), 9_369);
    // 1 / 3 = 33.333.. %
    assert_eq!(calibrate_moisture(2, 0, 3).hundredths(), 3_333);
    // 2 / 3 = 66.666.. %
    assert_eq!(calibrate_moisture(1, 0, 3).hundredths(), 6_667);
    // 1 / 8 = 12.5 %, 1 / 16 = 6.25 %, 1 / 32 = 3.125 %: a tie goes up
    assert_eq!(calibrate_moisture(7, 0, 8).hundredths(), 1_250);
    assert_eq!(calibrate_moisture(15, 0, 16).hundredths(), 625);
    assert_eq!(calibrate_moisture(31, 0, 32).hundredths(), 313);
}

#[test]
fn moisture_is_clamped_beyond_the_bounds() {
    assert_eq!(calibrate_moisture(899, 900, 2500).hundredths(), 10_000);
    assert_eq!(calibrate_moisture(0, 900, 2500).hundredths(), 10_000);
    assert_eq!(calibrate_moisture(i16::MIN, 900, 2500).hundredths(), 10_000);
    assert_eq!(calibrate_moisture(2501, 900, 2500).hundredths(), 0);
    assert_eq!(calibrate_moisture(i16::MAX, 900, 2500).hundredths(), 0);
}

#[test]
fn moisture_with_inverted_bounds() {
    // The probe reads higher in water than in air.
    assert_eq!(calibrate_moisture(2500, 2500, 900).hundredths(), 10_000);
    assert_eq!(calibrate_moisture(900, 2500, 900).hundredths(), 0);
    assert_eq!(calibrate_moisture(1700, 2500, 900).hundredths(), 5_000);
    assert_eq!(calibrate_moisture(2600, 2500, 900).hundredths(), 10_000);
    assert_eq!(calibrate_moisture(800, 2500, 900).hundredths(), 0);
    assert_eq!(calibrate_moisture(1000, 2500, 900).hundredths(), 625);
}

#[test]
fn moisture_with_extreme_bounds() {
    assert_eq!(calibrate_moisture(0, i16::MIN, i16::MAX).hundredths(), 5_000);
    // 32867 / 65535 = 50.1518.. %
    assert_eq!(calibrate_moisture(-100, i16::MIN, i16::MAX).hundredths(), 5_015);
    assert_eq!(calibrate_moisture(i16::MIN, i16::MIN, i16::MAX).hundredths(), 10_000);
    assert_eq!(calibrate_moisture(i16::MAX, i16::MIN, i16::MAX).hundredths(), 0);
    assert_eq!(calibrate_moisture(0, i16::MAX, i16::MIN).hundredths(), 5_000);
}

#[test]
fn moisture_never_rises_with_the_count() {
    let mut last = 10_000;
    let mut raw: i16 = 800;
    while raw <= 2600 {
        let now = calibrate_moisture(raw, 900, 2500).hundredths();
        assert!(now <= last, "raw {raw}: {now} after {last}");
        assert!((0..=10_000).contains(&now));
        last = now;
        raw += 1;
    }
    assert_eq!(last, 0);
}

#[test]
fn moisture_matches_the_formula_in_floating_point() {
    let mut raw: i16 = -100;
    while raw <= 4000 {
        let exact = ((2500.0 - raw as f64) / 1600.0 * 100.0).clamp(0.0, 100.0);
        let got = calibrate_moisture(raw, 900, 2500).hundredths() as f64 / 100.0;
        assert!((got - exact).abs() <= 0.005 + 1e-9, "raw {raw}: {got} for {exact}");
        raw += 1;
    }
}

#[test]
fn light_of_nothing_is_zero() {
    assert_eq!(calibrate_light(0).hundredths(), 0);
}

#[test]
fn light_is_the_count_over_one_point_two() {
    assert_eq!(calibrate_light(3).hundredths(), 250);
    assert_eq!(calibrate_light(6).hundredths(), 500);
    assert_eq!(calibrate_light(12).hundredths(), 1_000);
    assert_eq!(calibrate_light(1).hundredths(), 83);
    assert_eq!(calibrate_light(2).hundredths(), 167);
    assert_eq!(calibrate_light(412).hundredths(), 34_333);
    assert_eq!(calibrate_light(u16::MAX).hundredths(), 5_461_250);
}

#[test]
fn light_is_linear_to_the_hundredth() {
    let mut a: u16 = 0;
    while a < 600 {
        let mut b: u16 = 0;
        while b < 600 {
            let sum = calibrate_light(a + b).hundredths();
            let parts = calibrate_light(a).hundredths() + calibrate_light(b).hundredths();
            assert!((sum - parts).abs() <= 1);
            if a % 3 == 0 && b % 3 == 0 {
                assert_eq!(sum, parts);
            }
            b += 7;
        }
        a += 1;
    }
}

#[test]
fn light_matches_the_division_in_floating_point() {
    let mut raw: u32 = 0;
    while raw <= 65_535 {
        let exact = raw as f64 / 1.2;
        let got = calibrate_light(raw as u16).hundredths() as f64 / 100.0;
        assert!((got - exact).abs() <= 0.005 + 1e-9, "raw {raw}: {got} for {exact}");
        raw += 1;
    }
}

#[test]
fn degenerate_calibration_is_refused() {
    assert_eq!(SoilMoistureSensor::new(900, 900).err(), Some(CalibrationError::DegenerateBounds));
    assert_eq!(SoilMoistureSensor::new(0, 0).err(), Some(CalibrationError::DegenerateBounds));
    assert_eq!(
        SoilMoistureSensor::new(i16::MIN, i16::MIN).err(),
        Some(CalibrationError::DegenerateBounds)
    );
    assert!(SoilMoistureSensor::new(900, 2500).is_ok());
    assert!(SoilMoistureSensor::new(2500, 900).is_ok());
    assert!(SoilMoistureSensor::new(900, 901).is_ok());
}
