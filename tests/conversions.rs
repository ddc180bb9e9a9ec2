use sht40::common::{Measurement, TemperatureUnit, Unvalidated};
use sht40::error::Error;
use sht40::fixed_point::{
    humidity_reading_to_percent_rh, temperature_reading_to_celsius,
    temperature_reading_to_fahrenheit, FixedPoint,
};

const ONE: i32 = 0x1_0000;

fn value(x: FixedPoint) -> f64 {
    x.to_bits() as f64 / 65536.0
}

#[test]
fn celsius_boundaries() {
    assert_eq!(temperature_reading_to_celsius(0).bits, -45 * ONE);
    assert_eq!(temperature_reading_to_celsius(65535).bits, 130 * ONE);
}

#[test]
fn fahrenheit_boundaries() {
    assert_eq!(temperature_reading_to_fahrenheit(0).bits, -49 * ONE);
    assert_eq!(temperature_reading_to_fahrenheit(65535).bits, 266 * ONE);
}

#[test]
fn humidity_is_clamped() {
    assert_eq!(humidity_reading_to_percent_rh(0).bits, 0);
    assert_eq!(humidity_reading_to_percent_rh(65535).bits, 100 * ONE);
    assert_eq!(humidity_reading_to_percent_rh(3145).bits, 0);
    assert_eq!(humidity_reading_to_percent_rh(62914).bits, 100 * ONE);
}

#[test]
fn exact_fixed_point_values() {
    // 0x1234 is 4660; 4660 * 65536 / 65535 rounds down to 4660.
    assert_eq!(temperature_reading_to_celsius(0x1234).bits, -45 * ONE + 175 * 4660);
    assert_eq!(temperature_reading_to_fahrenheit(0x1234).bits, -49 * ONE + 315 * 4660);
    // 0x5678 is 22136; 22136 * 65536 / 65535 rounds down to 22136.
    assert_eq!(humidity_reading_to_percent_rh(0x5678).bits, -6 * ONE + 125 * 22136);
    // 32768 * 65536 / 65535 rounds down to 32768.
    assert_eq!(temperature_reading_to_celsius(32768).bits, -45 * ONE + 175 * 32768);
}

#[test]
fn fixed_point_agrees_with_float_formula() {
    for reading in (0..=65535u32).step_by(97) {
        let r = reading as u16;
        let exact_c = -45.0 + 175.0 * (reading as f64 / 65535.0);
        let exact_f = -49.0 + 315.0 * (reading as f64 / 65535.0);
        let exact_h = (-6.0 + 125.0 * (reading as f64 / 65535.0)).clamp(0.0, 100.0);
        let c = value(temperature_reading_to_celsius(r));
        let f = value(temperature_reading_to_fahrenheit(r));
        let h = value(humidity_reading_to_percent_rh(r));
        assert!(c <= exact_c + 1e-9 && exact_c - c < 175.0 / 65536.0);
        assert!(f <= exact_f + 1e-9 && exact_f - f < 315.0 / 65536.0);
        assert!((h - exact_h).abs() < 125.0 / 65536.0);
    }
}

#[test]
fn measurement_conversions() {
    let m: Result<Measurement, Error<()>> = Measurement::from_read_bytes(
        Unvalidated::new([0x12, 0x34, 0x37, 0x56, 0x78, 0x7D]),
        true,
    );
    let m = m.unwrap();
    assert_eq!(m.celsius_fixed_point(), temperature_reading_to_celsius(0x1234));
    assert_eq!(m.fahrenheit_fixed_point(), temperature_reading_to_fahrenheit(0x1234));
    assert_eq!(m.humidity_fixed_point(), humidity_reading_to_percent_rh(0x5678));
    assert_eq!(m.temperature_fixed_point(TemperatureUnit::Celsius), m.celsius_fixed_point());
    assert_eq!(
        m.temperature_fixed_point(TemperatureUnit::Fahrenheit),
        m.fahrenheit_fixed_point()
    );
    assert!((value(m.celsius_fixed_point()) - (-32.556)).abs() < 0.01);
    assert!((value(m.humidity_fixed_point()) - 36.221).abs() < 0.01);
}

#[test]
fn fixed_point_bits_round_trip() {
    let x = FixedPoint::from_bits(-12345);
    assert_eq!(x.to_bits(), -12345);
    assert_eq!(x.bits, -12345);
}
