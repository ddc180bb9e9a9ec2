use sht40::crc::{crc8, validate_crc};

#[test]
fn crc_crc_0000() {
    assert_eq!(crc8(&[0x00, 0x00, 0x81]), 0x00);
}

#[test]
#[allow(non_snake_case)]
fn crc_crc_BEEF() {
    assert_eq!(crc8(&[0xBE, 0xEF, 0x92]), 0x00);
}

#[test]
fn utils_crc_0000() {
    assert_eq!(crc8(&[0x00, 0x00]), 0x81);
    assert_eq!(crc8(&[0x00, 0x00, 0x81]), 0x00);
}

#[test]
#[allow(non_snake_case)]
fn utils_crc_BEEF() {
    assert_eq!(crc8(&[0xBE, 0xEF]), 0x92);
    assert_eq!(crc8(&[0xBE, 0xEF, 0x92]), 0x00);
}

#[test]
fn crc_of_nothing_is_initial_value() {
    assert_eq!(crc8(&[]), 0xFF);
}

#[test]
fn crc_round_trip_on_sample_pairs() {
    for &(a, b) in &[(0x00u8, 0x00u8), (0xBE, 0xEF), (0x12, 0x34), (0xFF, 0xFF), (0x01, 0x80)] {
        let c = crc8(&[a, b]);
        assert_eq!(crc8(&[a, b, c]), 0x00);
    }
}

#[test]
fn validate_crc_accepts_and_rejects() {
    assert_eq!(validate_crc([0xBE, 0xEF, 0x92]), Ok(()));
    let bad = validate_crc([0xBE, 0xEF, 0x93]);
    assert_eq!(bad, Err(crc8(&[0xBE, 0xEF, 0x93])));
    assert_ne!(bad, Err(0));
}
