use sht40::common::{serial_number_from_read_bytes, Measurement, Unvalidated};
use sht40::error::{CrcFailureReason, Error};

const SERIAL_FRAME: [u8; 6] = [0x01, 0x02, 0x17, 0x03, 0x04, 0x68];
const MEASUREMENT_FRAME: [u8; 6] = [0x12, 0x34, 0x37, 0x56, 0x78, 0x7D];

#[test]
fn frame_decode_success() {
    let bytes: Result<[u8; 4], Error<()>> = Unvalidated::new(SERIAL_FRAME).try_get_bytes(
        CrcFailureReason::SerialNumberFirstPair,
        CrcFailureReason::SerialNumberSecondPair,
        true,
    );
    assert_eq!(bytes, Ok([0x01, 0x02, 0x03, 0x04]));
}

#[test]
fn serial_number_reconstruction() {
    let n: Result<u32, Error<()>> =
        serial_number_from_read_bytes(Unvalidated::new(SERIAL_FRAME), true);
    assert_eq!(n, Ok(0x0102_0304));
}

#[test]
fn single_bit_flip_names_the_failing_pair() {
    for i in 0..6 {
        for bit in 0..8 {
            let mut frame = SERIAL_FRAME;
            frame[i] ^= 1 << bit;
            let r: Result<[u8; 4], Error<()>> = Unvalidated::new(frame).try_get_bytes(
                CrcFailureReason::TemperatureBytes,
                CrcFailureReason::HumidityBytes,
                true,
            );
            let (reason, pair) = if i < 3 {
                (CrcFailureReason::TemperatureBytes, [frame[0], frame[1], frame[2]])
            } else {
                (CrcFailureReason::HumidityBytes, [frame[3], frame[4], frame[5]])
            };
            match r {
                Err(Error::CrcValidationFailed { reason: got, received_bytes, calculated_crc }) => {
                    assert_eq!(got, reason);
                    assert_eq!(received_bytes, pair);
                    assert_ne!(calculated_crc, 0);
                    assert_eq!(calculated_crc, sht40::crc::crc8(&pair));
                }
                other => panic!("byte {} bit {}: unexpected {:?}", i, bit, other),
            }
        }
    }
}

#[test]
fn both_pairs_bad_reports_the_first() {
    let frame = [0x01, 0x02, 0x00, 0x03, 0x04, 0x00];
    let r: Result<u32, Error<()>> = serial_number_from_read_bytes(Unvalidated::new(frame), true);
    match r {
        Err(Error::CrcValidationFailed { reason, received_bytes, calculated_crc }) => {
            assert_eq!(reason, CrcFailureReason::SerialNumberFirstPair);
            assert_eq!(received_bytes, [0x01, 0x02, 0x00]);
            assert_eq!(calculated_crc, sht40::crc::crc8(&[0x01, 0x02, 0x00]));
            assert_ne!(calculated_crc, 0);
        }
        other => panic!("unexpected {:?}", other),
    }
}

#[test]
fn second_pair_bad_reports_the_second() {
    let frame = [0x01, 0x02, 0x17, 0x03, 0x04, 0x69];
    let r: Result<u32, Error<()>> = serial_number_from_read_bytes(Unvalidated::new(frame), true);
    match r {
        Err(Error::CrcValidationFailed { reason, received_bytes, .. }) => {
            assert_eq!(reason, CrcFailureReason::SerialNumberSecondPair);
            assert_eq!(received_bytes, [0x03, 0x04, 0x69]);
        }
        other => panic!("unexpected {:?}", other),
    }
}

#[test]
fn unchecked_frame_is_accepted_when_crc_checks_are_off() {
    let frame = [0x01, 0x02, 0x00, 0x03, 0x04, 0x00];
    let r: Result<u32, Error<()>> = serial_number_from_read_bytes(Unvalidated::new(frame), false);
    assert_eq!(r, Ok(0x0102_0304));
}

#[test]
fn measurement_from_frame() {
    let m: Result<Measurement, Error<()>> =
        Measurement::from_read_bytes(Unvalidated::new(MEASUREMENT_FRAME), true);
    let m = m.unwrap();
    assert_eq!(m.raw_temperature_reading(), 0x1234);
    assert_eq!(m.raw_humidity_reading(), 0x5678);
}

#[test]
fn measurement_crc_failure_names_humidity() {
    let mut frame = MEASUREMENT_FRAME;
    frame[4] ^= 0x01;
    let m: Result<Measurement, Error<()>> =
        Measurement::from_read_bytes(Unvalidated::new(frame), true);
    match m {
        Err(Error::CrcValidationFailed { reason, .. }) => {
            assert_eq!(reason, CrcFailureReason::HumidityBytes)
        }
        other => panic!("unexpected {:?}", other),
    }
}

#[test]
fn failure_reason_descriptions() {
    assert_eq!(
        CrcFailureReason::SerialNumberFirstPair.description(),
        "first two bytes of serial number"
    );
    assert_eq!(
        CrcFailureReason::SerialNumberSecondPair.description(),
        "second two bytes of serial number"
    );
    assert_eq!(CrcFailureReason::TemperatureBytes.description(), "temperature bytes");
    assert_eq!(CrcFailureReason::HumidityBytes.description(), "humidity bytes");
}
