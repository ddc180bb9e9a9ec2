//! Errors reported by the driver.
use vstd::prelude::*;

verus! {

/// Error wrapper for all driver operations that interact with the sensor.
///
/// `E` is the error type of the bus that the embedding code drives.
#[derive(Debug, PartialEq, Eq)]
pub enum Error<E> {
    /// A byte pair had an incorrect CRC.
    CrcValidationFailed {
        /// Which byte pair failed.
        reason: CrcFailureReason,
        /// The two data bytes and the CRC byte as received.
        received_bytes: [u8; 3],
        /// The CRC calculated over the three received bytes, which is not zero.
        calculated_crc: u8,
    },
    /// An error was returned from the underlying bus.
    I2c(E),
}

/// Describes which byte pair had an incorrect CRC.
#[derive(Debug, Clone, Copy, PartialEq, Eq, Structural)]
pub enum CrcFailureReason {
    /// The first two bytes of the four-byte serial number.
    SerialNumberFirstPair,
    /// The second two bytes of the four-byte serial number.
    SerialNumberSecondPair,
    /// The temperature reading bytes.
    TemperatureBytes,
    /// The humidity reading bytes.
    HumidityBytes,
}

impl CrcFailureReason {
    /// The text that names the byte pair.
    pub open spec fn description_spec(self) -> Seq<char> {
        match self {
            CrcFailureReason::SerialNumberFirstPair => "first two bytes of serial number"@,
            CrcFailureReason::SerialNumberSecondPair => "second two bytes of serial number"@,
            CrcFailureReason::TemperatureBytes => "temperature bytes"@,
            CrcFailureReason::HumidityBytes => "humidity bytes"@,
        }
    }

    /// A human-readable name for the byte pair.
    pub fn description(&self) -> (r: &'static str)
        ensures
            r@ == self.description_spec(),
    {
        match self {
            CrcFailureReason::SerialNumberFirstPair => "first two bytes of serial number",
            CrcFailureReason::SerialNumberSecondPair => "second two bytes of serial number",
            CrcFailureReason::TemperatureBytes => "temperature bytes",
            CrcFailureReason::HumidityBytes => "humidity bytes",
        }
    }
}

} // verus!
