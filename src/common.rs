//! Sensor settings, the command and timing tables, and the decoding of the
//! six-byte response frame.
use vstd::prelude::*;

use crate::crc::{crc8_spec, lemma_single_byte_change_detected, validate_crc};
use crate::error::{CrcFailureReason, Error};
use crate::fixed_point::{
    FixedPoint, celsius_bits, fahrenheit_bits, humidity_bits, humidity_reading_to_percent_rh,
    temperature_reading_to_celsius, temperature_reading_to_fahrenheit,
};

verus! {

/// Command byte that asks the sensor for its serial number.
pub const READ_SERIAL_NUMBER_COMMAND: u8 = 0x89;

/// Command byte that resets the sensor.
pub const SOFT_RESET_COMMAND: u8 = 0x94;

/// Milliseconds the sensor needs to settle after a soft reset.
pub const SOFT_RESET_DELAY_MS: u32 = 1;

/// Power applied to the sensor heater before measuring.
#[derive(Debug, Clone, Copy, PartialEq, Eq, Structural)]
pub enum HeaterPower {
    /// 200mW nominal.
    High,
    /// 110mW nominal.
    Medium,
    /// 20mW nominal.
    Low,
}

/// Length of time to run the heater before measuring.
#[derive(Debug, Clone, Copy, PartialEq, Eq, Structural)]
pub enum HeaterDuration {
    /// 1 second.
    Long,
    /// 0.1 seconds.
    Short,
}

/// Level of precision with which to read the sensor, optionally after
/// heating it.
///
/// Lower precision readings complete faster; a heated reading is always
/// taken at high precision.
#[derive(Debug, Clone, Copy, PartialEq, Eq, Structural)]
pub enum ReadingMode {
    /// High repeatability: 3σ of 0.04°C and 0.08%RH.
    HighPrecision,
    /// Medium repeatability: 3σ of 0.07°C and 0.15%RH.
    MediumPrecision,
    /// Low repeatability: 3σ of 0.1°C and 0.25%RH.
    LowPrecision,
    /// Apply heat to the sensor before taking a high-repeatability reading.
    HighPrecisionWithHeater(HeaterPower, HeaterDuration),
}

impl ReadingMode {
    /// The command byte of each reading mode, as the sensor's command table
    /// lists it.
    pub open spec fn command_byte_spec(self) -> u8 {
        match self {
            ReadingMode::HighPrecision => 0xFD,
            ReadingMode::MediumPrecision => 0xF6,
            ReadingMode::LowPrecision => 0xE0,
            ReadingMode::HighPrecisionWithHeater(HeaterPower::High, HeaterDuration::Long) => 0x39,
            ReadingMode::HighPrecisionWithHeater(HeaterPower::High, HeaterDuration::Short) => 0x32,
            ReadingMode::HighPrecisionWithHeater(HeaterPower::Medium, HeaterDuration::Long) => 0x2F,
            ReadingMode::HighPrecisionWithHeater(HeaterPower::Medium, HeaterDuration::Short) => 0x24,
            ReadingMode::HighPrecisionWithHeater(HeaterPower::Low, HeaterDuration::Long) => 0x1E,
            ReadingMode::HighPrecisionWithHeater(HeaterPower::Low, HeaterDuration::Short) => 0x15,
        }
    }

    /// Bus command byte for the given reading mode.
    pub fn command_byte(&self) -> (r: u8)
        ensures
            r == self.command_byte_spec(),
    {
        match self {
            ReadingMode::HighPrecision => 0xFD,
            ReadingMode::MediumPrecision => 0xF6,
            ReadingMode::LowPrecision => 0xE0,
            ReadingMode::HighPrecisionWithHeater(power, duration) => match (power, duration) {
                (HeaterPower::High, HeaterDuration::Long) => 0x39,
                (HeaterPower::High, HeaterDuration::Short) => 0x32,
                (HeaterPower::Medium, HeaterDuration::Long) => 0x2F,
                (HeaterPower::Medium, HeaterDuration::Short) => 0x24,
                (HeaterPower::Low, HeaterDuration::Long) => 0x1E,
                (HeaterPower::Low, HeaterDuration::Short) => 0x15,
            },
        }
    }
}

/// Length of delay before attempting to read a measurement from the sensor.
///
/// The sensor refuses reads before its measurement is ready; the maximum
/// delays guard against reading too early.
#[derive(Debug, Clone, Copy, PartialEq, Eq, Structural)]
pub enum DelayMode {
    /// Use the typical delay times before attempting to read.
    Typical,
    /// Use the maximum delay times before attempting to read.
    Maximum,
}

/// Alias of [`DelayMode`].
pub type ReadingDelayMode = DelayMode;

impl DelayMode {
    /// Microseconds to wait for each reading mode, as the sensor's timing
    /// table lists them.
    pub open spec fn us_spec(self, reading_mode: ReadingMode) -> u32 {
        match (reading_mode, self) {
            (ReadingMode::HighPrecision, DelayMode::Typical) => 6_900,
            (ReadingMode::HighPrecision, DelayMode::Maximum) => 8_300,
            (ReadingMode::MediumPrecision, DelayMode::Typical) => 3_700,
            (ReadingMode::MediumPrecision, DelayMode::Maximum) => 4_500,
            (ReadingMode::LowPrecision, DelayMode::Typical) => 1_300,
            (ReadingMode::LowPrecision, DelayMode::Maximum) => 1_600,
            (ReadingMode::HighPrecisionWithHeater(_, HeaterDuration::Long), DelayMode::Typical) => 1_000_000,
            (ReadingMode::HighPrecisionWithHeater(_, HeaterDuration::Long), DelayMode::Maximum) => 1_100_000,
            (ReadingMode::HighPrecisionWithHeater(_, HeaterDuration::Short), DelayMode::Typical) => 100_000,
            (ReadingMode::HighPrecisionWithHeater(_, HeaterDuration::Short), DelayMode::Maximum) => 110_000,
        }
    }

    /// Microsecond delay for this delay mode and the given reading mode.
    pub fn us_for_reading_mode(&self, reading_mode: ReadingMode) -> (r: u32)
        ensures
            r == self.us_spec(reading_mode),
    {
        match (reading_mode, self) {
            (ReadingMode::HighPrecision, DelayMode::Typical) => 6_900,
            (ReadingMode::HighPrecision, DelayMode::Maximum) => 8_300,
            (ReadingMode::MediumPrecision, DelayMode::Typical) => 3_700,
            (ReadingMode::MediumPrecision, DelayMode::Maximum) => 4_500,
            (ReadingMode::LowPrecision, DelayMode::Typical) => 1_300,
            (ReadingMode::LowPrecision, DelayMode::Maximum) => 1_600,
            (ReadingMode::HighPrecisionWithHeater(_, HeaterDuration::Long), DelayMode::Typical) => 1_000_000,
            (ReadingMode::HighPrecisionWithHeater(_, HeaterDuration::Long), DelayMode::Maximum) => 1_100_000,
            (ReadingMode::HighPrecisionWithHeater(_, HeaterDuration::Short), DelayMode::Typical) => 100_000,
            (ReadingMode::HighPrecisionWithHeater(_, HeaterDuration::Short), DelayMode::Maximum) => 110_000,
        }
    }
}

/// Unit in which a temperature reading is reported.
#[derive(Debug, Clone, Copy, PartialEq, Eq, Structural)]
pub enum TemperatureUnit {
    Celsius,
    Fahrenheit,
}

/// Default settings used for measurements.
///
/// The embedding code owns the configuration and may change it between
/// calls; a measurement with explicit settings leaves it untouched.
#[derive(Debug, Clone, Copy, PartialEq, Eq, Structural)]
pub struct Config {
    /// Default measurement precision or heater usage.
    pub reading_mode: ReadingMode,
    /// Default delay mode.
    pub delay_mode: DelayMode,
    /// Unit in which temperatures are preferably reported.
    pub temperature_unit: TemperatureUnit,
    /// Whether the CRC of each received byte pair is checked. Turning this
    /// off accepts unvalidated data knowingly.
    pub should_validate_crc: bool,
}

impl Default for Config {
    /// High-precision readings, typical delays, celsius, and CRC checks.
    fn default() -> (r: Self)
        ensures
            r.reading_mode == ReadingMode::HighPrecision,
            r.delay_mode == DelayMode::Typical,
            r.temperature_unit == TemperatureUnit::Celsius,
            r.should_validate_crc,
    {
        Config {
            reading_mode: ReadingMode::HighPrecision,
            delay_mode: DelayMode::Typical,
            temperature_unit: TemperatureUnit::Celsius,
            should_validate_crc: true,
        }
    }
}

/// Bytes 0 to 2 of a response frame: the first data pair and its CRC.
pub open spec fn first_pair(frame: Seq<u8>) -> Seq<u8> {
    frame.subrange(0, 3)
}

/// Bytes 3 to 5 of a response frame: the second data pair and its CRC.
pub open spec fn second_pair(frame: Seq<u8>) -> Seq<u8> {
    frame.subrange(3, 6)
}

/// A data pair followed by its CRC byte is valid when the CRC over all three
/// bytes is zero.
pub open spec fn pair_valid(pair: Seq<u8>) -> bool {
    crc8_spec(pair) == 0
}

/// Whether a frame's data may be used: CRC checking is off, or both pairs are
/// valid.
pub open spec fn frame_accepted(frame: Seq<u8>, check_crc: bool) -> bool {
    !check_crc || (pair_valid(first_pair(frame)) && pair_valid(second_pair(frame)))
}

/// The four data bytes of a frame, without the CRC bytes.
pub open spec fn data_bytes(frame: Seq<u8>) -> Seq<u8> {
    seq![frame[0], frame[1], frame[3], frame[4]]
}

/// `r` is the CRC failure of the given pair, named by `reason`.
pub open spec fn is_crc_failure<T, E>(
    r: Result<T, Error<E>>,
    reason: CrcFailureReason,
    pair: Seq<u8>,
) -> bool {
    match r {
        Err(Error::CrcValidationFailed { reason: named, received_bytes, calculated_crc }) => {
            &&& named == reason
            &&& received_bytes@ == pair
            &&& calculated_crc == crc8_spec(pair)
        },
        _ => false,
    }
}

/// `r` reports the first invalid pair of the frame: the first pair if it
/// fails, else the second.
pub open spec fn reports_first_failure<T, E>(
    frame: Seq<u8>,
    first: CrcFailureReason,
    second: CrcFailureReason,
    r: Result<T, Error<E>>,
) -> bool {
    if !pair_valid(first_pair(frame)) {
        is_crc_failure(r, first, first_pair(frame))
    } else {
        is_crc_failure(r, second, second_pair(frame))
    }
}

/// The value of two bytes read big-endian.
pub open spec fn be_u16(hi: u8, lo: u8) -> int {
    hi * 0x100 + lo
}

/// The value of four bytes read big-endian.
pub open spec fn be_u32(b: Seq<u8>) -> int {
    b[0] * 0x100_0000 + b[1] * 0x1_0000 + b[2] * 0x100 + b[3]
}

/// Flipping any one bit of a frame whose two pairs are valid makes the frame
/// fail its check at the pair that holds the bit: the first pair for bytes 0
/// to 2, the CRC byte included, and the second pair for bytes 3 to 5.
pub proof fn lemma_bit_flip_detected(frame: Seq<u8>, i: int, bit: u8)
    requires
        frame.len() == 6,
        pair_valid(first_pair(frame)),
        pair_valid(second_pair(frame)),
        0 <= i < 6,
        bit < 8,
    ensures
        ({
            let corrupted = frame.update(i, frame[i] ^ (1u8 << bit));
            &&& !frame_accepted(corrupted, true)
            &&& i < 3 ==> !pair_valid(first_pair(corrupted))
            &&& i >= 3 ==> pair_valid(first_pair(corrupted)) && !pair_valid(
                second_pair(corrupted),
            )
        }),
{
    let b = frame[i];
    let v = b ^ (1u8 << bit);
    assert(bit < 8 ==> b ^ (1u8 << bit) != b) by (bit_vector);
    let corrupted = frame.update(i, v);
    if i < 3 {
        assert(first_pair(corrupted) =~= first_pair(frame).update(i, v));
        lemma_single_byte_change_detected(first_pair(frame), i, v);
    } else {
        assert(first_pair(corrupted) =~= first_pair(frame));
        assert(second_pair(corrupted) =~= second_pair(frame).update(i - 3, v));
        lemma_single_byte_change_detected(second_pair(frame), i - 3, v);
    }
}

/// The six bytes read from the sensor, whose four data bytes may only be had
/// through the CRC check.
pub struct Unvalidated([u8; 6]);

impl Unvalidated {
    /// The six bytes as received.
    pub closed spec fn frame(self) -> Seq<u8> {
        self.0@
    }

    /// Wrap the six bytes read from the sensor.
    pub fn new(bytes: [u8; 6]) -> (r: Self)
        ensures
            r.frame() == bytes@,
    {
        Unvalidated(bytes)
    }

    /// Return the data bytes `[s0, s1, s3, s4]` of the frame `s0..s5` if the
    /// CRC of each pair is valid, or if `check_crc` is off. Otherwise return
    /// the failure of the first pair that does not validate, named by
    /// `first_pair_meaning` or `second_pair_meaning`.
    pub fn try_get_bytes<E>(
        self,
        first_pair_meaning: CrcFailureReason,
        second_pair_meaning: CrcFailureReason,
        check_crc: bool,
    ) -> (r: Result<[u8; 4], Error<E>>)
        ensures
            frame_accepted(self.frame(), check_crc) ==> r is Ok && r->Ok_0@ == data_bytes(
                self.frame(),
            ),
            !frame_accepted(self.frame(), check_crc) ==> reports_first_failure(
                self.frame(),
                first_pair_meaning,
                second_pair_meaning,
                r,
            ),
    {
        let d0 = self.0[0];
        let d1 = self.0[1];
        let c0 = self.0[2];
        let d2 = self.0[3];
        let d3 = self.0[4];
        let c1 = self.0[5];
        proof {
            assert(first_pair(self.frame()) =~= [d0, d1, c0]@);
            assert(second_pair(self.frame()) =~= [d2, d3, c1]@);
        }
        if check_crc {
            if let Err(crc) = validate_crc([d0, d1, c0]) {
                return Err(
                    Error::CrcValidationFailed {
                        reason: first_pair_meaning,
                        received_bytes: [d0, d1, c0],
                        calculated_crc: crc,
                    },
                );
            }
            if let Err(crc) = validate_crc([d2, d3, c1]) {
                return Err(
                    Error::CrcValidationFailed {
                        reason: second_pair_meaning,
                        received_bytes: [d2, d3, c1],
                        calculated_crc: crc,
                    },
                );
            }
        }
        let r = [d0, d1, d2, d3];
        assert(r@ =~= data_bytes(self.frame()));
        Ok(r)
    }
}

/// A temperature and humidity measurement from the sensor, kept as the two
/// raw 16-bit readings so that the unit is chosen when the value is read.
#[derive(Debug, Clone, Copy, PartialEq, Eq, Structural)]
pub struct Measurement {
    /// The unconverted temperature value received from the sensor.
    raw_temp: u16,
    /// The unconverted humidity value received from the sensor.
    raw_humidity: u16,
}

/// Bits of a raw temperature reading in the given unit.
pub open spec fn temperature_bits(reading: u16, unit: TemperatureUnit) -> int {
    match unit {
        TemperatureUnit::Celsius => celsius_bits(reading),
        TemperatureUnit::Fahrenheit => fahrenheit_bits(reading),
    }
}

impl Measurement {
    /// The raw temperature reading.
    pub closed spec fn temperature_code(self) -> u16 {
        self.raw_temp
    }

    /// The raw humidity reading.
    pub closed spec fn humidity_code(self) -> u16 {
        self.raw_humidity
    }

    /// Decode a measurement frame: the temperature from the first pair and the
    /// humidity from the second, each read big-endian, after validating the
    /// received CRCs unless `check_crc` is off.
    pub fn from_read_bytes<E>(sensor_data: Unvalidated, check_crc: bool) -> (r: Result<Self, Error<E>>)
        ensures
            frame_accepted(sensor_data.frame(), check_crc) ==> r is Ok && r->Ok_0.temperature_code()
                == be_u16(sensor_data.frame()[0], sensor_data.frame()[1])
                && r->Ok_0.humidity_code() == be_u16(
                sensor_data.frame()[3],
                sensor_data.frame()[4],
            ),
            !frame_accepted(sensor_data.frame(), check_crc) ==> reports_first_failure(
                sensor_data.frame(),
                CrcFailureReason::TemperatureBytes,
                CrcFailureReason::HumidityBytes,
                r,
            ),
    {
        match sensor_data.try_get_bytes(
            CrcFailureReason::TemperatureBytes,
            CrcFailureReason::HumidityBytes,
            check_crc,
        ) {
            Ok(b) => Ok(
                Measurement {
                    raw_temp: (b[0] as u16) * 0x100 + (b[1] as u16),
                    raw_humidity: (b[2] as u16) * 0x100 + (b[3] as u16),
                },
            ),
            Err(e) => Err(e),
        }
    }

    /// The unconverted temperature reading from the sensor as a 16-bit integer.
    pub fn raw_temperature_reading(&self) -> (r: u16)
        ensures
            r == self.temperature_code(),
    {
        self.raw_temp
    }

    /// The unconverted humidity reading from the sensor as a 16-bit integer.
    pub fn raw_humidity_reading(&self) -> (r: u16)
        ensures
            r == self.humidity_code(),
    {
        self.raw_humidity
    }

    /// Convert the raw humidity reading to percent relative humidity.
    pub fn humidity_fixed_point(&self) -> (r: FixedPoint)
        ensures
            r.bits == humidity_bits(self.humidity_code()),
    {
        humidity_reading_to_percent_rh(self.raw_humidity)
    }

    /// Convert the raw temperature reading to degrees celsius.
    pub fn celsius_fixed_point(&self) -> (r: FixedPoint)
        ensures
            r.bits == celsius_bits(self.temperature_code()),
    {
        temperature_reading_to_celsius(self.raw_temp)
    }

    /// Convert the raw temperature reading to degrees fahrenheit.
    pub fn fahrenheit_fixed_point(&self) -> (r: FixedPoint)
        ensures
            r.bits == fahrenheit_bits(self.temperature_code()),
    {
        temperature_reading_to_fahrenheit(self.raw_temp)
    }

    /// Convert the raw temperature reading to the given unit.
    pub fn temperature_fixed_point(&self, unit: TemperatureUnit) -> (r: FixedPoint)
        ensures
            r.bits == temperature_bits(self.temperature_code(), unit),
    {
        match unit {
            TemperatureUnit::Celsius => self.celsius_fixed_point(),
            TemperatureUnit::Fahrenheit => self.fahrenheit_fixed_point(),
        }
    }
}

/// Reconstruct the 32-bit serial number after validating the received CRCs.
pub fn serial_number_from_read_bytes<E>(sensor_data: Unvalidated, check_crc: bool) -> (r: Result<
    u32,
    Error<E>,
>)
    ensures
        frame_accepted(sensor_data.frame(), check_crc) ==> r == Ok::<u32, Error<E>>(
            be_u32(data_bytes(sensor_data.frame())) as u32,
        ),
        !frame_accepted(sensor_data.frame(), check_crc) ==> reports_first_failure(
            sensor_data.frame(),
            CrcFailureReason::SerialNumberFirstPair,
            CrcFailureReason::SerialNumberSecondPair,
            r,
        ),
{
    match sensor_data.try_get_bytes(
        CrcFailureReason::SerialNumberFirstPair,
        CrcFailureReason::SerialNumberSecondPair,
        check_crc,
    ) {
        Ok(b) => Ok(
            (b[0] as u32) * 0x100_0000 + (b[1] as u32) * 0x1_0000 + (b[2] as u32) * 0x100 + (
            b[3] as u32),
        ),
        Err(e) => Err(e),
    }
}

} // verus!
