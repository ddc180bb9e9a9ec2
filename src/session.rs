//! The sensor session: which bytes to send, how long to wait and how to read
//! the answer, as a state machine that the embedding code drives.
//!
//! Each operation is one exchange: write the command byte in a transaction
//! of its own, wait where the sensor needs time, read the six-byte frame,
//! then decode it. The embedding code performs each [`Action`] on its bus and
//! delay and hands back what came of it as an [`Event`]; the exchange then
//! names the next action or completes. The sequence write, wait, read is
//! never reordered, and the first bus error ends the exchange.
use vstd::prelude::*;

use crate::common::{
    Config, DelayMode, Measurement, ReadingMode, Unvalidated, be_u16, be_u32, data_bytes,
    frame_accepted, reports_first_failure, serial_number_from_read_bytes,
    READ_SERIAL_NUMBER_COMMAND, SOFT_RESET_COMMAND, SOFT_RESET_DELAY_MS,
};
use crate::error::{CrcFailureReason, Error};

verus! {

/// Bus address of the sensor unless the embedding code sets another.
pub const DEFAULT_ADDRESS: u8 = 0x44;

/// One operation that can be run against the sensor.
#[derive(Debug, Clone, Copy, PartialEq, Eq, Structural)]
pub enum Operation {
    /// Read the 32-bit serial number.
    SerialNumber,
    /// Reset the sensor and let it settle.
    SoftReset,
    /// Measure temperature and humidity with the given settings.
    Measure(ReadingMode, DelayMode),
}

impl Operation {
    /// The command byte that starts the operation.
    pub open spec fn command_spec(self) -> u8 {
        match self {
            Operation::SerialNumber => READ_SERIAL_NUMBER_COMMAND,
            Operation::SoftReset => SOFT_RESET_COMMAND,
            Operation::Measure(reading_mode, _) => reading_mode.command_byte_spec(),
        }
    }

    /// The wait that follows the command. The serial number needs none and
    /// is read at once.
    pub open spec fn delay_spec(self) -> Action {
        match self {
            Operation::SerialNumber => Action::DelayUs(0),
            Operation::SoftReset => Action::DelayMs(SOFT_RESET_DELAY_MS),
            Operation::Measure(reading_mode, delay_mode) => Action::DelayUs(
                delay_mode.us_spec(reading_mode),
            ),
        }
    }

    /// The stage that follows a successful command write.
    pub open spec fn after_write(self) -> Stage {
        match self {
            Operation::SerialNumber => Stage::Reading,
            _ => Stage::Waiting,
        }
    }
}

/// What the embedding code is asked to do next.
#[derive(Debug, Clone, Copy, PartialEq, Eq, Structural)]
pub enum Action {
    /// Write the command byte to the address, as a complete transaction
    /// ended by a stop condition.
    Write { address: u8, command: u8 },
    /// Wait for the given number of microseconds.
    DelayUs(u32),
    /// Wait for the given number of milliseconds.
    DelayMs(u32),
    /// Read the six-byte response frame from the address.
    Read { address: u8 },
}

/// What came of the last action.
#[derive(Debug, PartialEq, Eq)]
pub enum Event<E> {
    /// The command write finished, or the bus reported an error.
    Written(Result<(), E>),
    /// The wait is over.
    Waited,
    /// The frame was read, or the bus reported an error.
    Received(Result<[u8; 6], E>),
}

/// The result of a completed operation.
#[derive(Debug, Clone, Copy, PartialEq, Eq)]
pub enum Reply {
    /// The sensor's serial number.
    SerialNumber(u32),
    /// The sensor was reset and has settled.
    Reset,
    /// A validated measurement.
    Measurement(Measurement),
}

/// The part of an exchange that is waiting on the embedding code.
#[derive(Debug, Clone, Copy, PartialEq, Eq, Structural)]
pub enum Stage {
    /// The command byte is being written.
    Writing,
    /// The sensor is being given time to work.
    Waiting,
    /// The response frame is being read.
    Reading,
}

/// Whether an event answers the action of the given stage.
pub open spec fn answers<E>(stage: Stage, event: Event<E>) -> bool {
    match event {
        Event::Written(_) => stage == Stage::Writing,
        Event::Waited => stage == Stage::Waiting,
        Event::Received(_) => stage == Stage::Reading,
    }
}

/// `r` is the reply that a received frame gives for the operation.
pub open spec fn reply_for_frame<E>(
    operation: Operation,
    frame: Seq<u8>,
    check_crc: bool,
    r: Result<Reply, Error<E>>,
) -> bool {
    match operation {
        Operation::SerialNumber => if frame_accepted(frame, check_crc) {
            r == Ok::<Reply, Error<E>>(Reply::SerialNumber(be_u32(data_bytes(frame)) as u32))
        } else {
            reports_first_failure(
                frame,
                CrcFailureReason::SerialNumberFirstPair,
                CrcFailureReason::SerialNumberSecondPair,
                r,
            )
        },
        Operation::Measure(_, _) => if frame_accepted(frame, check_crc) {
            match r {
                Ok(Reply::Measurement(m)) => {
                    &&& m.temperature_code() == be_u16(frame[0], frame[1])
                    &&& m.humidity_code() == be_u16(frame[3], frame[4])
                },
                _ => false,
            }
        } else {
            reports_first_failure(
                frame,
                CrcFailureReason::TemperatureBytes,
                CrcFailureReason::HumidityBytes,
                r,
            )
        },
        Operation::SoftReset => r == Ok::<Reply, Error<E>>(Reply::Reset),
    }
}

/// One operation in progress.
#[derive(Debug)]
pub struct Exchange {
    operation: Operation,
    address: u8,
    check_crc: bool,
    stage: Stage,
}

/// The outcome of handing an event to an exchange.
#[derive(Debug)]
pub enum Step<E> {
    /// The exchange goes on; perform its next action.
    Continue(Exchange),
    /// The operation is over.
    Complete(Result<Reply, Error<E>>),
}

impl Exchange {
    /// A serial-number read is never waiting, and a reset never reads.
    #[verifier::type_invariant]
    spec fn well_formed(self) -> bool {
        &&& self.stage == Stage::Waiting ==> !(self.operation is SerialNumber)
        &&& self.stage == Stage::Reading ==> !(self.operation is SoftReset)
    }

    /// The operation being run.
    pub closed spec fn operation(self) -> Operation {
        self.operation
    }

    /// The bus address of the sensor.
    pub closed spec fn address(self) -> u8 {
        self.address
    }

    /// Whether the CRCs of the response are checked.
    pub closed spec fn check_crc(self) -> bool {
        self.check_crc
    }

    /// The stage the exchange is in.
    pub closed spec fn stage(self) -> Stage {
        self.stage
    }

    /// The action that the exchange waits on.
    pub open spec fn pending(self) -> Action {
        match self.stage() {
            Stage::Writing => Action::Write {
                address: self.address(),
                command: self.operation().command_spec(),
            },
            Stage::Waiting => self.operation().delay_spec(),
            Stage::Reading => Action::Read { address: self.address() },
        }
    }

    /// `r` goes on with this exchange at the given stage.
    pub open spec fn continues_at<E>(self, r: Step<E>, stage: Stage) -> bool {
        match r {
            Step::Continue(next) => {
                &&& next.operation() == self.operation()
                &&& next.address() == self.address()
                &&& next.check_crc() == self.check_crc()
                &&& next.stage() == stage
            },
            _ => false,
        }
    }

    /// `r` is what this exchange does on `event`.
    pub open spec fn moves_to<E>(self, event: Event<E>, r: Step<E>) -> bool {
        if !answers(self.stage(), event) {
            self.continues_at(r, self.stage())
        } else {
            match event {
                Event::Written(Err(e)) => r == Step::<E>::Complete(Err(Error::I2c(e))),
                Event::Written(Ok(_)) => self.continues_at(r, self.operation().after_write()),
                Event::Waited => match self.operation() {
                    Operation::SoftReset => r == Step::<E>::Complete(Ok(Reply::Reset)),
                    _ => self.continues_at(r, Stage::Reading),
                },
                Event::Received(Err(e)) => r == Step::<E>::Complete(Err(Error::I2c(e))),
                Event::Received(Ok(frame)) => match r {
                    Step::Complete(reply) => reply_for_frame(
                        self.operation(),
                        frame@,
                        self.check_crc(),
                        reply,
                    ),
                    _ => false,
                },
            }
        }
    }

    /// Start an operation: its first action is to write its command byte.
    pub fn new(operation: Operation, address: u8, check_crc: bool) -> (r: Self)
        ensures
            r.operation() == operation,
            r.address() == address,
            r.check_crc() == check_crc,
            r.stage() == Stage::Writing,
    {
        Exchange { operation, address, check_crc, stage: Stage::Writing }
    }

    /// The action that the embedding code is to perform next.
    pub fn action(&self) -> (r: Action)
        ensures
            r == self.pending(),
    {
        match self.stage {
            Stage::Writing => {
                let command = match self.operation {
                    Operation::SerialNumber => READ_SERIAL_NUMBER_COMMAND,
                    Operation::SoftReset => SOFT_RESET_COMMAND,
                    Operation::Measure(reading_mode, _) => reading_mode.command_byte(),
                };
                Action::Write { address: self.address, command }
            },
            Stage::Waiting => match self.operation {
                Operation::SerialNumber => Action::DelayUs(0),
                Operation::SoftReset => Action::DelayMs(SOFT_RESET_DELAY_MS),
                Operation::Measure(reading_mode, delay_mode) => Action::DelayUs(
                    delay_mode.us_for_reading_mode(reading_mode),
                ),
            },
            Stage::Reading => Action::Read { address: self.address },
        }
    }

    /// Hand the exchange what came of its pending action. An event that does
    /// not answer the pending action leaves the exchange where it is.
    pub fn step<E>(self, event: Event<E>) -> (r: Step<E>)
        ensures
            self.moves_to(event, r),
    {
        proof {
            use_type_invariant(&self);
        }
        let operation = self.operation;
        let address = self.address;
        let check_crc = self.check_crc;
        match (self.stage, event) {
            (Stage::Writing, Event::Written(Err(e))) => Step::Complete(Err(Error::I2c(e))),
            (Stage::Writing, Event::Written(Ok(()))) => {
                let stage = match operation {
                    Operation::SerialNumber => Stage::Reading,
                    _ => Stage::Waiting,
                };
                Step::Continue(Exchange { operation, address, check_crc, stage })
            },
            (Stage::Waiting, Event::Waited) => match operation {
                Operation::SoftReset => Step::Complete(Ok(Reply::Reset)),
                _ => Step::Continue(Exchange { operation, address, check_crc, stage: Stage::Reading }),
            },
            (Stage::Reading, Event::Received(Err(e))) => Step::Complete(Err(Error::I2c(e))),
            (Stage::Reading, Event::Received(Ok(frame))) => {
                let data = Unvalidated::new(frame);
                match operation {
                    Operation::SerialNumber => Step::Complete(
                        match serial_number_from_read_bytes(data, check_crc) {
                            Ok(n) => Ok(Reply::SerialNumber(n)),
                            Err(e) => Err(e),
                        },
                    ),
                    Operation::Measure(_, _) => Step::Complete(
                        match Measurement::from_read_bytes(data, check_crc) {
                            Ok(m) => Ok(Reply::Measurement(m)),
                            Err(e) => Err(e),
                        },
                    ),
                    Operation::SoftReset => Step::Complete(Ok(Reply::Reset)),
                }
            },
            _ => Step::Continue(self),
        }
    }
}

/// The session's state between operations: where the sensor is on the bus
/// and the settings that plain measurements use.
#[derive(Debug, Clone, Copy, PartialEq, Eq, Structural)]
pub struct Session {
    /// Bus address of the sensor; a new one applies to later operations.
    pub address: u8,
    /// Default settings, read but not changed by the operations.
    pub config: Config,
}

impl Session {
    /// A session with the sensor at the default address.
    pub fn new(config: Config) -> (r: Self)
        ensures
            r.address == DEFAULT_ADDRESS,
            r.config == config,
    {
        Session { address: DEFAULT_ADDRESS, config }
    }

    /// Start an operation at the session's address, checking CRCs as its
    /// configuration says.
    pub fn start(&self, operation: Operation) -> (r: Exchange)
        ensures
            r.operation() == operation,
            r.address() == self.address,
            r.check_crc() == self.config.should_validate_crc,
            r.stage() == Stage::Writing,
    {
        Exchange::new(operation, self.address, self.config.should_validate_crc)
    }

    /// Start reading the 4-byte serial number. No wait is needed between the
    /// command and the read.
    pub fn serial_number(&self) -> (r: Exchange)
        ensures
            r.operation() == Operation::SerialNumber,
            r.address() == self.address,
            r.check_crc() == self.config.should_validate_crc,
            r.stage() == Stage::Writing,
    {
        self.start(Operation::SerialNumber)
    }

    /// Start a soft reset, after which the sensor is given a millisecond to
    /// return to its idle state.
    pub fn soft_reset(&self) -> (r: Exchange)
        ensures
            r.operation() == Operation::SoftReset,
            r.address() == self.address,
            r.check_crc() == self.config.should_validate_crc,
            r.stage() == Stage::Writing,
    {
        self.start(Operation::SoftReset)
    }

    /// Start a measurement with the session's default settings.
    pub fn measure(&self) -> (r: Exchange)
        ensures
            r.operation() == Operation::Measure(
                self.config.reading_mode,
                self.config.delay_mode,
            ),
            r.address() == self.address,
            r.check_crc() == self.config.should_validate_crc,
            r.stage() == Stage::Writing,
    {
        self.measure_with_settings(self.config.reading_mode, self.config.delay_mode)
    }

    /// Start a measurement with the given settings, leaving the defaults
    /// untouched.
    pub fn measure_with_settings(&self, reading_mode: ReadingMode, delay_mode: DelayMode) -> (r:
        Exchange)
        ensures
            r.operation() == Operation::Measure(reading_mode, delay_mode),
            r.address() == self.address,
            r.check_crc() == self.config.should_validate_crc,
            r.stage() == Stage::Writing,
    {
        self.start(Operation::Measure(reading_mode, delay_mode))
    }
}

} // verus!
