//! Driver logic for the SHT4x humidity and temperature sensor.
//!
//! The library holds the sensor's wire protocol: command bytes and settle
//! times, the CRC that guards every pair of data bytes, the decoding of the
//! six-byte response frame, the conversion of raw readings into physical
//! units, and the state machine that sequences one bus exchange. The bus and
//! the delay themselves are supplied by the embedding code.
pub mod common;
pub mod crc;
pub mod error;
pub mod fixed_point;
pub mod session;
