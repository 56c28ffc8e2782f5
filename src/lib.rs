//! Driver logic for the AS7331 ultraviolet light sensor.
//!
//! The driver is split into a register map, a pure codec for the chip's packed
//! register formats, and a transaction state machine that turns each high-level
//! operation into the exact sequence of bus transfers it needs. Running the
//! transfers on a real bus is left to the caller, which hands back each outcome.

pub mod registers;
pub mod codec;
pub mod state;
pub mod exchange;
pub mod device;
