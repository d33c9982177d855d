//! Driver logic for the Analog Devices AD5668, an eight-channel 16-bit DAC
//! that takes 32-bit commands over SPI.
//!
//! The crate performs no I/O. It computes the frames the device expects
//! ([`codec`]), decides which bus and chip-select operations a command
//! needs and in which order ([`framing`]), and keeps the two hardware
//! handles together ([`driver`]). Whoever owns the hardware carries out each
//! requested [`Action`] and reports back what happened.

pub mod codec;
pub mod driver;
pub mod framing;

pub use codec::{encode_update_command, Address, Command, InternalRef};
pub use driver::{Startup, AD5668};
pub use framing::{Action, Event, FramedWrite, Level, Progress, Stage};
