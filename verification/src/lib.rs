//! Bridging logic for consuming a peripheral-access driver through a
//! vendor-neutral hardware abstraction interface.
//!
//! The core is the SPI segmented transaction engine: a mapper that turns an
//! ordered sequence of abstract bus operations into segment descriptors, an
//! executor state machine that runs the segments strictly in order inside a
//! single chip-select window and halts on the first failure, and a
//! non-blocking single-byte adapter that emulates a word-at-a-time interface
//! on top of the blocking full-duplex primitive. Beside it stands an error
//! classifier that maps low-level I/O failure kinds into a small closed set
//! of peripheral error kinds.

pub mod delay;
pub mod error;
pub mod executor;
pub mod gpio;
pub mod i2c;
pub mod segment;
pub mod spi;
pub mod uart;
