//! A shared-bus sensor core: one physical serial bus serving two logical
//! devices (an SHT3x temperature/humidity sensor and an optional display)
//! without interleaved transactions.
//!
//! The arbiter in [`bus`] guarantees that every exchange on the bus is
//! exclusive and runs to completion, and detects reentrant acquisitions as
//! violations instead of silently corrupting the bus.  The driver in
//! [`sht3x`] issues the fixed measurement command, reads the six reply
//! bytes and decodes them into fixed-point engineering units.  [`format`]
//! renders a reading into the text the display sink consumes, [`stub`]
//! holds a scripted port for driving the core without hardware, and
//! [`sample`] the one cycle of the sampling loop.

pub mod bus;
pub mod format;
pub mod sample;
pub mod sht3x;
pub mod stub;
