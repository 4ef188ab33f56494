//! I2C general call driver.
//!
//! A general call is a write to the reserved broadcast address `0x00` that
//! every device on the bus may act upon. This library encodes the general call
//! commands into their single wire byte, hands that byte to a bus transport,
//! and classifies the transport's outcome into [`Error`].
pub mod command;
pub mod driver;
pub mod error;
pub mod laws;

pub use command::{Command, CommandCode, GENERAL_CALL_ADDR};
pub use driver::{GeneralCall, Transport};
pub use error::{AckSource, Error, FaultKind};
