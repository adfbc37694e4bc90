//! Driver for a four-register, SPI-addressed 24-bit analog-to-digital converter.
//!
//! The library models the converter's configuration registers as bytes,
//! every configurable attribute as a bit field inside one of them, and the
//! command protocol as byte frames. The bus itself is handed in by the
//! caller as a transfer function.
pub mod field;
pub mod registers;
pub mod commands;
pub mod driver;

pub use commands::Command;
pub use driver::{MyError, ADS1220};
pub use field::Config;
pub use registers::Register;
