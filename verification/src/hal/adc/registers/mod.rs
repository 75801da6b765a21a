//! The AD7718 registers as the chain driver uses them.

pub mod mode;
pub mod status;

pub use crate::adc::registers::{control, data, filter, id, Register, RegisterValue};
