//! The web interface's protocol values that carry no measurement.

pub mod interface;

pub use interface::{ArmPull, WiperContact, JACK_COUNT};
