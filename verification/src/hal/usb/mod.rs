//! USB MIDI: the device's identity and whether a host is listening.

pub mod driver;
pub mod midi;

pub use driver::BurstTracker;
pub use midi::{ConnectionTracker, UsbMidiConfig};
