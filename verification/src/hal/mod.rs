//! The board's peripherals: the AD7718 chain, the pull switches, the LED strip, USB MIDI and
//! the WiFi access point.

pub mod adc;
pub mod buf;
pub mod led;
pub mod usb;
pub mod wifi;
