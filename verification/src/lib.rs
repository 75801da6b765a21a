//! Verified core of the expression adapter firmware: the AD7718 register layouts and wire
//! format, the board's wiring table, the pull switch and LED frame encodings, the USB MIDI
//! messages, and the integer decisions of the jack topology monitor.

pub mod adc;
pub mod board;
pub mod hal;
pub mod quadbuf;
pub mod rainbow;
pub mod topology;
pub mod web;
pub mod controller;
