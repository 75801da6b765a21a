//! The WS2812B LED strip below the jacks.

pub mod strip;
pub mod ws2812;

pub use strip::LedStrip;
pub use ws2812::{limit_color, MAX_CHANNEL_VALUE, RGB8};
