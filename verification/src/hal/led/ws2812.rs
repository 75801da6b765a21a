//! Colors as the WS2812B strip takes them, and the cap every frame is scaled into.

use vstd::prelude::*;

verus! {

/// A color with 8-bit red, green and blue channels.
#[derive(Clone, Copy, Debug, PartialEq, Eq, Structural)]
pub struct RGB8 {
    pub r: u8,
    pub g: u8,
    pub b: u8,
}

impl RGB8 {
    pub fn new(r: u8, g: u8, b: u8) -> (c: Self)
        ensures
            c == (RGB8 { r, g, b }),
    {
        RGB8 { r, g, b }
    }
}

impl Default for RGB8 {
    /// Black: every channel off.
    fn default() -> (c: Self)
        ensures
            c == (RGB8 { r: 0, g: 0, b: 0 }),
    {
        RGB8 { r: 0, g: 0, b: 0 }
    }
}

/// Highest duty cycle any LED channel is ever driven at, out of `u8::MAX`: about 20%.
///
/// The strip runs from the board's 5 V linear regulator (200 mA, shared with the Pico), which
/// cannot supply every LED at full white. Every frame is scaled into this range right before
/// it is sent, so no caller can exceed it - full scale for a caller means this much.
pub const MAX_CHANNEL_VALUE: u8 = 51;

/// A channel value scaled from the full `u8` range into `0..=MAX_CHANNEL_VALUE`.
pub open spec fn spec_limit_channel(value: u8) -> u8 {
    (value as int * MAX_CHANNEL_VALUE as int / 255) as u8
}

pub fn limit_channel(value: u8) -> (r: u8)
    ensures
        r == spec_limit_channel(value),
        r <= MAX_CHANNEL_VALUE,
        value == 255 ==> r == MAX_CHANNEL_VALUE,
{
    proof {
        assert(value as int * 51 <= 255 * 51) by (nonlinear_arith)
            requires
                value <= 255,
        ;
    }
    (value as u16 * MAX_CHANNEL_VALUE as u16 / u8::MAX as u16) as u8
}

/// A color scaled channel by channel into the strip's range.
pub fn limit_color(color: RGB8) -> (r: RGB8)
    ensures
        r.r == spec_limit_channel(color.r),
        r.g == spec_limit_channel(color.g),
        r.b == spec_limit_channel(color.b),
        r.r <= MAX_CHANNEL_VALUE && r.g <= MAX_CHANNEL_VALUE && r.b <= MAX_CHANNEL_VALUE,
{
    RGB8::new(limit_channel(color.r), limit_channel(color.g), limit_channel(color.b))
}

/// The frame actually shifted out for `colors`: every LED scaled into the strip's range.
pub fn limited_frame<const N: usize>(colors: &[RGB8; N]) -> (r: [RGB8; N])
    ensures
        forall|i: int| 0 <= i < N ==> #[trigger] r@[i] == limit_color_spec(colors@[i]),
{
    let mut frame = *colors;
    let mut i: usize = 0;
    while i < N
        invariant
            i <= N,
            frame@.len() == N,
            forall|j: int| 0 <= j < i ==> #[trigger] frame@[j] == limit_color_spec(colors@[j]),
        decreases N - i,
    {
        frame[i] = limit_color(colors[i]);
        i += 1;
    }
    frame
}

/// [`limit_color`] as a function on colors.
pub open spec fn limit_color_spec(color: RGB8) -> RGB8 {
    RGB8 {
        r: spec_limit_channel(color.r),
        g: spec_limit_channel(color.g),
        b: spec_limit_channel(color.b),
    }
}

} // verus!
