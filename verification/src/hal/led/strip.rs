//! The desired color of every LED on the strip plus a global brightness scale.

use vstd::prelude::*;

use super::ws2812::RGB8;

verus! {

/// Global brightness defaults to 50% of the maximum scale (`u8::MAX`).
pub const DEFAULT_BRIGHTNESS: u8 = 127;

/// A channel value scaled by `brightness` out of `u8::MAX`.
pub open spec fn spec_scale_channel(value: u8, brightness: u8) -> u8 {
    (value as int * brightness as int / 255) as u8
}

pub fn scale_channel(value: u8, brightness: u8) -> (r: u8)
    ensures
        r == spec_scale_channel(value, brightness),
        r <= value && r <= brightness,
        brightness == 255 ==> r == value,
        brightness == 0 ==> r == 0,
{
    proof {
        assert(value as int * brightness as int <= 255 * value && value as int * brightness as int
            <= 255 * brightness) by (nonlinear_arith)
            requires
                value <= 255,
                brightness <= 255,
        ;
    }
    (value as u16 * brightness as u16 / u8::MAX as u16) as u8
}

/// [`scale_color`] as a function on colors.
pub open spec fn spec_scale_color(color: RGB8, brightness: u8) -> RGB8 {
    RGB8 {
        r: spec_scale_channel(color.r, brightness),
        g: spec_scale_channel(color.g, brightness),
        b: spec_scale_channel(color.b, brightness),
    }
}

pub fn scale_color(color: RGB8, brightness: u8) -> (r: RGB8)
    ensures
        r == spec_scale_color(color, brightness),
{
    RGB8::new(
        scale_channel(color.r, brightness),
        scale_channel(color.g, brightness),
        scale_channel(color.b, brightness),
    )
}

/// Full brightness shows every color as set, and zero brightness turns every LED off.
pub proof fn lemma_brightness_extremes(color: RGB8)
    ensures
        spec_scale_color(color, 255) == color,
        spec_scale_color(color, 0) == (RGB8 { r: 0, g: 0, b: 0 }),
{
}

/// The desired color of every one of `N` LEDs plus a global brightness scale; the frame it
/// makes is what the strip is updated with.
pub struct LedStrip<const N: usize> {
    colors: [RGB8; N],
    brightness: u8,
}

impl<const N: usize> LedStrip<N> {
    pub closed spec fn spec_colors(self) -> Seq<RGB8> {
        self.colors@
    }

    pub closed spec fn spec_brightness(self) -> u8 {
        self.brightness
    }

    /// Every LED off, at the default brightness.
    pub fn new() -> (r: Self)
        ensures
            r.spec_colors().len() == N,
            forall|i: int| 0 <= i < N ==> #[trigger] r.spec_colors()[i] == (RGB8 { r: 0, g: 0, b: 0 }),
            r.spec_brightness() == DEFAULT_BRIGHTNESS,
    {
        LedStrip { colors: [RGB8 { r: 0, g: 0, b: 0 }; N], brightness: DEFAULT_BRIGHTNESS }
    }

    pub fn color(&self, index: usize) -> (r: RGB8)
        requires
            index < N,
        ensures
            r == self.spec_colors()[index as int],
    {
        self.colors[index]
    }

    pub fn set_color(&mut self, index: usize, color: RGB8)
        requires
            index < N,
        ensures
            final(self).spec_colors() == old(self).spec_colors().update(index as int, color),
            final(self).spec_brightness() == old(self).spec_brightness(),
    {
        self.colors[index] = color;
    }

    pub fn brightness(&self) -> (r: u8)
        ensures
            r == self.spec_brightness(),
    {
        self.brightness
    }

    /// Sets the global brightness scale, where `0` is off and `u8::MAX` is full brightness.
    pub fn set_brightness(&mut self, brightness: u8)
        ensures
            final(self).spec_brightness() == brightness,
            final(self).spec_colors() == old(self).spec_colors(),
    {
        self.brightness = brightness;
    }

    /// The current colors scaled by the global brightness: what the strip is written with.
    pub fn frame(&self) -> (r: [RGB8; N])
        ensures
            forall|i: int| 0 <= i < N ==> #[trigger] r@[i] == spec_scale_color(self.spec_colors()[i], self.spec_brightness()),
    {
        let mut frame = self.colors;
        let mut i: usize = 0;
        while i < N
            invariant
                i <= N,
                frame@.len() == N,
                forall|j: int| 0 <= j < i ==> #[trigger] frame@[j] == spec_scale_color(self.colors@[j], self.brightness),
            decreases N - i,
        {
            frame[i] = scale_color(self.colors[i], self.brightness);
            i += 1;
        }
        frame
    }
}

} // verus!
