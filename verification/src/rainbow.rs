//! The rainbow pattern the LED strip test cycles through.

use vstd::prelude::*;

use crate::hal::led::RGB8;

verus! {

/// Maps a hue (0-255) to a fully saturated color, wrapping smoothly back to the start: one
/// channel rises while another falls, so the three always add up to full scale.
pub fn wheel(position: u8) -> (c: RGB8)
    ensures
        c.r + c.g + c.b == 255,
        ({
            let p = 255 - position;
            if p < 85 {
                c == (RGB8 { r: (255 - 3 * p) as u8, g: 0, b: (3 * p) as u8 })
            } else if p < 170 {
                c == (RGB8 { r: 0, g: (3 * (p - 85)) as u8, b: (255 - 3 * (p - 85)) as u8 })
            } else {
                c == (RGB8 { r: (3 * (p - 170)) as u8, g: (255 - 3 * (p - 170)) as u8, b: 0 })
            }
        }),
{
    let position = 255 - position;
    if position < 85 {
        RGB8::new(255 - position * 3, 0, position * 3)
    } else if position < 170 {
        let position = position - 85;
        RGB8::new(0, position * 3, 255 - position * 3)
    } else {
        let position = position - 170;
        RGB8::new(position * 3, 255 - position * 3, 0)
    }
}

/// Hue of LED `index` of `count` at animation step `offset`: the strip spread over the whole
/// wheel, shifted by the step.
pub fn led_hue(index: usize, count: usize, offset: u8) -> (r: u8)
    requires
        0 < count,
        index < count,
        index * 256 <= usize::MAX,
    ensures
        r == ((index * 256) as int / (count as int) + offset) % 256,
{
    proof {
        assert(((index * 256) as int / (count as int)) < 256) by (nonlinear_arith)
            requires
                index < count,
                0 < count,
        ;
    }
    ((index * 256 / count) as u8).wrapping_add(offset)
}

} // verus!
