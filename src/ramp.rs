//! A stepped red-blue gradient of one hundred colors, for a legend.

use crate::color::Rgba8;
use vstd::prelude::*;

verus! {

/// The number of steps of the gradient.
pub const RAMP_STEPS: u32 = 100;

/// The step at which red starts to rise.
pub const RED_START: u32 = 15;

/// How much a channel moves from one step to the next, in 255ths.
pub const RAMP_DELTA: u32 = 3;

/// Step `i` of the gradient: red rises by three 255ths per step from step 15
/// on, blue falls by three 255ths per step from the first step on and stops at
/// zero; green is zero and alpha full.
pub open spec fn ramp_color(i: int) -> Rgba8 {
    Rgba8 {
        r: (if i >= 15 { 3 * (i - 14) } else { 0 }) as u8,
        g: 0,
        b: (if 3 * (i + 1) <= 255 { 255 - 3 * (i + 1) } else { 0 }) as u8,
        a: 255,
    }
}

/// The hundred colors of the gradient, step 0 first.
pub fn color_scale() -> (colors: Vec<Rgba8>)
    ensures
        colors@.len() == RAMP_STEPS,
        forall|i: int| 0 <= i < RAMP_STEPS ==> #[trigger] colors@[i] == ramp_color(i),
{
    let mut colors: Vec<Rgba8> = Vec::new();
    let mut red: u8 = 0;
    let mut blue: u8 = 255;
    let mut v: u32 = 0;
    while v < RAMP_STEPS
        invariant
            v <= RAMP_STEPS,
            colors@.len() == v,
            red == (if v >= 15 { 3 * (v - 15) } else { 0 }),
            blue == (if 3 * v <= 255 { 255 - 3 * v } else { 0 }),
            forall|i: int| 0 <= i < v ==> #[trigger] colors@[i] == ramp_color(i),
        decreases RAMP_STEPS - v,
    {
        if v >= RED_START {
            red = red + RAMP_DELTA as u8;
        }
        blue = if blue >= RAMP_DELTA as u8 {
            blue - RAMP_DELTA as u8
        } else {
            0
        };
        colors.push(Rgba8 { r: red, g: 0, b: blue, a: 255 });
        v = v + 1;
    }
    colors
}

} // verus!
