//! The packed pixel color stored in the canvas.

use vstd::prelude::*;

verus! {

/// A color with 8-bit channels, as the canvas stores it and as the image
/// encoder expects it: one byte each for red, green and blue, no alpha.
///
/// Shading works on unclamped floating-point channels in the shell around
/// this crate; a color is clamped and packed into this form before it
/// reaches a pixel.
#[derive(Clone, Copy, Debug, PartialEq, Eq, Structural)]
pub struct ColorPack {
    pub r: u8,
    pub g: u8,
    pub b: u8,
}

} // verus!
