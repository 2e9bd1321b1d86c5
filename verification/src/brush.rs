//! Colors and brushes used to paint widgets.

use vstd::prelude::*;

verus! {

/// An RGBA color with eight bits per channel.
#[derive(Clone, Copy, PartialEq, Eq, Structural, Debug)]
pub struct Color {
    pub r: u8,
    pub g: u8,
    pub b: u8,
    pub a: u8,
}

impl Color {
    /// The fully transparent black color.
    pub fn transparent() -> (c: Color)
        ensures
            c == (Color { r: 0, g: 0, b: 0, a: 0 }),
    {
        Color { r: 0, g: 0, b: 0, a: 0 }
    }

    /// An opaque gray color with the given intensity on all three channels.
    pub fn opaque_gray(intensity: u8) -> (c: Color)
        ensures
            c == (Color { r: intensity, g: intensity, b: intensity, a: 255 }),
    {
        Color { r: intensity, g: intensity, b: intensity, a: 255 }
    }
}

/// A brush tells how a widget's foreground or background is painted.
#[derive(Clone, Copy, PartialEq, Eq, Structural, Debug)]
pub enum Brush {
    /// Paint with one solid color.
    Solid(Color),
}

} // verus!
