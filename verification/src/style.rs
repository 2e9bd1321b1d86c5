//! The palette that widget builders read their brushes from.

use vstd::prelude::*;

use crate::brush::{Brush, Color};

verus! {

/// A key naming one of the palette's brushes.
#[derive(Clone, Copy, PartialEq, Eq, Structural, Debug)]
pub enum StyleKey {
    /// The brush for light chrome such as frames.
    BrushLight,
    /// The brush for recessed backgrounds.
    BrushDarker,
    /// The brush for prominent foreground strokes.
    BrushBright,
    /// The brush for the most prominent foreground strokes.
    BrushBrightest,
}

/// A style is a palette of brushes, one per [`StyleKey`].
#[derive(Clone, Copy, PartialEq, Eq, Structural, Debug)]
pub struct Style {
    /// Brush behind [`StyleKey::BrushLight`].
    pub light: Brush,
    /// Brush behind [`StyleKey::BrushDarker`].
    pub darker: Brush,
    /// Brush behind [`StyleKey::BrushBright`].
    pub bright: Brush,
    /// Brush behind [`StyleKey::BrushBrightest`].
    pub brightest: Brush,
}

impl Style {
    /// The brush that `key` names in this style.
    pub open spec fn spec_property(self, key: StyleKey) -> Brush {
        match key {
            StyleKey::BrushLight => self.light,
            StyleKey::BrushDarker => self.darker,
            StyleKey::BrushBright => self.bright,
            StyleKey::BrushBrightest => self.brightest,
        }
    }

    /// Looks the brush for `key` up in this style.
    pub fn property(&self, key: StyleKey) -> (b: Brush)
        ensures
            b == self.spec_property(key),
    {
        match key {
            StyleKey::BrushLight => self.light,
            StyleKey::BrushDarker => self.darker,
            StyleKey::BrushBright => self.bright,
            StyleKey::BrushBrightest => self.brightest,
        }
    }

    /// The built-in dark theme: four shades of gray, from dim chrome to
    /// bright strokes.
    pub open spec fn spec_dark_theme() -> Style {
        Style {
            light: Brush::Solid(Color { r: 120, g: 120, b: 120, a: 255 }),
            darker: Brush::Solid(Color { r: 51, g: 51, b: 51, a: 255 }),
            bright: Brush::Solid(Color { r: 187, g: 187, b: 187, a: 255 }),
            brightest: Brush::Solid(Color { r: 255, g: 255, b: 255, a: 255 }),
        }
    }

    /// Builds the dark theme.
    pub fn dark_theme() -> (s: Style)
        ensures
            s == Style::spec_dark_theme(),
    {
        Style {
            light: Brush::Solid(Color::opaque_gray(120)),
            darker: Brush::Solid(Color::opaque_gray(51)),
            bright: Brush::Solid(Color::opaque_gray(187)),
            brightest: Brush::Solid(Color::opaque_gray(255)),
        }
    }
}

} // verus!
