//! Clear colours, held as integers.
//!
//! A channel counts thousandths of full intensity, so the colours that the
//! renderer is asked for compare exactly.

use vstd::prelude::*;

verus! {

/// The value of a channel at full intensity.
pub const FULL_INTENSITY: u16 = 1000;

/// A colour with four channels, each counted in thousandths of full intensity.
#[derive(Clone, Copy, Debug, PartialEq, Eq, Structural)]
pub struct ClearColor {
    pub red: u16,
    pub green: u16,
    pub blue: u16,
    pub alpha: u16,
}

/// The dark grey that an idle window is cleared to.
pub open spec fn ambient_color() -> ClearColor {
    ClearColor { red: 50, green: 50, blue: 50, alpha: 1000 }
}

/// The lighter grey that the default palette shows while the cursor is
/// visible.
pub open spec fn raised_color() -> ClearColor {
    ClearColor { red: 500, green: 500, blue: 500, alpha: 1000 }
}

impl ClearColor {
    /// An opaque colour.
    pub fn opaque(red: u16, green: u16, blue: u16) -> (color: ClearColor)
        ensures
            color == (ClearColor { red, green, blue, alpha: FULL_INTENSITY }),
    {
        ClearColor { red, green, blue, alpha: FULL_INTENSITY }
    }

    /// The dark grey that an idle window is cleared to.
    pub fn ambient() -> (color: ClearColor)
        ensures
            color == ambient_color(),
    {
        ClearColor { red: 50, green: 50, blue: 50, alpha: FULL_INTENSITY }
    }
}

/// The two colours that a window is cleared to: `base` ordinarily, and
/// `highlight` while the cursor is visible in a window that toggles it.
#[derive(Clone, Copy, Debug, PartialEq, Eq, Structural)]
pub struct Palette {
    pub base: ClearColor,
    pub highlight: ClearColor,
}

impl Palette {
    /// Whether the two states of the window can be told apart by colour.
    pub open spec fn is_distinct(self) -> bool {
        self.base != self.highlight
    }

    /// The colour for the given state of the cursor flag.
    pub open spec fn pick(self, highlighted: bool) -> ClearColor {
        if highlighted {
            self.highlight
        } else {
            self.base
        }
    }

    /// A palette of two colours that differ, or `None` where they are equal.
    pub fn new(base: ClearColor, highlight: ClearColor) -> (palette: Option<Palette>)
        ensures
            palette is Some <==> base != highlight,
            palette matches Some(p) ==> p.base == base && p.highlight == highlight
                && p.is_distinct(),
    {
        if base == highlight {
            None
        } else {
            Some(Palette { base, highlight })
        }
    }

    /// The colour for the given state of the cursor flag.
    pub fn color(&self, highlighted: bool) -> (color: ClearColor)
        ensures
            color == self.pick(highlighted),
    {
        if highlighted {
            self.highlight
        } else {
            self.base
        }
    }
}

impl Default for Palette {
    /// The ambient dark grey, and a lighter grey as highlight.
    fn default() -> (palette: Palette)
        ensures
            palette.base == ambient_color(),
            palette.highlight == raised_color(),
            palette.is_distinct(),
    {
        Palette {
            base: ClearColor::ambient(),
            highlight: ClearColor { red: 500, green: 500, blue: 500, alpha: FULL_INTENSITY },
        }
    }
}

/// A palette tells the two states apart exactly when its colours differ.
pub proof fn law_distinct_palette_shows_state(palette: Palette)
    ensures
        palette.is_distinct() <==> palette.pick(false) != palette.pick(true),
{
}

} // verus!
