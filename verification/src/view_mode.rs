//! The three ways a variable can be shown, and the palettes a heatmap can use.

use vstd::prelude::*;

verus! {

/// How the currently open variable is presented.
#[derive(Debug, Clone, Copy, PartialEq, Eq, Structural)]
pub enum ViewMode {
    /// Scrollable grid of values.
    Table,
    /// Line plot along one dimension.
    Plot1D,
    /// Colored raster of a two-dimensional slice.
    Heatmap,
}

impl ViewMode {
    /// The mode that follows `self` in the cycle Table, Plot1D, Heatmap, Table.
    pub open spec fn spec_next(self) -> ViewMode {
        match self {
            ViewMode::Table => ViewMode::Plot1D,
            ViewMode::Plot1D => ViewMode::Heatmap,
            ViewMode::Heatmap => ViewMode::Table,
        }
    }

    /// The mode that precedes `self` in the cycle.
    pub open spec fn spec_prev(self) -> ViewMode {
        match self {
            ViewMode::Table => ViewMode::Heatmap,
            ViewMode::Plot1D => ViewMode::Table,
            ViewMode::Heatmap => ViewMode::Plot1D,
        }
    }

    /// Whether the mode shows a single dimension.
    pub open spec fn spec_is_1d(self) -> bool {
        self is Plot1D
    }

    /// Advances to the next mode of the cycle.
    #[verifier::when_used_as_spec(spec_next)]
    pub fn next(self) -> (r: ViewMode)
        ensures
            r == self.spec_next(),
    {
        match self {
            ViewMode::Table => ViewMode::Plot1D,
            ViewMode::Plot1D => ViewMode::Heatmap,
            ViewMode::Heatmap => ViewMode::Table,
        }
    }

    /// Steps back to the previous mode of the cycle.
    #[verifier::when_used_as_spec(spec_prev)]
    pub fn prev(self) -> (r: ViewMode)
        ensures
            r == self.spec_prev(),
    {
        match self {
            ViewMode::Table => ViewMode::Heatmap,
            ViewMode::Plot1D => ViewMode::Table,
            ViewMode::Heatmap => ViewMode::Plot1D,
        }
    }

    /// Whether the mode shows a single dimension.
    #[verifier::when_used_as_spec(spec_is_1d)]
    pub fn is_1d(self) -> (r: bool)
        ensures
            r == self.spec_is_1d(),
    {
        match self {
            ViewMode::Plot1D => true,
            _ => false,
        }
    }

    /// Name shown to the user.
    pub fn name(self) -> (r: &'static str)
        ensures
            r@ == match self {
                ViewMode::Table => "Table"@,
                ViewMode::Plot1D => "1D Plot"@,
                ViewMode::Heatmap => "Heatmap"@,
            },
    {
        match self {
            ViewMode::Table => "Table",
            ViewMode::Plot1D => "1D Plot",
            ViewMode::Heatmap => "Heatmap",
        }
    }
}

impl Default for ViewMode {
    fn default() -> (r: ViewMode)
        ensures
            r == ViewMode::Table,
    {
        ViewMode::Table
    }
}

/// The mode cycle has period three, and stepping back undoes stepping forward.
pub proof fn lemma_view_mode_cycle(mode: ViewMode)
    ensures
        mode.spec_next().spec_next().spec_next() == mode,
        mode.spec_next().spec_prev() == mode,
        mode.spec_prev().spec_next() == mode,
        mode.spec_next() != mode,
{
}

/// Color scheme of the heatmap.
#[derive(Debug, Clone, Copy, PartialEq, Eq, Structural)]
pub enum ColorPalette {
    /// Dark purple over teal to yellow.
    Viridis,
    /// Dark blue over magenta to yellow.
    Plasma,
    /// Full-saturation hue sweep from blue to red.
    Rainbow,
    /// Blue over white to red.
    BlueRed,
}

impl ColorPalette {
    /// The palette that follows `self` in the cycle.
    pub open spec fn spec_next(self) -> ColorPalette {
        match self {
            ColorPalette::Viridis => ColorPalette::Plasma,
            ColorPalette::Plasma => ColorPalette::Rainbow,
            ColorPalette::Rainbow => ColorPalette::BlueRed,
            ColorPalette::BlueRed => ColorPalette::Viridis,
        }
    }

    /// Advances to the next palette of the cycle.
    #[verifier::when_used_as_spec(spec_next)]
    pub fn next(self) -> (r: ColorPalette)
        ensures
            r == self.spec_next(),
    {
        match self {
            ColorPalette::Viridis => ColorPalette::Plasma,
            ColorPalette::Plasma => ColorPalette::Rainbow,
            ColorPalette::Rainbow => ColorPalette::BlueRed,
            ColorPalette::BlueRed => ColorPalette::Viridis,
        }
    }

    /// Name shown to the user.
    pub fn name(self) -> (r: &'static str)
        ensures
            r@ == match self {
                ColorPalette::Viridis => "Viridis"@,
                ColorPalette::Plasma => "Plasma"@,
                ColorPalette::Rainbow => "Rainbow"@,
                ColorPalette::BlueRed => "Blue-Red"@,
            },
    {
        match self {
            ColorPalette::Viridis => "Viridis",
            ColorPalette::Plasma => "Plasma",
            ColorPalette::Rainbow => "Rainbow",
            ColorPalette::BlueRed => "Blue-Red",
        }
    }
}

impl Default for ColorPalette {
    fn default() -> (r: ColorPalette)
        ensures
            r == ColorPalette::Viridis,
    {
        ColorPalette::Viridis
    }
}

} // verus!
