//! Plot state.

use vstd::prelude::*;

verus! {

/// State of the plot view. The plot keeps nothing between frames.
#[derive(Debug, Clone, Copy, PartialEq, Eq, Structural)]
pub struct PlotState;

impl PlotState {
    /// The one plot state.
    pub fn new() -> (r: PlotState)
        ensures
            r == PlotState,
    {
        PlotState
    }
}

impl Default for PlotState {
    fn default() -> (r: PlotState)
        ensures
            r == PlotState,
    {
        PlotState
    }
}

} // verus!
