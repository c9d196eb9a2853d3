//! Which dimensions a view mode shows and which it slices.

use crate::slicing::is_displayed;
use crate::view_mode::ViewMode;
use vstd::prelude::*;

verus! {

/// Tells displayed from sliced dimensions for one view mode.
#[derive(Debug, Clone, Copy)]
pub struct DimensionCalculator {
    ndim: usize,
    view_mode: ViewMode,
    display_dims: (usize, usize),
}

/// `dims` lists, in ascending order and without repetition, exactly the
/// dimensions below `ndim` for which `keep` holds.
pub open spec fn lists_exactly(dims: Seq<usize>, ndim: nat, keep: spec_fn(int) -> bool) -> bool {
    &&& forall|a: int, b: int| 0 <= a < b < dims.len() ==> dims[a] < dims[b]
    &&& forall|a: int| 0 <= a < dims.len() ==> dims[a] < ndim && keep(dims[a] as int)
    &&& forall|d: usize| d < ndim && keep(d as int) ==> #[trigger] dims.contains(d)
}

impl DimensionCalculator {
    /// Rank that the calculator was made for.
    pub closed spec fn rank(&self) -> nat {
        self.ndim as nat
    }

    /// View mode that the calculator was made for.
    pub closed spec fn mode(&self) -> ViewMode {
        self.view_mode
    }

    /// Display dimensions that the calculator was made for.
    pub closed spec fn pair(&self) -> (usize, usize) {
        self.display_dims
    }

    /// The dimension that a plot runs along: the first display dimension
    /// from rank two on, dimension zero below.
    pub open spec fn plot_dimension(&self) -> usize {
        if self.rank() <= 1 {
            0
        } else {
            self.pair().0
        }
    }

    /// Whether `dim` is on screen in the calculator's view mode.
    pub open spec fn shows(&self, dim: int) -> bool {
        if self.mode() is Plot1D {
            dim == self.plot_dimension()
        } else if self.rank() >= 2 {
            dim == self.pair().0 || dim == self.pair().1
        } else if self.rank() == 1 {
            dim == 0
        } else {
            false
        }
    }

    /// Whether `dim` is held in the calculator's view mode.
    pub open spec fn slices(&self, dim: int) -> bool {
        if self.mode() is Plot1D {
            dim != self.plot_dimension()
        } else {
            dim != self.pair().0 && dim != self.pair().1
        }
    }

    /// A calculator for a variable of rank `ndim` shown in `view_mode` with
    /// the given display dimensions.
    pub fn new(ndim: usize, view_mode: ViewMode, display_dims: (usize, usize)) -> (r: Self)
        ensures
            r.rank() == ndim,
            r.mode() == view_mode,
            r.pair() == display_dims,
    {
        DimensionCalculator { ndim, view_mode, display_dims }
    }

    /// The dimension that a plot runs along.
    pub fn get_plot_dimension(&self) -> (r: usize)
        ensures
            r == self.plot_dimension(),
    {
        if self.ndim <= 1 {
            0
        } else {
            self.display_dims.0
        }
    }

    /// The held dimensions, in ascending order.
    pub fn get_slice_dimensions(&self) -> (r: Vec<usize>)
        ensures
            lists_exactly(r@, self.rank(), |d: int| self.slices(d)),
    {
        let plot_dim = self.get_plot_dimension();
        let is_plot = self.view_mode.is_1d();
        let mut out: Vec<usize> = Vec::new();
        let mut i: usize = 0;
        while i < self.ndim
            invariant
                i <= self.ndim,
                plot_dim == self.plot_dimension(),
                is_plot == (self.mode() is Plot1D),
                forall|a: int, b: int| 0 <= a < b < out@.len() ==> out@[a] < out@[b],
                forall|a: int| 0 <= a < out@.len() ==> out@[a] < i && self.slices(out@[a] as int),
                forall|d: usize| d < i && self.slices(d as int) ==> #[trigger] out@.contains(d),
            decreases self.ndim - i,
        {
            let held = if is_plot {
                i != plot_dim
            } else {
                i != self.display_dims.0 && i != self.display_dims.1
            };
            if held {
                let ghost before = out@;
                out.push(i);
                proof {
                    assert forall|d: usize| d < i + 1 && self.slices(d as int) implies #[trigger] out@.contains(
                        d,
                    ) by {
                        if d < i {
                            assert(before.contains(d));
                            let k = choose|k: int| 0 <= k < before.len() && before[k] == d;
                            assert(out@[k] == d);
                        } else {
                            assert(out@[before.len() as int] == d);
                        }
                    }
                }
            }
            i += 1;
        }
        out
    }

    /// The dimensions on screen: the plot dimension in a plot; otherwise the
    /// row and column dimensions from rank two on, dimension zero at rank
    /// one, none for a scalar.
    pub fn get_display_dimensions(&self) -> (r: Vec<usize>)
        ensures
            r@ =~= if self.mode() is Plot1D {
                seq![self.plot_dimension()]
            } else if self.rank() >= 2 {
                seq![self.pair().0, self.pair().1]
            } else if self.rank() == 1 {
                seq![0usize]
            } else {
                Seq::<usize>::empty()
            },
            forall|d: usize| self.shows(d as int) <==> #[trigger] r@.contains(d),
    {
        let mut out: Vec<usize> = Vec::new();
        if self.view_mode.is_1d() {
            out.push(self.get_plot_dimension());
            proof {
                assert(out@[0] == self.plot_dimension());
            }
        } else if self.ndim >= 2 {
            out.push(self.display_dims.0);
            out.push(self.display_dims.1);
        } else if self.ndim == 1 {
            out.push(0);
            proof {
                assert(out@[0] == 0);
            }
        }
        out
    }

    /// Whether `dim` is on screen.
    pub fn is_display_dimension(&self, dim: usize) -> (r: bool)
        ensures
            r == self.shows(dim as int),
    {
        if self.view_mode.is_1d() {
            dim == self.get_plot_dimension()
        } else if self.ndim >= 2 {
            dim == self.display_dims.0 || dim == self.display_dims.1
        } else if self.ndim == 1 {
            dim == 0
        } else {
            false
        }
    }

    /// Whether `dim` is not on screen.
    pub fn is_slice_dimension(&self, dim: usize) -> (r: bool)
        ensures
            r == !self.shows(dim as int),
    {
        !self.is_display_dimension(dim)
    }
}

/// From rank two on the calculator and the viewing session agree on which
/// dimensions are on screen.
pub proof fn lemma_calculator_agrees_with_session(calculator: DimensionCalculator, d: int)
    requires
        calculator.rank() >= 2,
    ensures
        calculator.shows(d) == is_displayed(
            calculator.pair(),
            calculator.mode().spec_is_1d(),
            d,
        ),
        0 <= d < calculator.rank() ==> calculator.slices(d) == !calculator.shows(d),
{
}

} // verus!
