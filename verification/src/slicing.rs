//! Which dimensions are shown, where the others are held, and which of the
//! held ones the keyboard currently adjusts.

use crate::view_mode::ViewMode;
use vstd::prelude::*;

verus! {

/// First visible row and column of the table view.
#[derive(Debug, Clone, Copy, PartialEq, Eq, Structural)]
pub struct ScrollPosition {
    /// First visible row.
    pub row: usize,
    /// First visible column.
    pub col: usize,
}

impl Default for ScrollPosition {
    fn default() -> (r: ScrollPosition)
        ensures
            r == (ScrollPosition { row: 0, col: 0 }),
    {
        ScrollPosition { row: 0, col: 0 }
    }
}

/// Whether dimension `d` is on screen: the first display dimension always is,
/// the second only in two-dimensional modes.
pub open spec fn is_displayed(dims: (usize, usize), is_1d: bool, d: int) -> bool {
    d == dims.0 || (!is_1d && d == dims.1)
}

/// Checks whether dimension `d` is on screen.
pub fn is_shown(dims: (usize, usize), is_1d: bool, d: usize) -> (r: bool)
    ensures
        r == is_displayed(dims, is_1d, d as int),
{
    d == dims.0 || (!is_1d && d == dims.1)
}

/// The lowest dimension below `ndim` that is not on screen, if there is one.
///
/// At most two dimensions are on screen, so it is among the first three.
pub open spec fn first_free_dim(ndim: int, dims: (usize, usize), is_1d: bool) -> Option<usize> {
    if 0 < ndim && !is_displayed(dims, is_1d, 0) {
        Some(0usize)
    } else if 1 < ndim && !is_displayed(dims, is_1d, 1) {
        Some(1usize)
    } else if 2 < ndim && !is_displayed(dims, is_1d, 2) {
        Some(2usize)
    } else {
        None
    }
}

/// The selector that stays after the display dimensions or the mode changed:
/// the old one while it names a dimension that exists and is off screen,
/// otherwise the lowest off-screen dimension.
pub open spec fn revalidated(
    active: Option<usize>,
    ndim: int,
    dims: (usize, usize),
    is_1d: bool,
) -> Option<usize> {
    if active is Some && active->0 < ndim && !is_displayed(dims, is_1d, active->0 as int) {
        active
    } else {
        first_free_dim(ndim, dims, is_1d)
    }
}

/// `first_free_dim` is the least off-screen dimension, and is absent exactly
/// when every dimension is on screen.
pub proof fn lemma_first_free_dim(ndim: int, dims: (usize, usize), is_1d: bool)
    ensures
        match first_free_dim(ndim, dims, is_1d) {
            Some(d) => {
                &&& d < ndim
                &&& !is_displayed(dims, is_1d, d as int)
                &&& forall|j: int| 0 <= j < d ==> is_displayed(dims, is_1d, j)
            },
            None => forall|j: int| 0 <= j < ndim ==> is_displayed(dims, is_1d, j),
        },
{
}

/// Number of dimensions below `ndim` that are off screen.
pub open spec fn free_count(ndim: int, dims: (usize, usize), is_1d: bool) -> int {
    ndim - (if dims.0 < ndim {
        1int
    } else {
        0int
    }) - (if !is_1d && dims.1 != dims.0 && dims.1 < ndim {
        1int
    } else {
        0int
    })
}

/// Number of off-screen dimensions below `d`: the place of `d` among the
/// off-screen dimensions in ascending order, when `d` is one of them.
pub open spec fn free_rank(dims: (usize, usize), is_1d: bool, d: int) -> int {
    free_count(d, dims, is_1d)
}

/// The off-screen dimension at place `r` in ascending order.
pub open spec fn free_at(dims: (usize, usize), is_1d: bool, r: int) -> int {
    if is_1d || dims.0 == dims.1 {
        if r < dims.0 {
            r
        } else {
            r + 1
        }
    } else {
        let lo = if dims.0 < dims.1 {
            dims.0
        } else {
            dims.1
        };
        let hi = if dims.0 < dims.1 {
            dims.1
        } else {
            dims.0
        };
        if r < lo {
            r
        } else if r + 1 < hi {
            r + 1
        } else {
            r + 2
        }
    }
}

/// The off-screen dimension that follows `current` in ascending order,
/// wrapping from the last to the first.
pub open spec fn next_free_dim(ndim: int, dims: (usize, usize), is_1d: bool, current: int) -> int {
    free_at(dims, is_1d, (free_rank(dims, is_1d, current) + 1) % free_count(ndim, dims, is_1d))
}

/// Places and off-screen dimensions correspond one to one, in ascending
/// order, and the lowest off-screen dimension has place zero.
pub proof fn lemma_free_places(ndim: int, dims: (usize, usize), is_1d: bool)
    requires
        0 <= ndim,
    ensures
        0 <= free_count(ndim, dims, is_1d) <= ndim,
        forall|d: int|
            0 <= d < ndim && !is_displayed(dims, is_1d, d) ==> {
                &&& 0 <= #[trigger] free_rank(dims, is_1d, d) < free_count(ndim, dims, is_1d)
                &&& free_at(dims, is_1d, free_rank(dims, is_1d, d)) == d
            },
        forall|r: int|
            0 <= r < free_count(ndim, dims, is_1d) ==> {
                &&& 0 <= #[trigger] free_at(dims, is_1d, r) < ndim
                &&& !is_displayed(dims, is_1d, free_at(dims, is_1d, r))
                &&& free_rank(dims, is_1d, free_at(dims, is_1d, r)) == r
            },
        forall|r1: int, r2: int|
            0 <= r1 < r2 ==> #[trigger] free_at(dims, is_1d, r1) < #[trigger] free_at(
                dims,
                is_1d,
                r2,
            ),
        free_count(ndim, dims, is_1d) > 0 ==> first_free_dim(ndim, dims, is_1d) == Some(
            free_at(dims, is_1d, 0) as usize,
        ),
        free_count(ndim, dims, is_1d) == 0 ==> first_free_dim(ndim, dims, is_1d) is None,
{
}

/// Display dimensions, per-dimension positions and the active selector.
#[derive(Debug)]
pub struct SlicingState {
    /// Position at which each dimension is held while it is off screen.
    pub slice_indices: Vec<usize>,
    /// Dimensions shown as rows and columns; one-dimensional modes use the first only.
    pub display_dims: (usize, usize),
    /// The off-screen dimension that the keyboard adjusts, if any.
    pub active_dim_selector: Option<usize>,
}

impl Default for SlicingState {
    fn default() -> (r: SlicingState)
        ensures
            r.slice_indices@.len() == 0,
            r.display_dims == (0usize, 0usize),
            r.active_dim_selector is None,
    {
        SlicingState { slice_indices: Vec::new(), display_dims: (0, 0), active_dim_selector: None }
    }
}

impl SlicingState {
    /// Initial state for a variable of rank `ndim`: every position zero, the
    /// last two dimensions on screen, the lowest off-screen dimension active.
    pub fn new(ndim: usize, view_mode: ViewMode) -> (r: SlicingState)
        ensures
            r.slice_indices@ =~= Seq::new(ndim as nat, |i: int| 0usize),
            r.display_dims == if ndim >= 2 {
                ((ndim - 2) as usize, (ndim - 1) as usize)
            } else {
                (0usize, 0usize)
            },
            r.active_dim_selector == first_free_dim(
                ndim as int,
                r.display_dims,
                view_mode.spec_is_1d(),
            ),
    {
        let mut slice_indices: Vec<usize> = Vec::new();
        let mut k: usize = 0;
        while k < ndim
            invariant
                k <= ndim,
                slice_indices@.len() == k,
                forall|j: int| 0 <= j < k ==> slice_indices@[j] == 0,
            decreases ndim - k,
        {
            slice_indices.push(0);
            k += 1;
        }
        let display_dims: (usize, usize) = if ndim >= 2 {
            (ndim - 2, ndim - 1)
        } else {
            (0, 0)
        };
        let mut state = SlicingState { slice_indices, display_dims, active_dim_selector: None };
        state.update_active_selector(ndim, view_mode);
        state
    }

    /// An independent copy of the state.
    pub fn duplicate(&self) -> (r: SlicingState)
        ensures
            r.slice_indices@ == self.slice_indices@,
            r.display_dims == self.display_dims,
            r.active_dim_selector == self.active_dim_selector,
    {
        let n = self.slice_indices.len();
        let mut slice_indices: Vec<usize> = Vec::new();
        let mut k: usize = 0;
        while k < n
            invariant
                n == self.slice_indices@.len(),
                k <= n,
                slice_indices@.len() == k,
                forall|j: int| 0 <= j < k ==> slice_indices@[j] == self.slice_indices@[j],
            decreases n - k,
        {
            slice_indices.push(self.slice_indices[k]);
            k += 1;
        }
        SlicingState {
            slice_indices,
            display_dims: self.display_dims,
            active_dim_selector: self.active_dim_selector,
        }
    }

    /// The lowest dimension below `ndim` that is off screen.
    pub fn first_slice_dim(&self, ndim: usize, is_1d: bool) -> (r: Option<usize>)
        ensures
            r == first_free_dim(ndim as int, self.display_dims, is_1d),
            match r {
                Some(d) => {
                    &&& d < ndim
                    &&& !is_displayed(self.display_dims, is_1d, d as int)
                    &&& forall|j: int| 0 <= j < d ==> is_displayed(self.display_dims, is_1d, j)
                },
                None => forall|j: int| 0 <= j < ndim ==> is_displayed(self.display_dims, is_1d, j),
            },
    {
        let mut i: usize = 0;
        while i < ndim
            invariant
                i <= ndim,
                forall|j: int| 0 <= j < i ==> is_displayed(self.display_dims, is_1d, j),
            decreases ndim - i,
        {
            let shown = i == self.display_dims.0 || (!is_1d && i == self.display_dims.1);
            if !shown {
                return Some(i);
            }
            i += 1;
        }
        None
    }

    /// Keeps the active selector if it still names an off-screen dimension
    /// below `ndim`; otherwise moves it to the lowest off-screen dimension, or
    /// clears it when there is none.
    pub fn update_active_selector(&mut self, ndim: usize, view_mode: ViewMode)
        ensures
            final(self).slice_indices == old(self).slice_indices,
            final(self).display_dims == old(self).display_dims,
            final(self).active_dim_selector == revalidated(
                old(self).active_dim_selector,
                ndim as int,
                old(self).display_dims,
                view_mode.spec_is_1d(),
            ),
    {
        let is_1d = view_mode.is_1d();
        if let Some(active) = self.active_dim_selector {
            let is_valid = if is_1d {
                active < ndim && active != self.display_dims.0
            } else {
                active < ndim && active != self.display_dims.0 && active != self.display_dims.1
            };
            if is_valid {
                return ;
            }
        }
        self.active_dim_selector = self.first_slice_dim(ndim, is_1d);
    }
}

} // verus!
