//! The viewing session as a mathematical state machine.
//!
//! `ViewerModel` is what a `DataViewerState` stands for. Every operation of
//! the viewer is a function from model to model, written here once; the
//! executable viewer is proved to follow it. The facts that relate several
//! operations are proved here.

use crate::slicing::{first_free_dim, free_count, free_rank, is_displayed, next_free_dim,
    revalidated, ScrollPosition};
use crate::view_mode::{ColorPalette, ViewMode};
use vstd::arithmetic::div_mod::{lemma_add_mod_noop, lemma_mod_multiples_vanish, lemma_small_mod};
use vstd::prelude::*;

verus! {

/// Largest position along a dimension of the given extent; zero when the
/// dimension is empty.
pub open spec fn last_position(extent: usize) -> usize {
    if extent == 0 {
        0
    } else {
        (extent - 1) as usize
    }
}

/// `value` limited to the positions of a dimension of the given extent.
pub open spec fn clamp_position(value: int, extent: usize) -> usize {
    if value < 0 {
        0
    } else if value > last_position(extent) {
        last_position(extent)
    } else {
        value as usize
    }
}

/// `value + amount`, limited to what a `usize` can hold.
pub open spec fn saturating_sum(value: usize, amount: usize) -> usize {
    if value + amount > usize::MAX {
        usize::MAX
    } else {
        (value + amount) as usize
    }
}

/// What a viewer holds, as plain mathematical values.
pub struct ViewerModel {
    /// Extents of the open variable; `None` while no variable is open.
    pub shape: Option<Seq<usize>>,
    /// Whether the open variable carries a scale/offset transform.
    pub can_scale: bool,
    /// Current view mode.
    pub mode: ViewMode,
    /// Current heatmap palette.
    pub palette: ColorPalette,
    /// First visible row and column of the table.
    pub scroll: ScrollPosition,
    /// Position at which each dimension is held while off screen.
    pub slice_indices: Seq<usize>,
    /// Dimensions shown as rows and columns.
    pub display_dims: (usize, usize),
    /// The off-screen dimension that the keyboard adjusts.
    pub active: Option<usize>,
    /// Whether the viewer is on screen.
    pub visible: bool,
    /// Message of the failure that emptied the viewer, if any.
    pub error: Option<Seq<char>>,
    /// Transient message shown inside the viewer, if any.
    pub status: Option<Seq<char>>,
    /// Position of the probe along the plotted dimension.
    pub plot_cursor: usize,
    /// Row and column of the heatmap crosshair, in data coordinates.
    pub heat_cursor: (usize, usize),
    /// Whether values are shown scaled.
    pub apply_scale: bool,
}

impl ViewerModel {
    /// Rank of the open variable; zero while none is open.
    pub open spec fn ndim(self) -> int {
        match self.shape {
            Some(s) => s.len() as int,
            None => 0,
        }
    }

    /// Whether the current mode shows a single dimension.
    pub open spec fn is_1d(self) -> bool {
        self.mode.spec_is_1d()
    }

    /// Number of off-screen dimensions.
    pub open spec fn free(self) -> int {
        free_count(self.ndim(), self.display_dims, self.is_1d())
    }

    /// The invariants of a session. They constrain nothing while no variable
    /// is open.
    pub open spec fn wf(self) -> bool {
        self.shape matches Some(s) ==> {
            let n = s.len() as int;
            let d = self.display_dims;
            &&& n <= usize::MAX
            &&& self.slice_indices.len() == n
            &&& forall|k: int| 0 <= k < n ==> #[trigger] self.slice_indices[k] <= last_position(s[k])
            &&& n < 2 ==> d == (0usize, 0usize)
            &&& n >= 2 ==> d.0 < n && d.1 < n
            &&& n >= 2 && !self.is_1d() ==> d.0 != d.1
            &&& self.active matches Some(a) ==> a < n && !is_displayed(d, self.is_1d(), a as int)
            &&& self.active is None ==> self.free() == 0
            &&& n >= 1 && self.is_1d() ==> self.plot_cursor <= last_position(s[d.0 as int])
            &&& n < 2 ==> self.heat_cursor == (0usize, 0usize)
            &&& n >= 2 ==> self.heat_cursor.0 <= last_position(s[d.0 as int]) && self.heat_cursor.1
                <= last_position(s[d.1 as int])
        }
    }

    /// Number of rows of the current view.
    pub open spec fn view_rows(self) -> usize {
        match self.shape {
            Some(s) => if s.len() == 0 {
                1
            } else if s.len() == 1 {
                s[0]
            } else {
                s[self.display_dims.0 as int]
            },
            None => 0,
        }
    }

    /// Number of columns of the current view.
    pub open spec fn view_cols(self) -> usize {
        match self.shape {
            Some(s) => if s.len() <= 1 {
                1
            } else {
                s[self.display_dims.1 as int]
            },
            None => 0,
        }
    }

    /// The state after the display dimensions or the mode changed: cursors
    /// are limited to the new extents and the selector is revalidated.
    pub open spec fn settled(self, mode: ViewMode, dims: (usize, usize)) -> ViewerModel {
        match self.shape {
            Some(s) => {
                let n = s.len() as int;
                ViewerModel {
                    mode,
                    display_dims: dims,
                    plot_cursor: if n >= 1 {
                        clamp_position(self.plot_cursor as int, s[dims.0 as int])
                    } else {
                        self.plot_cursor
                    },
                    heat_cursor: if n >= 2 {
                        (
                            clamp_position(self.heat_cursor.0 as int, s[dims.0 as int]),
                            clamp_position(self.heat_cursor.1 as int, s[dims.1 as int]),
                        )
                    } else {
                        self.heat_cursor
                    },
                    active: revalidated(self.active, n, dims, mode.spec_is_1d()),
                    ..self
                }
            },
            None => ViewerModel { mode, ..self },
        }
    }

    /// The state after switching to `mode`. A two-dimensional mode needs two
    /// distinct display dimensions: if both name the same dimension, the
    /// second moves on to the next one.
    pub open spec fn entered(self, mode: ViewMode) -> ViewerModel {
        let n = self.ndim();
        let d = self.display_dims;
        let dims = if n >= 2 && !mode.spec_is_1d() && d.0 == d.1 {
            (d.0, ((d.1 + 1) % n) as usize)
        } else {
            d
        };
        self.settled(mode, dims)
    }

    /// The state after `cycle_view_mode`.
    pub open spec fn mode_cycled(self) -> ViewerModel {
        self.entered(self.mode.spec_next())
    }

    /// The state after `cycle_color_palette`.
    pub open spec fn palette_cycled(self) -> ViewerModel {
        ViewerModel { palette: self.palette.spec_next(), ..self }
    }

    /// The state after `toggle_scale_offset`.
    pub open spec fn scale_toggled(self) -> ViewerModel {
        if self.shape is Some && self.can_scale {
            ViewerModel { apply_scale: !self.apply_scale, ..self }
        } else {
            self
        }
    }

    /// The state after `rotate_display_dims`: in two-dimensional modes and
    /// from rank two on, rows and columns trade places and the crosshair
    /// follows.
    pub open spec fn rotated(self) -> ViewerModel {
        if self.ndim() >= 2 && !self.is_1d() {
            ViewerModel {
                display_dims: (self.display_dims.1, self.display_dims.0),
                heat_cursor: (self.heat_cursor.1, self.heat_cursor.0),
                ..self
            }
        } else {
            self
        }
    }

    /// One step from `current` along the dimensions, wrapping at both ends.
    pub open spec fn stepped(self, current: usize, forward: bool) -> usize {
        let n = self.ndim();
        if forward {
            ((current + 1) % n) as usize
        } else {
            ((current + n - 1) % n) as usize
        }
    }

    /// The state after `set_display_dim(which, forward)`: the chosen display
    /// dimension moves one step; in two-dimensional modes it moves a second
    /// step if the first would land on the other display dimension.
    pub open spec fn display_stepped(self, which: usize, forward: bool) -> ViewerModel {
        if self.ndim() >= 1 {
            let d = self.display_dims;
            let current = if which == 0 {
                d.0
            } else {
                d.1
            };
            let other = if which == 0 {
                d.1
            } else {
                d.0
            };
            let first = self.stepped(current, forward);
            let next = if !self.is_1d() && first == other {
                self.stepped(first, forward)
            } else {
                first
            };
            let dims = if which == 0 {
                (next, d.1)
            } else {
                (d.0, next)
            };
            self.settled(self.mode, dims)
        } else {
            self
        }
    }

    /// The state after `advance_slice(dim, delta)`: the position of an
    /// off-screen dimension moves by `delta`, limited to its extent.
    pub open spec fn slice_advanced(self, dim: usize, delta: int) -> ViewerModel {
        match self.shape {
            Some(s) => if dim < s.len() && dim < self.slice_indices.len() && !is_displayed(
                self.display_dims,
                self.is_1d(),
                dim as int,
            ) {
                ViewerModel {
                    slice_indices: self.slice_indices.update(
                        dim as int,
                        clamp_position(self.slice_indices[dim as int] + delta, s[dim as int]),
                    ),
                    ..self
                }
            } else {
                self
            },
            None => self,
        }
    }

    /// The state after `next_dim_selector`: the selector moves to the next
    /// off-screen dimension in ascending order, wrapping; it moves to the
    /// lowest one if it named none.
    pub open spec fn selector_advanced(self) -> ViewerModel {
        let n = self.ndim();
        let d = self.display_dims;
        if self.shape is Some && n >= (if self.is_1d() {
            2int
        } else {
            3int
        }) && self.free() > 0 {
            let valid = self.active is Some && self.active->0 < n && !is_displayed(
                d,
                self.is_1d(),
                self.active->0 as int,
            );
            ViewerModel {
                active: if valid {
                    Some(next_free_dim(n, d, self.is_1d(), self.active->0 as int) as usize)
                } else {
                    first_free_dim(n, d, self.is_1d())
                },
                ..self
            }
        } else {
            self
        }
    }

    /// The state after `n` calls of `next_dim_selector`.
    pub open spec fn selector_advanced_by(self, n: nat) -> ViewerModel
        decreases n,
    {
        if n == 0 {
            self
        } else {
            self.selector_advanced_by((n - 1) as nat).selector_advanced()
        }
    }

    /// The state after the plot probe moved by `delta` positions.
    pub open spec fn plot_cursor_moved(self, delta: int) -> ViewerModel {
        match self.shape {
            Some(s) => if s.len() >= 1 && self.view_rows() > 0 {
                ViewerModel {
                    plot_cursor: clamp_position(self.plot_cursor + delta, self.view_rows()),
                    ..self
                }
            } else {
                self
            },
            None => self,
        }
    }

    /// The state after the crosshair moved by `drow` rows and `dcol` columns.
    pub open spec fn heat_cursor_moved(self, drow: int, dcol: int) -> ViewerModel {
        match self.shape {
            Some(s) => if s.len() >= 2 {
                ViewerModel {
                    heat_cursor: (
                        clamp_position(self.heat_cursor.0 + drow, s[self.display_dims.0 as int]),
                        clamp_position(self.heat_cursor.1 + dcol, s[self.display_dims.1 as int]),
                    ),
                    ..self
                }
            } else {
                self
            },
            None => self,
        }
    }

    /// The state after the table scrolled up by `amount` rows.
    pub open spec fn scrolled_up(self, amount: usize) -> ViewerModel {
        ViewerModel {
            scroll: ScrollPosition {
                row: if self.scroll.row >= amount {
                    (self.scroll.row - amount) as usize
                } else {
                    0
                },
                col: self.scroll.col,
            },
            ..self
        }
    }

    /// The state after the table scrolled left by `amount` columns.
    pub open spec fn scrolled_left(self, amount: usize) -> ViewerModel {
        ViewerModel {
            scroll: ScrollPosition {
                row: self.scroll.row,
                col: if self.scroll.col >= amount {
                    (self.scroll.col - amount) as usize
                } else {
                    0
                },
            },
            ..self
        }
    }

    /// The state after the table scrolled down by `amount` rows, never past
    /// the last row.
    pub open spec fn scrolled_down(self, amount: usize) -> ViewerModel {
        if self.shape is Some {
            let target = saturating_sum(self.scroll.row, amount);
            let last = last_position(self.view_rows());
            ViewerModel {
                scroll: ScrollPosition {
                    row: if target < last {
                        target
                    } else {
                        last
                    },
                    col: self.scroll.col,
                },
                ..self
            }
        } else {
            self
        }
    }

    /// The state after the table scrolled right by `amount` columns, never
    /// past the last column.
    pub open spec fn scrolled_right(self, amount: usize) -> ViewerModel {
        if self.shape is Some {
            let target = saturating_sum(self.scroll.col, amount);
            let last = last_position(self.view_cols());
            ViewerModel {
                scroll: ScrollPosition {
                    row: self.scroll.row,
                    col: if target < last {
                        target
                    } else {
                        last
                    },
                },
                ..self
            }
        } else {
            self
        }
    }

    /// The state after a variable of the given extents was opened. The view
    /// mode and the palette stay; everything else starts afresh.
    pub open spec fn opened(self, shape: Seq<usize>, can_scale: bool) -> ViewerModel {
        let n = shape.len() as int;
        let dims = if n >= 2 {
            ((n - 2) as usize, (n - 1) as usize)
        } else {
            (0usize, 0usize)
        };
        ViewerModel {
            shape: Some(shape),
            can_scale,
            mode: self.mode,
            palette: self.palette,
            scroll: ScrollPosition { row: 0, col: 0 },
            slice_indices: Seq::new(shape.len(), |i: int| 0usize),
            display_dims: dims,
            active: first_free_dim(n, dims, self.is_1d()),
            visible: true,
            error: None,
            status: None,
            plot_cursor: 0,
            heat_cursor: (0, 0),
            apply_scale: true,
        }
    }

    /// The state after a load failed with the given message.
    pub open spec fn failed(self, message: Seq<char>) -> ViewerModel {
        ViewerModel { shape: None, can_scale: false, error: Some(message), visible: true, ..self }
    }

    /// The state after the viewer was closed.
    pub open spec fn closed(self) -> ViewerModel {
        ViewerModel { shape: None, can_scale: false, error: None, visible: false, ..self }
    }
}

/// A freshly opened variable satisfies the session invariants.
pub proof fn lemma_opened_wf(m: ViewerModel, shape: Seq<usize>, can_scale: bool)
    requires
        shape.len() <= usize::MAX,
    ensures
        m.opened(shape, can_scale).wf(),
{
}


/// Every operation keeps the session invariants.
pub proof fn lemma_operations_keep_wf(m: ViewerModel)
    requires
        m.wf(),
    ensures
        m.mode_cycled().wf(),
        forall|mode: ViewMode| (#[trigger] m.entered(mode)).wf(),
        m.palette_cycled().wf(),
        m.scale_toggled().wf(),
        m.rotated().wf(),
        forall|which: usize, forward: bool| (#[trigger] m.display_stepped(which, forward)).wf(),
        forall|dim: usize, delta: int| (#[trigger] m.slice_advanced(dim, delta)).wf(),
        m.selector_advanced().wf(),
        forall|delta: int| (#[trigger] m.plot_cursor_moved(delta)).wf(),
        forall|drow: int, dcol: int| (#[trigger] m.heat_cursor_moved(drow, dcol)).wf(),
        forall|amount: usize| (#[trigger] m.scrolled_up(amount)).wf(),
        forall|amount: usize| (#[trigger] m.scrolled_down(amount)).wf(),
        forall|amount: usize| (#[trigger] m.scrolled_left(amount)).wf(),
        forall|amount: usize| (#[trigger] m.scrolled_right(amount)).wf(),
        forall|message: Seq<char>| (#[trigger] m.failed(message)).wf(),
        m.closed().wf(),
{
    assert forall|mode: ViewMode| (#[trigger] m.entered(mode)).wf() by {
        lemma_entered_wf(m, mode);
    }
    assert forall|which: usize, forward: bool| (#[trigger] m.display_stepped(which, forward)).wf() by {
        lemma_display_stepped_wf(m, which, forward);
    }
    assert forall|dim: usize, delta: int| (#[trigger] m.slice_advanced(dim, delta)).wf() by {}
    lemma_selector_advanced_wf(m);
}

/// Switching the mode keeps the invariants.
pub proof fn lemma_entered_wf(m: ViewerModel, mode: ViewMode)
    requires
        m.wf(),
    ensures
        m.entered(mode).wf(),
{
    let n = m.ndim();
    let d = m.display_dims;
    if n >= 2 && !mode.spec_is_1d() && d.0 == d.1 {
        let moved = (d.1 + 1) % n;
        assert(0 <= moved < n && moved != d.0) by (nonlinear_arith)
            requires
                n >= 2,
                0 <= d.0 < n,
                d.0 == d.1,
                moved == (d.1 + 1) % n,
        ;
    }
}


/// One step along the dimensions stays among them and, from rank two on,
/// leaves its starting point.
pub proof fn lemma_stepped(m: ViewerModel, current: usize, forward: bool)
    requires
        1 <= m.ndim() <= usize::MAX,
        current < m.ndim(),
    ensures
        m.stepped(current, forward) < m.ndim(),
        m.ndim() >= 2 ==> m.stepped(current, forward) != current,
        m.ndim() >= 3 ==> m.stepped(m.stepped(current, forward), forward) != current,
        m.ndim() == 2 ==> m.stepped(m.stepped(current, forward), forward) == current,
        m.ndim() == 1 ==> m.stepped(current, forward) == 0,
{
    let n = m.ndim();
    let c = current as int;
    assert((c + 1) % n == if c + 1 < n {
        c + 1
    } else {
        0
    }) by {
        if c + 1 < n {
            lemma_small_mod((c + 1) as nat, n as nat);
        } else {
            lemma_mod_multiples_vanish(1, 0, n);
        }
    }
    assert((c + n - 1) % n == if c >= 1 {
        c - 1
    } else {
        n - 1
    }) by {
        if c >= 1 {
            lemma_mod_multiples_vanish(1, c - 1, n);
            lemma_small_mod((c - 1) as nat, n as nat);
        } else {
            lemma_small_mod((n - 1) as nat, n as nat);
        }
    }
    let s = m.stepped(current, forward) as int;
    assert((s + 1) % n == if s + 1 < n {
        s + 1
    } else {
        0
    }) by {
        if s + 1 < n {
            lemma_small_mod((s + 1) as nat, n as nat);
        } else {
            lemma_mod_multiples_vanish(1, 0, n);
        }
    }
    assert((s + n - 1) % n == if s >= 1 {
        s - 1
    } else {
        n - 1
    }) by {
        if s >= 1 {
            lemma_mod_multiples_vanish(1, s - 1, n);
            lemma_small_mod((s - 1) as nat, n as nat);
        } else {
            lemma_small_mod((n - 1) as nat, n as nat);
        }
    }
}

/// Stepping a display dimension keeps the invariants.
pub proof fn lemma_display_stepped_wf(m: ViewerModel, which: usize, forward: bool)
    requires
        m.wf(),
    ensures
        m.display_stepped(which, forward).wf(),
{
    if m.shape is Some && m.ndim() >= 1 {
        let d = m.display_dims;
        let current = if which == 0 {
            d.0
        } else {
            d.1
        };
        let first = m.stepped(current, forward);
        lemma_stepped(m, first, forward);
    }
}


/// The selector only ever names an off-screen dimension, and advancing it
/// moves it one place along the off-screen dimensions, wrapping.
pub proof fn lemma_selector_advanced_wf(m: ViewerModel)
    requires
        m.wf(),
    ensures
        m.selector_advanced().wf(),
        m.shape is Some ==> (m.selector_advanced().active matches Some(a) ==> a < m.ndim()
            && !is_displayed(m.display_dims, m.is_1d(), a as int)),
        m.shape is Some && m.free() > 0 ==> {
            &&& m.active is Some
            &&& m.selector_advanced().active is Some
            &&& free_rank(
                m.display_dims,
                m.is_1d(),
                m.selector_advanced().active->0 as int,
            ) == (free_rank(m.display_dims, m.is_1d(), m.active->0 as int) + 1) % m.free()
        },
        m.shape is None || m.free() == 0 ==> m.selector_advanced() == m,
{
    if m.shape is Some {
        let n = m.ndim();
        if m.free() > 0 {
            let f = m.free();
            let p = free_rank(m.display_dims, m.is_1d(), m.active->0 as int);
            assert(0 <= (p + 1) % f < f) by (nonlinear_arith)
                requires
                    f > 0,
                    p >= 0,
            ;
        }
    }
}

/// Calling `next_dim_selector` any number of times keeps the invariants and
/// moves the selector that many places along the off-screen dimensions.
pub proof fn lemma_selector_advanced_by(m: ViewerModel, n: nat)
    requires
        m.wf(),
    ensures
        m.selector_advanced_by(n).wf(),
        m.selector_advanced_by(n) == (ViewerModel {
            active: m.selector_advanced_by(n).active,
            ..m
        }),
        m.shape is None || m.free() == 0 ==> m.selector_advanced_by(n) == m,
        m.shape is Some && m.free() > 0 ==> {
            &&& m.selector_advanced_by(n).active is Some
            &&& free_rank(
                m.display_dims,
                m.is_1d(),
                m.selector_advanced_by(n).active->0 as int,
            ) == (free_rank(m.display_dims, m.is_1d(), m.active->0 as int) + n) % m.free()
        },
    decreases n,
{
    if n == 0 {
        if m.shape is Some && m.free() > 0 {
            let p = free_rank(m.display_dims, m.is_1d(), m.active->0 as int);
            lemma_small_mod(p as nat, m.free() as nat);
        }
    } else {
        lemma_selector_advanced_by(m, (n - 1) as nat);
        if m.shape is Some && m.free() > 0 {
            let f = m.free();
            let p = free_rank(m.display_dims, m.is_1d(), m.active->0 as int);
            let q = (p + n - 1) % f;
            if f == 1 {
                assert((q + 1) % f == (p + n) % f) by (nonlinear_arith)
                    requires
                        f == 1,
                ;
            } else {
                lemma_add_mod_noop(p + n - 1, 1, f);
                lemma_small_mod(1, f as nat);
            }
        }
    }
}

/// The selector never names a dimension that is on screen, and it returns to
/// where it started after as many calls as there are off-screen dimensions.
pub proof fn lemma_selector_full_cycle(m: ViewerModel)
    requires
        m.wf(),
    ensures
        m.shape is Some ==> (m.selector_advanced().active matches Some(a) ==> !is_displayed(
            m.display_dims,
            m.is_1d(),
            a as int,
        )),
        m.free() >= 0 ==> m.selector_advanced_by(m.free() as nat) == m,
{
    if m.free() >= 0 {
        lemma_selector_returns(m, m.free() as nat);
    }
}

/// After a number of calls that is a multiple of the number of off-screen
/// dimensions, the selector is back where it started. With no off-screen
/// dimension the call changes nothing, so any number of calls will do.
pub proof fn lemma_selector_returns(m: ViewerModel, calls: nat)
    requires
        m.wf(),
        m.shape is Some && m.free() > 0 ==> calls % (m.free() as nat) == 0,
    ensures
        m.selector_advanced_by(calls) == m,
{
    lemma_selector_advanced_by(m, calls);
    if m.shape is Some && m.free() > 0 {
        let f = m.free();
        let p = free_rank(m.display_dims, m.is_1d(), m.active->0 as int);
        lemma_add_mod_noop(p, calls as int, f);
        lemma_small_mod(p as nat, f as nat);
    }
}

/// Calling `next_dim_selector` as many times as the variable has dimensions
/// restores the selector whenever the rank is a multiple of the number of
/// off-screen dimensions, and whenever there is no off-screen dimension.
pub proof fn lemma_selector_returns_after_ndim(m: ViewerModel)
    requires
        m.wf(),
        m.shape is Some && m.free() > 0 ==> m.ndim() % m.free() == 0,
    ensures
        m.selector_advanced_by(m.ndim() as nat) == m,
{
    lemma_selector_returns(m, m.ndim() as nat);
}

/// Rotating twice restores the whole state: display dimensions, crosshair
/// and everything else.
pub proof fn lemma_rotate_twice(m: ViewerModel)
    ensures
        m.rotated().rotated() == m,
        m.rotated().rotated().display_dims == m.display_dims,
        m.rotated().rotated().heat_cursor == m.heat_cursor,
{
}

} // verus!
