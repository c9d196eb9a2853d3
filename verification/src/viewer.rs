//! The viewing session: one open variable together with everything the user
//! can change about how it is shown.
//!
//! The fields are private and every operation re-establishes the session
//! invariants, so no caller can observe or produce a state that breaks them.

use crate::keys::{command_for, viewer_command, KeyPress, ViewerCommand};
use crate::session::{clamp_position, lemma_operations_keep_wf, ViewerModel};
use crate::slicing::{first_free_dim, free_at, free_rank, lemma_free_places, revalidated,
    ScrollPosition, SlicingState};
use crate::variable::LoadedVariable;
use crate::view_mode::{ColorPalette, ViewMode};
use vstd::prelude::*;

verus! {

/// The part of a viewer that the session invariants tie to the variable.
#[derive(Debug)]
struct Session {
    view_mode: ViewMode,
    slicing: SlicingState,
    plot_cursor: usize,
    heat_cursor_row: usize,
    heat_cursor_col: usize,
}

/// State of the data viewer.
#[derive(Debug)]
pub struct DataViewerState<T> {
    variable: Option<LoadedVariable<T>>,
    session: Session,
    color_palette: ColorPalette,
    scroll: ScrollPosition,
    visible: bool,
    error: Option<String>,
    status_message: Option<String>,
    apply_scale_offset: bool,
}

/// `value + delta`, limited to the positions of a dimension of the given extent.
pub fn offset_position(value: usize, delta: isize, extent: usize) -> (r: usize)
    ensures
        r == clamp_position(value + delta, extent),
{
    let last: usize = if extent == 0 {
        0
    } else {
        extent - 1
    };
    if delta >= 0 {
        let step: usize = delta as usize;
        if value > last {
            last
        } else if step > last - value {
            last
        } else {
            value + step
        }
    } else {
        let back: usize = if delta == isize::MIN {
            (isize::MAX as usize) + 1
        } else {
            (-delta) as usize
        };
        if back > value {
            0
        } else if value - back > last {
            last
        } else {
            value - back
        }
    }
}

/// `value`, limited to the positions of a dimension of the given extent.
pub fn limit_position(value: usize, extent: usize) -> (r: usize)
    ensures
        r == clamp_position(value as int, extent),
{
    if extent == 0 {
        0
    } else if value > extent - 1 {
        extent - 1
    } else {
        value
    }
}

impl Session {
    fn fresh(ndim: usize, view_mode: ViewMode) -> (r: Session)
        ensures
            r.view_mode == view_mode,
            r.slicing.slice_indices@ =~= Seq::new(ndim as nat, |i: int| 0usize),
            r.slicing.display_dims == if ndim >= 2 {
                ((ndim - 2) as usize, (ndim - 1) as usize)
            } else {
                (0usize, 0usize)
            },
            r.slicing.active_dim_selector == first_free_dim(
                ndim as int,
                r.slicing.display_dims,
                view_mode.spec_is_1d(),
            ),
            r.plot_cursor == 0,
            r.heat_cursor_row == 0,
            r.heat_cursor_col == 0,
    {
        Session {
            view_mode,
            slicing: SlicingState::new(ndim, view_mode),
            plot_cursor: 0,
            heat_cursor_row: 0,
            heat_cursor_col: 0,
        }
    }

    fn duplicate(&self) -> (r: Session)
        ensures
            r.view_mode == self.view_mode,
            r.slicing.slice_indices@ == self.slicing.slice_indices@,
            r.slicing.display_dims == self.slicing.display_dims,
            r.slicing.active_dim_selector == self.slicing.active_dim_selector,
            r.plot_cursor == self.plot_cursor,
            r.heat_cursor_row == self.heat_cursor_row,
            r.heat_cursor_col == self.heat_cursor_col,
    {
        Session {
            view_mode: self.view_mode,
            slicing: self.slicing.duplicate(),
            plot_cursor: self.plot_cursor,
            heat_cursor_row: self.heat_cursor_row,
            heat_cursor_col: self.heat_cursor_col,
        }
    }

    /// Installs a mode and display dimensions, limits the cursors to the new
    /// extents and revalidates the selector.
    fn settle(&mut self, shape: &Vec<usize>, mode: ViewMode, dims: (usize, usize))
        requires
            shape@.len() >= 1 ==> dims.0 < shape@.len(),
            shape@.len() >= 2 ==> dims.1 < shape@.len(),
        ensures
            final(self).view_mode == mode,
            final(self).slicing.slice_indices@ == old(self).slicing.slice_indices@,
            final(self).slicing.display_dims == dims,
            final(self).slicing.active_dim_selector == revalidated(
                old(self).slicing.active_dim_selector,
                shape@.len() as int,
                dims,
                mode.spec_is_1d(),
            ),
            final(self).plot_cursor == if shape@.len() >= 1 {
                clamp_position(old(self).plot_cursor as int, shape@[dims.0 as int])
            } else {
                old(self).plot_cursor
            },
            final(self).heat_cursor_row == if shape@.len() >= 2 {
                clamp_position(old(self).heat_cursor_row as int, shape@[dims.0 as int])
            } else {
                old(self).heat_cursor_row
            },
            final(self).heat_cursor_col == if shape@.len() >= 2 {
                clamp_position(old(self).heat_cursor_col as int, shape@[dims.1 as int])
            } else {
                old(self).heat_cursor_col
            },
    {
        let ndim = shape.len();
        self.view_mode = mode;
        self.slicing.display_dims = dims;
        if ndim >= 1 {
            self.plot_cursor = limit_position(self.plot_cursor, shape[dims.0]);
        }
        if ndim >= 2 {
            self.heat_cursor_row = limit_position(self.heat_cursor_row, shape[dims.0]);
            self.heat_cursor_col = limit_position(self.heat_cursor_col, shape[dims.1]);
        }
        self.slicing.update_active_selector(ndim, mode);
    }
}

impl<T> DataViewerState<T> {
    /// The mathematical state that this viewer stands for.
    pub closed spec fn view(&self) -> ViewerModel {
        ViewerModel {
            shape: match self.variable {
                Some(v) => Some(v.dims()),
                None => None,
            },
            can_scale: match self.variable {
                Some(v) => v.can_scale(),
                None => false,
            },
            mode: self.session.view_mode,
            palette: self.color_palette,
            scroll: self.scroll,
            slice_indices: self.session.slicing.slice_indices@,
            display_dims: self.session.slicing.display_dims,
            active: self.session.slicing.active_dim_selector,
            visible: self.visible,
            error: match self.error {
                Some(e) => Some(e@),
                None => None,
            },
            status: match self.status_message {
                Some(s) => Some(s@),
                None => None,
            },
            plot_cursor: self.session.plot_cursor,
            heat_cursor: (self.session.heat_cursor_row, self.session.heat_cursor_col),
            apply_scale: self.apply_scale_offset,
        }
    }

    /// The variable that is open, if any.
    pub closed spec fn loaded(&self) -> Option<LoadedVariable<T>> {
        self.variable
    }

    #[verifier::type_invariant]
    spec fn well_formed(self) -> bool {
        self.view().wf()
    }
}

impl<T: Copy> DataViewerState<T> {
    /// A viewer with nothing open: hidden, in table mode, with the default palette.
    pub fn new() -> (r: Self)
        ensures
            r@ == (ViewerModel {
                shape: None,
                can_scale: false,
                mode: ViewMode::Table,
                palette: ColorPalette::Viridis,
                scroll: ScrollPosition { row: 0, col: 0 },
                slice_indices: Seq::empty(),
                display_dims: (0, 0),
                active: None,
                visible: false,
                error: None,
                status: None,
                plot_cursor: 0,
                heat_cursor: (0, 0),
                apply_scale: true,
            }),
            r.loaded() is None,
            r@.wf(),
    {
        let r = DataViewerState {
            variable: None,
            session: Session {
                view_mode: ViewMode::Table,
                slicing: SlicingState {
                    slice_indices: Vec::new(),
                    display_dims: (0, 0),
                    active_dim_selector: None,
                },
                plot_cursor: 0,
                heat_cursor_row: 0,
                heat_cursor_col: 0,
            },
            color_palette: ColorPalette::Viridis,
            scroll: ScrollPosition { row: 0, col: 0 },
            visible: false,
            error: None,
            status_message: None,
            apply_scale_offset: true,
        };
        r
    }

    /// Opens a variable: every position starts at zero, the last two
    /// dimensions are on screen, the lowest off-screen dimension is active,
    /// values are shown scaled. The view mode and the palette stay.
    pub fn load_variable(&mut self, var: LoadedVariable<T>)
        ensures
            final(self)@ == old(self)@.opened(var.dims(), var.can_scale()),
            final(self).loaded() == Some(var),
            final(self)@.wf(),
    {
        let ndim = var.ndim();
        self.variable = None;
        self.session = Session::fresh(ndim, self.session.view_mode);
        self.apply_scale_offset = true;
        self.scroll = ScrollPosition { row: 0, col: 0 };
        self.error = None;
        self.visible = true;
        self.status_message = None;
        self.variable = Some(var);
    }

    /// Records a failed load: the viewer is shown empty with the message.
    pub fn set_error(&mut self, error: String)
        ensures
            final(self)@ == old(self)@.failed(error@),
            final(self).loaded() is None,
            final(self)@.wf(),
    {
        self.variable = None;
        self.error = Some(error);
        self.visible = true;
    }

    /// Takes the outcome of a load: opens the variable, or records the failure
    /// with the given message. After a failure no variable is open.
    pub fn open(&mut self, outcome: Option<LoadedVariable<T>>, failure: String)
        ensures
            final(self)@ == match outcome {
                Some(var) => old(self)@.opened(var.dims(), var.can_scale()),
                None => old(self)@.failed(failure@),
            },
            final(self).loaded() == outcome,
            final(self)@.wf(),
    {
        match outcome {
            Some(var) => self.load_variable(var),
            None => self.set_error(failure),
        }
    }

    /// Hides the viewer and lets go of the variable and of any failure.
    pub fn close(&mut self)
        ensures
            final(self)@ == old(self)@.closed(),
            final(self).loaded() is None,
            final(self)@.wf(),
    {
        self.variable = None;
        self.visible = false;
        self.error = None;
    }

    /// Sets the message shown inside the viewer.
    pub fn set_status(&mut self, message: String)
        ensures
            final(self)@ == (ViewerModel { status: Some(message@), ..old(self)@ }),
            final(self).loaded() == old(self).loaded(),
            final(self)@.wf(),
    {
        proof {
            use_type_invariant(&*self);
        }
        self.status_message = Some(message);
    }

    /// Clears the message shown inside the viewer.
    pub fn clear_status(&mut self)
        ensures
            final(self)@ == (ViewerModel { status: None, ..old(self)@ }),
            final(self).loaded() == old(self).loaded(),
            final(self)@.wf(),
    {
        proof {
            use_type_invariant(&*self);
        }
        self.status_message = None;
    }

    /// The open variable, if any.
    pub fn variable(&self) -> (r: Option<&LoadedVariable<T>>)
        ensures
            match r {
                Some(v) => self.loaded() == Some(*v) && self@.shape == Some(v.dims())
                    && self@.can_scale == v.can_scale(),
                None => self.loaded() is None && self@.shape is None,
            },
            self@.wf(),
    {
        proof {
            use_type_invariant(self);
        }
        self.variable.as_ref()
    }

    /// Current view mode.
    pub fn view_mode(&self) -> (r: ViewMode)
        ensures
            r == self@.mode,
    {
        self.session.view_mode
    }

    /// Current heatmap palette.
    pub fn color_palette(&self) -> (r: ColorPalette)
        ensures
            r == self@.palette,
    {
        self.color_palette
    }

    /// First visible row and column of the table.
    pub fn scroll(&self) -> (r: ScrollPosition)
        ensures
            r == self@.scroll,
    {
        self.scroll
    }

    /// Display dimensions, held positions and active selector.
    pub fn slicing(&self) -> (r: &SlicingState)
        ensures
            r.slice_indices@ == self@.slice_indices,
            r.display_dims == self@.display_dims,
            r.active_dim_selector == self@.active,
    {
        &self.session.slicing
    }

    /// Whether the viewer is on screen.
    pub fn visible(&self) -> (r: bool)
        ensures
            r == self@.visible,
    {
        self.visible
    }

    /// Message of the failure that emptied the viewer, if any.
    pub fn error(&self) -> (r: Option<&String>)
        ensures
            match r {
                Some(e) => self@.error == Some(e@),
                None => self@.error is None,
            },
    {
        self.error.as_ref()
    }

    /// Message shown inside the viewer, if any.
    pub fn status_message(&self) -> (r: Option<&String>)
        ensures
            match r {
                Some(s) => self@.status == Some(s@),
                None => self@.status is None,
            },
    {
        self.status_message.as_ref()
    }

    /// Position of the probe along the plotted dimension.
    pub fn plot_cursor(&self) -> (r: usize)
        ensures
            r == self@.plot_cursor,
    {
        self.session.plot_cursor
    }

    /// Row of the heatmap crosshair, in data coordinates.
    pub fn heat_cursor_row(&self) -> (r: usize)
        ensures
            r == self@.heat_cursor.0,
    {
        self.session.heat_cursor_row
    }

    /// Column of the heatmap crosshair, in data coordinates.
    pub fn heat_cursor_col(&self) -> (r: usize)
        ensures
            r == self@.heat_cursor.1,
    {
        self.session.heat_cursor_col
    }

    /// Whether values are shown scaled.
    pub fn apply_scale_offset(&self) -> (r: bool)
        ensures
            r == self@.apply_scale,
    {
        self.apply_scale_offset
    }

    /// Whether the open variable carries a scale/offset transform.
    pub fn has_scale_offset(&self) -> (r: bool)
        ensures
            r == (self@.shape is Some && self@.can_scale),
    {
        match &self.variable {
            Some(v) => v.has_scale_offset(),
            None => false,
        }
    }

    /// Multiplier of the open variable's transform; `None` while nothing is open.
    pub fn scale_factor(&self) -> (r: Option<T>)
        ensures
            r == match self.loaded() {
                Some(v) => Some(v.described().scale_factor),
                None => None,
            },
    {
        match &self.variable {
            Some(v) => Some(v.scale_factor()),
            None => None,
        }
    }

    /// Offset of the open variable's transform; `None` while nothing is open.
    pub fn add_offset(&self) -> (r: Option<T>)
        ensures
            r == match self.loaded() {
                Some(v) => Some(v.described().add_offset),
                None => None,
            },
    {
        match &self.variable {
            Some(v) => Some(v.add_offset()),
            None => None,
        }
    }

    /// Number of rows of the current view: one for a scalar, the extent of
    /// the only dimension for rank one, else the extent of the row dimension.
    pub fn get_view_rows(&self) -> (r: usize)
        ensures
            r == self@.view_rows(),
    {
        proof {
            use_type_invariant(self);
        }
        match &self.variable {
            Some(v) => {
                let shape = v.shape();
                if shape.len() == 0 {
                    1
                } else if shape.len() == 1 {
                    shape[0]
                } else {
                    shape[self.session.slicing.display_dims.0]
                }
            },
            None => 0,
        }
    }

    /// Number of columns of the current view: one below rank two, else the
    /// extent of the column dimension.
    pub fn get_view_cols(&self) -> (r: usize)
        ensures
            r == self@.view_cols(),
    {
        proof {
            use_type_invariant(self);
        }
        match &self.variable {
            Some(v) => {
                let shape = v.shape();
                if shape.len() <= 1 {
                    1
                } else {
                    shape[self.session.slicing.display_dims.1]
                }
            },
            None => 0,
        }
    }

    /// Switches to `mode`, repairing the display dimensions where a
    /// two-dimensional mode needs it and revalidating cursors and selector.
    pub fn set_view_mode(&mut self, mode: ViewMode)
        ensures
            final(self)@ == old(self)@.entered(mode),
            final(self).loaded() == old(self).loaded(),
            final(self)@.wf(),
    {
        proof {
            use_type_invariant(&*self);
            lemma_operations_keep_wf(self@);
        }
        let mut next = self.session.duplicate();
        match &self.variable {
            Some(v) => {
                let shape = v.shape();
                let ndim = shape.len();
                let d = next.slicing.display_dims;
                let dims = if ndim >= 2 && !mode.is_1d() && d.0 == d.1 {
                    (d.0, (d.1 + 1) % ndim)
                } else {
                    d
                };
                proof {
                    assert(ndim >= 2 ==> (d.1 + 1) % (ndim as int) < ndim) by (nonlinear_arith)
                        requires
                            d.1 >= 0,
                    ;
                }
                next.settle(shape, mode, dims);
            },
            None => {
                next.view_mode = mode;
            },
        }
        self.session = next;
    }

    /// Advances the view mode along Table, Plot1D, Heatmap, Table.
    pub fn cycle_view_mode(&mut self)
        ensures
            final(self)@ == old(self)@.mode_cycled(),
            final(self).loaded() == old(self).loaded(),
            final(self)@.wf(),
    {
        let mode = self.session.view_mode.next();
        self.set_view_mode(mode);
    }

    /// Advances the heatmap palette.
    pub fn cycle_color_palette(&mut self)
        ensures
            final(self)@ == old(self)@.palette_cycled(),
            final(self).loaded() == old(self).loaded(),
            final(self)@.wf(),
    {
        proof {
            use_type_invariant(&*self);
        }
        self.color_palette = self.color_palette.next();
    }

    /// Switches between scaled and raw values, if the variable has a transform.
    pub fn toggle_scale_offset(&mut self)
        ensures
            final(self)@ == old(self)@.scale_toggled(),
            final(self).loaded() == old(self).loaded(),
            final(self)@.wf(),
    {
        proof {
            use_type_invariant(&*self);
        }
        if self.has_scale_offset() {
            self.apply_scale_offset = !self.apply_scale_offset;
        }
    }

    fn move_plot_cursor(&mut self, delta: isize)
        ensures
            final(self)@ == old(self)@.plot_cursor_moved(delta as int),
            final(self).loaded() == old(self).loaded(),
            final(self)@.wf(),
    {
        proof {
            use_type_invariant(&*self);
        }
        let rows = self.get_view_rows();
        let ndim = match &self.variable {
            Some(v) => v.ndim(),
            None => 0,
        };
        if self.variable.is_some() && ndim >= 1 && rows > 0 {
            let mut next = self.session.duplicate();
            next.plot_cursor = offset_position(next.plot_cursor, delta, rows);
            self.session = next;
        }
    }

    /// Moves the plot probe one position towards the start.
    pub fn plot_cursor_left(&mut self)
        ensures
            final(self)@ == old(self)@.plot_cursor_moved(-1),
            final(self).loaded() == old(self).loaded(),
            final(self)@.wf(),
    {
        self.move_plot_cursor(-1);
    }

    /// Moves the plot probe one position towards the end.
    pub fn plot_cursor_right(&mut self)
        ensures
            final(self)@ == old(self)@.plot_cursor_moved(1),
            final(self).loaded() == old(self).loaded(),
            final(self)@.wf(),
    {
        self.move_plot_cursor(1);
    }

    /// Moves the heatmap crosshair, never past the edges of the grid.
    pub fn move_heat_cursor(&mut self, drow: isize, dcol: isize)
        ensures
            final(self)@ == old(self)@.heat_cursor_moved(drow as int, dcol as int),
            final(self).loaded() == old(self).loaded(),
            final(self)@.wf(),
    {
        proof {
            use_type_invariant(&*self);
        }
        let mut next = self.session.duplicate();
        match &self.variable {
            Some(v) => {
                let shape = v.shape();
                if shape.len() >= 2 {
                    let rows = shape[next.slicing.display_dims.0];
                    let cols = shape[next.slicing.display_dims.1];
                    next.heat_cursor_row = offset_position(next.heat_cursor_row, drow, rows);
                    next.heat_cursor_col = offset_position(next.heat_cursor_col, dcol, cols);
                }
            },
            None => {},
        }
        self.session = next;
    }

    /// Scrolls the table up.
    pub fn scroll_up(&mut self, amount: usize)
        ensures
            final(self)@ == old(self)@.scrolled_up(amount),
            final(self).loaded() == old(self).loaded(),
            final(self)@.wf(),
    {
        proof {
            use_type_invariant(&*self);
        }
        let row = if self.scroll.row >= amount {
            self.scroll.row - amount
        } else {
            0
        };
        self.scroll = ScrollPosition { row, col: self.scroll.col };
    }

    /// Scrolls the table down, never past the last row.
    pub fn scroll_down(&mut self, amount: usize)
        ensures
            final(self)@ == old(self)@.scrolled_down(amount),
            final(self).loaded() == old(self).loaded(),
            final(self)@.wf(),
    {
        proof {
            use_type_invariant(&*self);
        }
        if self.variable.is_some() {
            let rows = self.get_view_rows();
            let last = if rows == 0 {
                0
            } else {
                rows - 1
            };
            let target = if amount > usize::MAX - self.scroll.row {
                usize::MAX
            } else {
                self.scroll.row + amount
            };
            let row = if target < last {
                target
            } else {
                last
            };
            self.scroll = ScrollPosition { row, col: self.scroll.col };
        }
    }

    /// Scrolls the table left.
    pub fn scroll_left(&mut self, amount: usize)
        ensures
            final(self)@ == old(self)@.scrolled_left(amount),
            final(self).loaded() == old(self).loaded(),
            final(self)@.wf(),
    {
        proof {
            use_type_invariant(&*self);
        }
        let col = if self.scroll.col >= amount {
            self.scroll.col - amount
        } else {
            0
        };
        self.scroll = ScrollPosition { row: self.scroll.row, col };
    }

    /// Scrolls the table right, never past the last column.
    pub fn scroll_right(&mut self, amount: usize)
        ensures
            final(self)@ == old(self)@.scrolled_right(amount),
            final(self).loaded() == old(self).loaded(),
            final(self)@.wf(),
    {
        proof {
            use_type_invariant(&*self);
        }
        if self.variable.is_some() {
            let cols = self.get_view_cols();
            let last = if cols == 0 {
                0
            } else {
                cols - 1
            };
            let target = if amount > usize::MAX - self.scroll.col {
                usize::MAX
            } else {
                self.scroll.col + amount
            };
            let col = if target < last {
                target
            } else {
                last
            };
            self.scroll = ScrollPosition { row: self.scroll.row, col };
        }
    }

    /// Moves the held position of dimension `dim` by `delta`, limited to its
    /// extent. Does nothing if `dim` is on screen or does not exist.
    pub fn advance_slice(&mut self, dim: usize, delta: isize)
        ensures
            final(self)@ == old(self)@.slice_advanced(dim, delta as int),
            final(self).loaded() == old(self).loaded(),
            final(self)@.wf(),
    {
        proof {
            use_type_invariant(&*self);
        }
        let mut next = self.session.duplicate();
        match &self.variable {
            Some(v) => {
                let shape = v.shape();
                let is_1d = next.view_mode.is_1d();
                let shown = dim == next.slicing.display_dims.0 || (!is_1d && dim
                    == next.slicing.display_dims.1);
                if dim < shape.len() && !shown {
                    let moved = offset_position(next.slicing.slice_indices[dim], delta, shape[dim]);
                    next.slicing.slice_indices.set(dim, moved);
                }
            },
            None => {},
        }
        self.session = next;
    }

    /// Moves the held position of dimension `dim` one step up.
    pub fn next_slice(&mut self, dim: usize)
        ensures
            final(self)@ == old(self)@.slice_advanced(dim, 1),
            final(self).loaded() == old(self).loaded(),
            final(self)@.wf(),
    {
        self.advance_slice(dim, 1);
    }

    /// Moves the held position of dimension `dim` one step down.
    pub fn prev_slice(&mut self, dim: usize)
        ensures
            final(self)@ == old(self)@.slice_advanced(dim, -1),
            final(self).loaded() == old(self).loaded(),
            final(self)@.wf(),
    {
        self.advance_slice(dim, -1);
    }

    /// Moves the held position of the active dimension one step up.
    pub fn increment_active_slice(&mut self)
        ensures
            final(self)@ == match old(self)@.active {
                Some(dim) => old(self)@.slice_advanced(dim, 1),
                None => old(self)@,
            },
            final(self).loaded() == old(self).loaded(),
            final(self)@.wf(),
    {
        proof {
            use_type_invariant(&*self);
        }
        if let Some(dim) = self.session.slicing.active_dim_selector {
            self.advance_slice(dim, 1);
        }
    }

    /// Moves the held position of the active dimension one step down.
    pub fn decrement_active_slice(&mut self)
        ensures
            final(self)@ == match old(self)@.active {
                Some(dim) => old(self)@.slice_advanced(dim, -1),
                None => old(self)@,
            },
            final(self).loaded() == old(self).loaded(),
            final(self)@.wf(),
    {
        proof {
            use_type_invariant(&*self);
        }
        if let Some(dim) = self.session.slicing.active_dim_selector {
            self.advance_slice(dim, -1);
        }
    }

    /// Moves the selector to the next off-screen dimension in ascending
    /// order, wrapping. Does nothing when the mode leaves no dimension off
    /// screen: below rank two in the plot, below rank three otherwise.
    pub fn next_dim_selector(&mut self)
        ensures
            final(self)@ == old(self)@.selector_advanced(),
            final(self).loaded() == old(self).loaded(),
            final(self)@.wf(),
    {
        proof {
            use_type_invariant(&*self);
        }
        let ndim = match &self.variable {
            Some(v) => v.ndim(),
            None => 0,
        };
        if self.variable.is_none() {
            return ;
        }
        let is_1d = self.session.view_mode.is_1d();
        let min_dims: usize = if is_1d {
            2
        } else {
            3
        };
        if ndim < min_dims {
            return ;
        }
        let dims = self.session.slicing.display_dims;
        let mut slice_dims: Vec<usize> = Vec::new();
        let mut i: usize = 0;
        while i < ndim
            invariant
                i <= ndim,
                slice_dims@.len() == free_rank(dims, is_1d, i as int),
                forall|k: int|
                    0 <= k < slice_dims@.len() ==> slice_dims@[k] == free_at(dims, is_1d, k),
            decreases ndim - i,
        {
            let shown = i == dims.0 || (!is_1d && i == dims.1);
            if !shown {
                slice_dims.push(i);
            }
            i += 1;
        }
        proof {
            lemma_free_places(ndim as int, dims, is_1d);
        }
        if slice_dims.len() == 0 {
            return ;
        }
        let count = slice_dims.len();
        let mut chosen: usize = slice_dims[0];
        if let Some(current) = self.session.slicing.active_dim_selector {
            let mut pos: usize = 0;
            while pos < count && slice_dims[pos] != current
                invariant
                    pos <= count,
                    count == slice_dims@.len(),
                    forall|k: int| 0 <= k < pos ==> slice_dims@[k] != current,
                decreases count - pos,
            {
                pos += 1;
            }
            if pos < count {
                let next_pos = if pos + 1 == count {
                    0
                } else {
                    pos + 1
                };
                proof {
                    assert((pos + 1) % (count as int) == next_pos) by (nonlinear_arith)
                        requires
                            0 <= pos < count,
                            next_pos == if pos + 1 == count {
                                0int
                            } else {
                                pos + 1
                            },
                    ;
                }
                chosen = slice_dims[next_pos];
            }
        }
        let mut next = self.session.duplicate();
        next.slicing.active_dim_selector = Some(chosen);
        self.session = next;
    }

    /// Swaps the row and column dimensions, and the crosshair with them.
    /// Does nothing in the plot and below rank two.
    pub fn rotate_display_dims(&mut self)
        ensures
            final(self)@ == old(self)@.rotated(),
            final(self).loaded() == old(self).loaded(),
            final(self)@.wf(),
    {
        proof {
            use_type_invariant(&*self);
        }
        let ndim = match &self.variable {
            Some(v) => v.ndim(),
            None => 0,
        };
        if ndim >= 2 && !self.session.view_mode.is_1d() {
            let mut next = self.session.duplicate();
            let d = next.slicing.display_dims;
            next.slicing.display_dims = (d.1, d.0);
            let row = next.heat_cursor_row;
            next.heat_cursor_row = next.heat_cursor_col;
            next.heat_cursor_col = row;
            self.session = next;
        }
    }

    /// Moves the row dimension (`which == 0`) or the column dimension (any
    /// other `which`) one step, forwards or backwards, wrapping. In
    /// two-dimensional modes a step that would land on the other display
    /// dimension goes one further. Cursors are limited to the new extents and
    /// the selector is revalidated.
    pub fn set_display_dim(&mut self, which: usize, forward: bool)
        ensures
            final(self)@ == old(self)@.display_stepped(which, forward),
            final(self).loaded() == old(self).loaded(),
            final(self)@.wf(),
    {
        proof {
            use_type_invariant(&*self);
            lemma_operations_keep_wf(self@);
        }
        let mut next = self.session.duplicate();
        match &self.variable {
            Some(v) => {
                let shape = v.shape();
                let ndim = shape.len();
                if ndim >= 1 {
                    let d = next.slicing.display_dims;
                    let current = if which == 0 {
                        d.0
                    } else {
                        d.1
                    };
                    let other = if which == 0 {
                        d.1
                    } else {
                        d.0
                    };
                    let first = step_dim(current, ndim, forward);
                    let landed = if !next.view_mode.is_1d() && first == other {
                        step_dim(first, ndim, forward)
                    } else {
                        first
                    };
                    let dims = if which == 0 {
                        (landed, d.1)
                    } else {
                        (d.0, landed)
                    };
                    let mode = next.view_mode;
                    next.settle(shape, mode, dims);
                }
            },
            None => {},
        }
        self.session = next;
    }

    /// Moves the row dimension (`which == 0`) or the column dimension (any
    /// other `which`) one step forwards.
    pub fn cycle_display_dim(&mut self, which: usize)
        ensures
            final(self)@ == old(self)@.display_stepped(which, true),
            final(self).loaded() == old(self).loaded(),
            final(self)@.wf(),
    {
        self.set_display_dim(which, true);
    }
}

/// One step from `current` along `ndim` dimensions, wrapping at both ends.
pub fn step_dim(current: usize, ndim: usize, forward: bool) -> (r: usize)
    requires
        current < ndim,
    ensures
        r < ndim,
        r == if forward {
            (current + 1) % (ndim as int)
        } else {
            (current + ndim - 1) % (ndim as int)
        },
{
    if forward {
        if current + 1 == ndim {
            0
        } else {
            proof {
                vstd::arithmetic::div_mod::lemma_small_mod((current + 1) as nat, ndim as nat);
            }
            current + 1
        }
    } else {
        if current == 0 {
            proof {
                vstd::arithmetic::div_mod::lemma_small_mod((ndim - 1) as nat, ndim as nat);
            }
            ndim - 1
        } else {
            proof {
                vstd::arithmetic::div_mod::lemma_mod_multiples_vanish(1, current - 1, ndim as int);
                vstd::arithmetic::div_mod::lemma_small_mod((current - 1) as nat, ndim as nat);
            }
            current - 1
        }
    }
}

impl<T: Copy> DataViewerState<T> {
    /// The series that the plot shows for the current state; empty while
    /// nothing is open.
    pub fn series(&self) -> (out: Vec<T>)
        ensures
            match self.loaded() {
                Some(v) => v.is_series_of(self@.display_dims, self@.slice_indices, out@),
                None => out@.len() == 0,
            },
    {
        match &self.variable {
            Some(v) => v.project_series(&self.session.slicing),
            None => Vec::new(),
        }
    }

    /// The grid that the table and the heatmap show for the current state;
    /// empty while nothing is open.
    pub fn grid(&self) -> (out: Vec<Vec<T>>)
        ensures
            match self.loaded() {
                Some(v) => v.is_grid_of(self@.display_dims, self@.slice_indices, out@),
                None => out@.len() == 0,
            },
    {
        match &self.variable {
            Some(v) => v.project_grid(&self.session.slicing),
            None => Vec::new(),
        }
    }
}

/// Whether `out` is what is shown for the stored element `raw`: what
/// `unpack` makes of it where values are shown unpacked, the element itself
/// otherwise.
pub open spec fn shows<T, F: Fn(T) -> T>(unpack: F, unpacked: bool, raw: T, out: T) -> bool {
    if unpacked {
        call_ensures(unpack, (raw,), out)
    } else {
        out == raw
    }
}

impl<T: Copy> DataViewerState<T> {
    /// Whether values are shown unpacked: the variable carries a transform
    /// and the viewer is set to apply it.
    pub open spec fn unpacks(&self) -> bool {
        self@.shape is Some && self@.can_scale && self@.apply_scale
    }

    /// The series that the plot shows, with `unpack` applied to every entry
    /// where values are shown unpacked. `unpack` is not called otherwise.
    pub fn shown_series<F: Fn(T) -> T>(&self, unpack: F) -> (out: Vec<T>)
        requires
            forall|x: T| call_requires(unpack, (x,)),
        ensures
            match self.loaded() {
                Some(v) => {
                    &&& out@.len() == v.series_len(self@.display_dims, self@.slice_indices)
                    &&& forall|i: int|
                        0 <= i < out@.len() ==> shows(
                            unpack,
                            self.unpacks(),
                            v.series_at(self@.display_dims, self@.slice_indices, i),
                            #[trigger] out@[i],
                        )
                },
                None => out@.len() == 0,
            },
    {
        let raw = self.series();
        if !(self.has_scale_offset() && self.apply_scale_offset) {
            return raw;
        }
        let n = raw.len();
        let mut out: Vec<T> = Vec::new();
        let mut i: usize = 0;
        while i < n
            invariant
                n == raw@.len(),
                i <= n,
                out@.len() == i,
                forall|x: T| call_requires(unpack, (x,)),
                forall|k: int| 0 <= k < i ==> call_ensures(unpack, (raw@[k],), #[trigger] out@[k]),
            decreases n - i,
        {
            out.push(unpack(raw[i]));
            i += 1;
        }
        out
    }

    /// The grid that the table and the heatmap show, with `unpack` applied
    /// to every entry where values are shown unpacked. `unpack` is not
    /// called otherwise.
    pub fn shown_grid<F: Fn(T) -> T>(&self, unpack: F) -> (out: Vec<Vec<T>>)
        requires
            forall|x: T| call_requires(unpack, (x,)),
        ensures
            match self.loaded() {
                Some(v) => {
                    &&& out@.len() == v.grid_rows(self@.display_dims, self@.slice_indices)
                    &&& forall|i: int|
                        0 <= i < out@.len() ==> (#[trigger] out@[i])@.len() == v.grid_cols(
                            self@.display_dims,
                        )
                    &&& forall|i: int, j: int|
                        0 <= i < out@.len() && 0 <= j < v.grid_cols(self@.display_dims) ==> shows(
                            unpack,
                            self.unpacks(),
                            v.grid_at(self@.display_dims, self@.slice_indices, i, j),
                            #[trigger] out@[i]@[j],
                        )
                },
                None => out@.len() == 0,
            },
    {
        let raw = self.grid();
        if !(self.has_scale_offset() && self.apply_scale_offset) {
            return raw;
        }
        let rows = raw.len();
        let mut out: Vec<Vec<T>> = Vec::new();
        let mut i: usize = 0;
        while i < rows
            invariant
                rows == raw@.len(),
                i <= rows,
                out@.len() == i,
                forall|x: T| call_requires(unpack, (x,)),
                forall|a: int| 0 <= a < i ==> (#[trigger] out@[a])@.len() == raw@[a]@.len(),
                forall|a: int, b: int|
                    0 <= a < i && 0 <= b < raw@[a]@.len() ==> call_ensures(
                        unpack,
                        (raw@[a]@[b],),
                        #[trigger] out@[a]@[b],
                    ),
            decreases rows - i,
        {
            let cols = raw[i].len();
            let mut line: Vec<T> = Vec::new();
            let mut j: usize = 0;
            while j < cols
                invariant
                    i < rows,
                    rows == raw@.len(),
                    cols == raw@[i as int]@.len(),
                    j <= cols,
                    line@.len() == j,
                    forall|x: T| call_requires(unpack, (x,)),
                    forall|b: int|
                        0 <= b < j ==> call_ensures(
                            unpack,
                            (raw@[i as int]@[b],),
                            #[trigger] line@[b],
                        ),
                decreases cols - j,
            {
                line.push(unpack(raw[i][j]));
                j += 1;
            }
            out.push(line);
            i += 1;
        }
        out
    }
}

/// In a session whose off-screen dimensions are all non-empty, every held
/// position exists, so the projections have their full extents: one row per
/// position of the row dimension and one column per position of the column
/// dimension.
pub proof fn lemma_projection_extents<T: Copy>(
    m: ViewerModel,
    v: LoadedVariable<T>,
    grid: Seq<Vec<T>>,
    series: Seq<T>,
)
    requires
        m.wf(),
        m.shape == Some(v.dims()),
        v.dims().len() >= 2,
        forall|k: int|
            0 <= k < v.dims().len() && k != m.display_dims.0 && k != m.display_dims.1
                ==> v.dims()[k] > 0,
        v.dims()[m.display_dims.1 as int] > 0 || !m.is_1d(),
        v.is_grid_of(m.display_dims, m.slice_indices, grid),
        v.is_series_of(m.display_dims, m.slice_indices, series),
    ensures
        v.fixes(m.display_dims.0 as int, m.display_dims.1 as int, m.slice_indices),
        grid.len() == v.dims()[m.display_dims.0 as int],
        forall|i: int| 0 <= i < grid.len() ==> (#[trigger] grid[i])@.len() == v.dims()[m.display_dims.1 as int],
        m.is_1d() ==> series.len() == v.dims()[m.display_dims.0 as int],
{
    let s = v.dims();
    assert forall|k: int|
        0 <= k < s.len() && k != m.display_dims.0 && k != m.display_dims.1 implies m.slice_indices[k]
        < s[k] by {}
    if m.is_1d() {
        assert forall|k: int| 0 <= k < s.len() && k != m.display_dims.0 implies m.slice_indices[k]
            < s[k] by {}
    }
}

impl<T: Copy> DataViewerState<T> {
    /// Carries out an operation.
    pub fn execute(&mut self, command: ViewerCommand)
        ensures
            final(self)@ == old(self)@.executed(command),
            command !is Close ==> final(self).loaded() == old(self).loaded(),
            command is Close ==> final(self).loaded() is None,
            final(self)@.wf(),
    {
        match command {
            ViewerCommand::Close => self.close(),
            ViewerCommand::CycleViewMode => self.cycle_view_mode(),
            ViewerCommand::CyclePalette => self.cycle_color_palette(),
            ViewerCommand::ScrollUp(n) => self.scroll_up(n),
            ViewerCommand::ScrollDown(n) => self.scroll_down(n),
            ViewerCommand::ScrollLeft(n) => self.scroll_left(n),
            ViewerCommand::ScrollRight(n) => self.scroll_right(n),
            ViewerCommand::MoveCrosshair(drow, dcol) => self.move_heat_cursor(drow, dcol),
            ViewerCommand::PlotCursorLeft => self.plot_cursor_left(),
            ViewerCommand::PlotCursorRight => self.plot_cursor_right(),
            ViewerCommand::NextSelector => self.next_dim_selector(),
            ViewerCommand::IncrementSlice => self.increment_active_slice(),
            ViewerCommand::DecrementSlice => self.decrement_active_slice(),
            ViewerCommand::Rotate => self.rotate_display_dims(),
            ViewerCommand::CopyVisible => {
                proof {
                    use_type_invariant(&*self);
                }
            },
            ViewerCommand::CycleDisplayDim(which) => self.cycle_display_dim(which),
            ViewerCommand::ToggleScale => self.toggle_scale_offset(),
            ViewerCommand::Nothing => {
                proof {
                    use_type_invariant(&*self);
                }
            },
        }
    }

    /// Carries out what a key press stands for in the current view mode and
    /// returns the operation, so that the caller can report it.
    pub fn handle_key(&mut self, key: KeyPress) -> (r: ViewerCommand)
        ensures
            r == command_for(key, old(self)@.mode),
            final(self)@ == old(self)@.executed(r),
            r !is Close ==> final(self).loaded() == old(self).loaded(),
            final(self)@.wf(),
    {
        let command = viewer_command(key, self.view_mode());
        self.execute(command);
        command
    }
}

impl<T: Copy> Default for DataViewerState<T> {
    fn default() -> (r: Self)
        ensures
            r@.shape is None,
            r@.mode == ViewMode::Table,
            r@.palette == ColorPalette::Viridis,
            !r@.visible,
            r@.apply_scale,
            r.loaded() is None,
    {
        DataViewerState::new()
    }
}

} // verus!
