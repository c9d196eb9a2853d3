//! Geometry of the heatmap: how a grid of `rows` by `cols` cells is fitted
//! onto a canvas of `width` by `height` character cells.
//!
//! Every character cell shows two pixels, one above the other, so the canvas
//! offers `width` by `2 * height` pixels. One scale serves the grid and its
//! transpose alike: swapping rows and columns swaps the displayed extents and
//! never changes the size of a pixel.

use vstd::prelude::*;

verus! {

/// Numerator of the scale: the smaller of the pixel height and the pixel
/// width of the canvas.
pub open spec fn scale_num(width: nat, height: nat) -> nat {
    if 2 * height <= width {
        2 * height
    } else {
        width
    }
}

/// Denominator of the scale: the larger extent of the grid.
pub open spec fn scale_den(rows: nat, cols: nat) -> nat {
    if rows >= cols {
        rows
    } else {
        cols
    }
}

/// Whether the fraction `a / b` is at most the fraction `c / d`.
pub open spec fn fraction_le(a: nat, b: nat, c: nat, d: nat) -> bool {
    a * d <= c * b
}

/// Number of pixels given to `extent` source cells: the extent times the
/// scale, rounded down, but at least one.
pub open spec fn displayed_extent(extent: nat, rows: nat, cols: nat, width: nat, height: nat) -> nat {
    let scaled = (extent * scale_num(width, height)) / scale_den(rows, cols);
    if scaled < 1 {
        1
    } else {
        scaled
    }
}

/// The scale is the least of the four fractions `2H/R`, `W/C`, `2H/C` and
/// `W/R`: it is at most each of them and equal to one of them.
pub proof fn lemma_scale_is_minimum(rows: nat, cols: nat, width: nat, height: nat)
    requires
        rows > 0,
        cols > 0,
    ensures
        fraction_le(scale_num(width, height), scale_den(rows, cols), 2 * height, rows),
        fraction_le(scale_num(width, height), scale_den(rows, cols), width, cols),
        fraction_le(scale_num(width, height), scale_den(rows, cols), 2 * height, cols),
        fraction_le(scale_num(width, height), scale_den(rows, cols), width, rows),
        (scale_num(width, height) == 2 * height || scale_num(width, height) == width) && (
        scale_den(rows, cols) == rows || scale_den(rows, cols) == cols),
{
    let s = scale_num(width, height);
    let m = scale_den(rows, cols);
    assert(s * rows <= (2 * height) * m) by (nonlinear_arith)
        requires
            s <= 2 * height,
            rows <= m,
    ;
    assert(s * cols <= width * m) by (nonlinear_arith)
        requires
            s <= width,
            cols <= m,
    ;
    assert(s * cols <= (2 * height) * m) by (nonlinear_arith)
        requires
            s <= 2 * height,
            cols <= m,
    ;
    assert(s * rows <= width * m) by (nonlinear_arith)
        requires
            s <= width,
            rows <= m,
    ;
}

/// The scale of a grid is the scale of its transpose, so transposing a grid
/// swaps its displayed extents.
pub proof fn lemma_scale_symmetric(rows: nat, cols: nat, width: nat, height: nat)
    ensures
        scale_den(rows, cols) == scale_den(cols, rows),
        fraction_le(
            scale_num(width, height),
            scale_den(rows, cols),
            scale_num(width, height),
            scale_den(cols, rows),
        ),
        fraction_le(
            scale_num(width, height),
            scale_den(cols, rows),
            scale_num(width, height),
            scale_den(rows, cols),
        ),
        forall|extent: nat| #[trigger]
            displayed_extent(extent, rows, cols, width, height) == displayed_extent(
                extent,
                cols,
                rows,
                width,
                height,
            ),
{
}

/// A grid and a canvas, as plain numbers.
pub struct RasterModel {
    /// Rows of the grid.
    pub rows: nat,
    /// Columns of the grid.
    pub cols: nat,
    /// Character columns of the canvas.
    pub width: nat,
    /// Character rows of the canvas.
    pub height: nat,
}

impl RasterModel {
    /// Neither the grid nor the canvas is empty.
    pub open spec fn valid(self) -> bool {
        self.rows > 0 && self.cols > 0 && self.width > 0 && self.height > 0
    }

    /// The same canvas with the grid transposed.
    pub open spec fn transposed(self) -> RasterModel {
        RasterModel { rows: self.cols, cols: self.rows, ..self }
    }

    /// Pixel rows that the grid is drawn on.
    pub open spec fn disp_rows(self) -> nat {
        displayed_extent(self.rows, self.rows, self.cols, self.width, self.height)
    }

    /// Pixel columns that the grid is drawn on.
    pub open spec fn disp_cols(self) -> nat {
        displayed_extent(self.cols, self.rows, self.cols, self.width, self.height)
    }

    /// Character rows that the grid is drawn on: two pixel rows each, the
    /// last one possibly half used.
    pub open spec fn cell_rows(self) -> nat {
        (self.disp_rows() + 1) / 2
    }

    /// Character columns left free before the grid.
    pub open spec fn offset_x(self) -> nat {
        ((self.width - self.disp_cols()) / 2) as nat
    }

    /// Character rows left free above the grid.
    pub open spec fn offset_y(self) -> nat {
        ((self.height - self.cell_rows()) / 2) as nat
    }

    /// Grid row shown by pixel row `py`.
    pub open spec fn source_row(self, py: nat) -> nat {
        (py * self.rows) / self.disp_rows()
    }

    /// Grid column shown by pixel column `px`.
    pub open spec fn source_col(self, px: nat) -> nat {
        (px * self.cols) / self.disp_cols()
    }

    /// Whether the character cell at row `y`, column `x` shows part of the grid.
    pub open spec fn covers(self, y: nat, x: nat) -> bool {
        &&& self.offset_y() <= y < self.offset_y() + self.cell_rows()
        &&& self.offset_x() <= x < self.offset_x() + self.disp_cols()
    }

    /// Pixel row shown by the upper half of character row `y`.
    pub open spec fn upper_pixel(self, y: nat) -> nat {
        (2 * (y - self.offset_y())) as nat
    }

    /// Whether the lower half of character row `y` shows a pixel row too.
    pub open spec fn has_lower(self, y: nat) -> bool {
        self.upper_pixel(y) + 1 < self.disp_rows()
    }

    /// Grid cell shown by the upper half of the character cell at `(y, x)`.
    pub open spec fn upper_source(self, y: nat, x: nat) -> (nat, nat) {
        (self.source_row(self.upper_pixel(y)), self.source_col((x - self.offset_x()) as nat))
    }

    /// Grid cell shown by the lower half of the character cell at `(y, x)`.
    pub open spec fn lower_source(self, y: nat, x: nat) -> (nat, nat) {
        (self.source_row(self.upper_pixel(y) + 1), self.source_col((x - self.offset_x()) as nat))
    }

    /// Pixel nearest to the grid cell `(row, col)`.
    pub open spec fn pixel_of(self, row: nat, col: nat) -> (nat, nat) {
        ((row * self.disp_rows()) / self.rows, (col * self.disp_cols()) / self.cols)
    }

    /// Character cell that shows the pixel nearest to grid cell `(row, col)`.
    pub open spec fn cell_of(self, row: nat, col: nat) -> (nat, nat) {
        let p = self.pixel_of(row, col);
        (self.offset_y() + p.0 / 2, self.offset_x() + p.1)
    }

    /// Whether the pixel nearest to grid cell `(row, col)` is an upper half.
    pub open spec fn in_upper_half(self, row: nat, col: nat) -> bool {
        self.pixel_of(row, col).0 % 2 == 0
    }
}

/// The drawn block fits the canvas, and every pixel of it shows a grid cell
/// that exists.
pub proof fn lemma_raster_bounds(m: RasterModel)
    requires
        m.valid(),
    ensures
        1 <= m.disp_rows() <= 2 * m.height,
        1 <= m.disp_cols() <= m.width,
        1 <= m.cell_rows() <= m.height,
        m.offset_y() + m.cell_rows() <= m.height,
        m.offset_x() + m.disp_cols() <= m.width,
        forall|py: nat| py < m.disp_rows() ==> #[trigger] m.source_row(py) < m.rows,
        forall|px: nat| px < m.disp_cols() ==> #[trigger] m.source_col(px) < m.cols,
        forall|y: nat, x: nat| #[trigger]
            m.covers(y, x) ==> m.upper_pixel(y) < m.disp_rows() && x - m.offset_x()
                < m.disp_cols(),
        forall|row: nat, col: nat|
            row < m.rows && col < m.cols ==> {
                let p = #[trigger] m.pixel_of(row, col);
                p.0 < m.disp_rows() && p.1 < m.disp_cols() && m.covers(
                    m.cell_of(row, col).0,
                    m.cell_of(row, col).1,
                )
            },
{
    let s = scale_num(m.width, m.height);
    let d = scale_den(m.rows, m.cols);
    let dr = m.disp_rows();
    let dc = m.disp_cols();
    assert((m.rows * s) / d <= s) by (nonlinear_arith)
        requires
            m.rows <= d,
            d > 0,
    ;
    assert((m.cols * s) / d <= s) by (nonlinear_arith)
        requires
            m.cols <= d,
            d > 0,
    ;
    assert forall|py: nat| py < dr implies #[trigger] m.source_row(py) < m.rows by {
        assert((py * m.rows) / dr < m.rows) by (nonlinear_arith)
            requires
                py < dr,
                m.rows > 0,
        ;
    }
    assert forall|px: nat| px < dc implies #[trigger] m.source_col(px) < m.cols by {
        assert((px * m.cols) / dc < m.cols) by (nonlinear_arith)
            requires
                px < dc,
                m.cols > 0,
        ;
    }
    assert forall|row: nat, col: nat| row < m.rows && col < m.cols implies {
        let p = #[trigger] m.pixel_of(row, col);
        p.0 < m.disp_rows() && p.1 < m.disp_cols() && m.covers(
            m.cell_of(row, col).0,
            m.cell_of(row, col).1,
        )
    } by {
        assert((row * dr) / m.rows < dr) by (nonlinear_arith)
            requires
                row < m.rows,
                dr > 0,
        ;
        assert((col * dc) / m.cols < dc) by (nonlinear_arith)
            requires
                col < m.cols,
                dc > 0,
        ;
    }
}

/// Transposing the grid swaps the displayed extents: the pixel size stays,
/// only the stretched axis changes.
pub proof fn lemma_transpose_swaps_extents(m: RasterModel)
    ensures
        m.transposed().disp_rows() == m.disp_cols(),
        m.transposed().disp_cols() == m.disp_rows(),
        m.transposed().transposed() == m,
{
}

/// What one character cell of the heatmap shows.
#[derive(Debug, Clone, Copy, PartialEq, Eq)]
pub struct HalfBlock<C> {
    /// Color of the upper pixel.
    pub top: C,
    /// Color of the lower pixel.
    pub bottom: C,
    /// Grid cell behind the upper pixel, if the pixel shows one.
    pub top_source: Option<(usize, usize)>,
    /// Grid cell behind the lower pixel, if the pixel shows one.
    pub bottom_source: Option<(usize, usize)>,
    /// Whether the crosshair sits on this cell.
    pub crosshair: bool,
}

/// Grid cells behind one character cell.
#[derive(Debug, Clone, Copy, PartialEq, Eq)]
pub struct CellSource {
    /// Grid cell behind the upper pixel.
    pub top: (usize, usize),
    /// Grid cell behind the lower pixel; absent for the lower half of an
    /// unpaired last pixel row.
    pub bottom: Option<(usize, usize)>,
}

/// Where the crosshair goes on the canvas.
#[derive(Debug, Clone, Copy, PartialEq, Eq, Structural)]
pub struct CrosshairCell {
    /// Character row.
    pub y: u16,
    /// Character column.
    pub x: u16,
    /// Whether the marked pixel is the upper half of the cell.
    pub upper: bool,
}

/// Fits a grid onto a canvas.
#[derive(Debug, Clone, Copy)]
pub struct HeatmapRasterizer {
    rows: usize,
    cols: usize,
    width: u16,
    height: u16,
    disp_rows: u32,
    disp_cols: u32,
}

/// The scale shared by a grid and its transpose, as numerator and denominator.
pub fn scale(rows: usize, cols: usize, width: u16, height: u16) -> (r: (u32, usize))
    ensures
        r.0 == scale_num(width as nat, height as nat),
        r.1 == scale_den(rows as nat, cols as nat),
{
    let pixel_height: u32 = 2 * (height as u32);
    let num: u32 = if pixel_height <= width as u32 {
        pixel_height
    } else {
        width as u32
    };
    let den: usize = if rows >= cols {
        rows
    } else {
        cols
    };
    (num, den)
}

/// Number of pixels given to `extent` source cells under the shared scale.
fn scaled_extent(extent: usize, rows: usize, cols: usize, width: u16, height: u16) -> (r: u32)
    requires
        rows > 0,
        cols > 0,
        extent <= rows || extent <= cols,
    ensures
        r == displayed_extent(extent as nat, rows as nat, cols as nat, width as nat, height as nat),
{
    let (num, den) = scale(rows, cols, width, height);
    proof {
        assert((extent * num) / (den as int) <= num) by (nonlinear_arith)
            requires
                extent <= den,
                den > 0,
                num >= 0,
        ;
        assert(extent * num <= usize::MAX * 0x2_0000) by (nonlinear_arith)
            requires
                extent <= usize::MAX,
                0 <= num <= 0x2_0000,
        ;
    }
    let product: u128 = (extent as u128) * (num as u128);
    let scaled: u128 = product / (den as u128);
    if scaled < 1 {
        1
    } else {
        scaled as u32
    }
}

impl HeatmapRasterizer {
    /// The grid and the canvas that this rasterizer was made for.
    pub closed spec fn view(&self) -> RasterModel {
        RasterModel {
            rows: self.rows as nat,
            cols: self.cols as nat,
            width: self.width as nat,
            height: self.height as nat,
        }
    }

    #[verifier::type_invariant]
    spec fn well_formed(self) -> bool {
        &&& self.view().valid()
        &&& self.disp_rows == self.view().disp_rows()
        &&& self.disp_cols == self.view().disp_cols()
    }

    /// Fits a grid of `rows` by `cols` cells onto a canvas of `width` by
    /// `height` character cells. There is nothing to draw, and the result is
    /// `None`, exactly when one of the four is zero.
    pub fn new(rows: usize, cols: usize, width: u16, height: u16) -> (r: Option<
        HeatmapRasterizer,
    >)
        ensures
            r is Some == (rows > 0 && cols > 0 && width > 0 && height > 0),
            r matches Some(g) ==> g@ == (RasterModel {
                rows: rows as nat,
                cols: cols as nat,
                width: width as nat,
                height: height as nat,
            }) && g@.valid(),
    {
        if rows == 0 || cols == 0 || width == 0 || height == 0 {
            return None;
        }
        let disp_rows = scaled_extent(rows, rows, cols, width, height);
        let disp_cols = scaled_extent(cols, rows, cols, width, height);
        Some(HeatmapRasterizer { rows, cols, width, height, disp_rows, disp_cols })
    }

    /// Rows of the grid.
    pub fn rows(&self) -> (r: usize)
        ensures
            r == self@.rows,
    {
        self.rows
    }

    /// Columns of the grid.
    pub fn cols(&self) -> (r: usize)
        ensures
            r == self@.cols,
    {
        self.cols
    }

    /// Character columns of the canvas.
    pub fn width(&self) -> (r: u16)
        ensures
            r == self@.width,
    {
        self.width
    }

    /// Character rows of the canvas.
    pub fn height(&self) -> (r: u16)
        ensures
            r == self@.height,
    {
        self.height
    }

    /// Pixel rows that the grid is drawn on.
    pub fn disp_rows(&self) -> (r: u32)
        ensures
            r == self@.disp_rows(),
            1 <= r <= 2 * self@.height,
    {
        proof {
            use_type_invariant(self);
            lemma_raster_bounds(self@);
        }
        self.disp_rows
    }

    /// Pixel columns that the grid is drawn on.
    pub fn disp_cols(&self) -> (r: u32)
        ensures
            r == self@.disp_cols(),
            1 <= r <= self@.width,
    {
        proof {
            use_type_invariant(self);
            lemma_raster_bounds(self@);
        }
        self.disp_cols
    }

    /// Character rows that the grid is drawn on.
    pub fn cell_rows(&self) -> (r: u16)
        ensures
            r == self@.cell_rows(),
            1 <= r <= self@.height,
    {
        proof {
            use_type_invariant(self);
            lemma_raster_bounds(self@);
        }
        ((self.disp_rows + 1) / 2) as u16
    }

    /// Character columns left free before the grid.
    pub fn offset_x(&self) -> (r: u16)
        ensures
            r == self@.offset_x(),
            r + self@.disp_cols() <= self@.width,
    {
        proof {
            use_type_invariant(self);
            lemma_raster_bounds(self@);
        }
        ((self.width as u32 - self.disp_cols) / 2) as u16
    }

    /// Character rows left free above the grid.
    pub fn offset_y(&self) -> (r: u16)
        ensures
            r == self@.offset_y(),
            r + self@.cell_rows() <= self@.height,
    {
        proof {
            use_type_invariant(self);
        }
        (self.height - self.cell_rows()) / 2
    }

    /// Grid row shown by pixel row `py`; `None` when the block has no such row.
    pub fn source_row(&self, py: u32) -> (r: Option<usize>)
        ensures
            r == if (py as nat) < self@.disp_rows() {
                Some(self@.source_row(py as nat) as usize)
            } else {
                None
            },
            r matches Some(row) ==> row < self@.rows,
    {
        proof {
            use_type_invariant(self);
            lemma_raster_bounds(self@);
        }
        if py >= self.disp_rows {
            return None;
        }
        proof {
            assert(py * self.rows <= 0x2_0000 * usize::MAX) by (nonlinear_arith)
                requires
                    0 <= py <= 0x2_0000,
                    0 <= self.rows <= usize::MAX,
            ;
        }
        let product: u128 = (py as u128) * (self.rows as u128);
        let row: u128 = product / (self.disp_rows as u128);
        Some(row as usize)
    }

    /// Grid column shown by pixel column `px`; `None` when the block has no
    /// such column.
    pub fn source_col(&self, px: u32) -> (r: Option<usize>)
        ensures
            r == if (px as nat) < self@.disp_cols() {
                Some(self@.source_col(px as nat) as usize)
            } else {
                None
            },
            r matches Some(col) ==> col < self@.cols,
    {
        proof {
            use_type_invariant(self);
            lemma_raster_bounds(self@);
        }
        if px >= self.disp_cols {
            return None;
        }
        proof {
            assert(px * self.cols <= 0x2_0000 * usize::MAX) by (nonlinear_arith)
                requires
                    0 <= px <= 0x2_0000,
                    0 <= self.cols <= usize::MAX,
            ;
        }
        let product: u128 = (px as u128) * (self.cols as u128);
        let col: u128 = product / (self.disp_cols as u128);
        proof {
            assert(col == self@.source_col(px as nat));
        }
        Some(col as usize)
    }

    /// Grid cells behind the character cell at row `y`, column `x`; `None`
    /// when the cell lies outside the drawn block.
    pub fn cell_at(&self, y: u16, x: u16) -> (r: Option<CellSource>)
        ensures
            r is Some == self@.covers(y as nat, x as nat),
            r matches Some(c) ==> {
                &&& c.top.0 == self@.upper_source(y as nat, x as nat).0
                &&& c.top.1 == self@.upper_source(y as nat, x as nat).1
                &&& c.top.0 < self@.rows && c.top.1 < self@.cols
                &&& c.bottom is Some == self@.has_lower(y as nat)
                &&& c.bottom matches Some(b) ==> {
                    &&& b.0 == self@.lower_source(y as nat, x as nat).0
                    &&& b.1 == self@.lower_source(y as nat, x as nat).1
                    &&& b.0 < self@.rows && b.1 < self@.cols
                }
            },
    {
        proof {
            use_type_invariant(self);
            lemma_raster_bounds(self@);
        }
        let oy = self.offset_y();
        let ox = self.offset_x();
        let cell_rows = self.cell_rows();
        if y < oy || y - oy >= cell_rows {
            return None;
        }
        if x < ox || (x - ox) as u32 >= self.disp_cols {
            return None;
        }
        let upper: u32 = 2 * ((y - oy) as u32);
        let px: u32 = (x - ox) as u32;
        let col = self.source_col(px).unwrap();
        let top = (self.source_row(upper).unwrap(), col);
        let bottom = match self.source_row(upper + 1) {
            Some(row) => Some((row, col)),
            None => None,
        };
        Some(CellSource { top, bottom })
    }

    /// Where the crosshair goes for a cursor at grid cell `(row, col)`;
    /// `None` when the grid has no such cell.
    pub fn crosshair(&self, row: usize, col: usize) -> (r: Option<CrosshairCell>)
        ensures
            r is Some == (row < self@.rows && col < self@.cols),
            r matches Some(c) ==> {
                &&& c.y == self@.cell_of(row as nat, col as nat).0
                &&& c.x == self@.cell_of(row as nat, col as nat).1
                &&& c.upper == self@.in_upper_half(row as nat, col as nat)
                &&& self@.covers(c.y as nat, c.x as nat)
            },
    {
        proof {
            use_type_invariant(self);
            lemma_raster_bounds(self@);
        }
        if row >= self.rows || col >= self.cols {
            return None;
        }
        proof {
            assert(row * self.disp_rows <= usize::MAX * 0x2_0000) by (nonlinear_arith)
                requires
                    0 <= row <= usize::MAX,
                    0 <= self.disp_rows <= 0x2_0000,
            ;
            assert(col * self.disp_cols <= usize::MAX * 0x2_0000) by (nonlinear_arith)
                requires
                    0 <= col <= usize::MAX,
                    0 <= self.disp_cols <= 0x2_0000,
            ;
            assert(self@.pixel_of(row as nat, col as nat).0 < self@.disp_rows());
        }
        let py: u128 = ((row as u128) * (self.disp_rows as u128)) / (self.rows as u128);
        let px: u128 = ((col as u128) * (self.disp_cols as u128)) / (self.cols as u128);
        let oy = self.offset_y();
        let ox = self.offset_x();
        Some(
            CrosshairCell {
                y: oy + ((py / 2) as u16),
                x: ox + (px as u16),
                upper: py % 2 == 0,
            },
        )
    }
}

/// Whether `grid` has exactly `rows` rows of exactly `cols` entries each.
pub open spec fn is_rectangular<C>(grid: Seq<Vec<C>>, rows: nat, cols: nat) -> bool {
    &&& grid.len() == rows
    &&& forall|i: int| 0 <= i < grid.len() ==> (#[trigger] grid[i])@.len() == cols
}

impl RasterModel {
    /// Whether a cursor at the given grid cell puts the crosshair on the
    /// character cell at `(y, x)`.
    pub open spec fn marks(self, cursor: Option<(usize, usize)>, y: nat, x: nat) -> bool {
        cursor matches Some(c) && c.0 < self.rows && c.1 < self.cols && self.cell_of(
            c.0 as nat,
            c.1 as nat,
        ) == (y, x)
    }

    /// What the character cell at `(y, x)` shows when the grid cells have the
    /// given colors: outside the drawn block the neutral color; inside it the
    /// colors of the two grid cells behind its halves, with the neutral color
    /// below an unpaired last pixel row.
    pub open spec fn painted<C>(
        self,
        colors: Seq<Vec<C>>,
        neutral: C,
        cursor: Option<(usize, usize)>,
        y: nat,
        x: nat,
    ) -> HalfBlock<C> {
        if self.covers(y, x) {
            let t = self.upper_source(y, x);
            let b = self.lower_source(y, x);
            HalfBlock {
                top: colors[t.0 as int]@[t.1 as int],
                bottom: if self.has_lower(y) {
                    colors[b.0 as int]@[b.1 as int]
                } else {
                    neutral
                },
                top_source: Some((t.0 as usize, t.1 as usize)),
                bottom_source: if self.has_lower(y) {
                    Some((b.0 as usize, b.1 as usize))
                } else {
                    None
                },
                crosshair: self.marks(cursor, y, x),
            }
        } else {
            HalfBlock {
                top: neutral,
                bottom: neutral,
                top_source: None,
                bottom_source: None,
                crosshair: false,
            }
        }
    }
}

/// Checks that `grid` is a non-empty rectangle and returns its extents.
pub fn grid_extents<C>(grid: &Vec<Vec<C>>) -> (r: Option<(usize, usize)>)
    ensures
        match r {
            Some((rows, cols)) => rows > 0 && cols > 0 && is_rectangular(
                grid@,
                rows as nat,
                cols as nat,
            ),
            None => forall|rows: nat, cols: nat|
                rows > 0 && cols > 0 ==> !is_rectangular(grid@, rows, cols),
        },
{
    let rows = grid.len();
    if rows == 0 {
        return None;
    }
    let cols = grid[0].len();
    if cols == 0 {
        assert forall|r: nat, c: nat| r > 0 && c > 0 implies !is_rectangular(grid@, r, c) by {}
        return None;
    }
    let mut i: usize = 1;
    while i < rows
        invariant
            1 <= i <= rows,
            rows == grid@.len(),
            cols == grid@[0]@.len(),
            forall|k: int| 0 <= k < i ==> (#[trigger] grid@[k])@.len() == cols,
        decreases rows - i,
    {
        if grid[i].len() != cols {
            assert forall|r: nat, c: nat| r > 0 && c > 0 implies !is_rectangular(grid@, r, c) by {}
            return None;
        }
        i += 1;
    }
    Some((rows, cols))
}

impl HeatmapRasterizer {
    /// Paints the whole canvas, row by row: see `RasterModel::painted`.
    /// `colors` holds the color of every grid cell.
    pub fn paint<C: Copy>(
        &self,
        colors: &Vec<Vec<C>>,
        neutral: C,
        cursor: Option<(usize, usize)>,
    ) -> (out: Vec<Vec<HalfBlock<C>>>)
        requires
            is_rectangular(colors@, self@.rows, self@.cols),
        ensures
            out@.len() == self@.height,
            forall|y: int| 0 <= y < out@.len() ==> (#[trigger] out@[y])@.len() == self@.width,
            forall|y: int, x: int|
                0 <= y < self@.height && 0 <= x < self@.width ==> #[trigger] out@[y]@[x]
                    == self@.painted(colors@, neutral, cursor, y as nat, x as nat),
    {
        proof {
            use_type_invariant(self);
        }
        let mark = match cursor {
            Some(c) => self.crosshair(c.0, c.1),
            None => None,
        };
        let height = self.height;
        let width = self.width;
        let mut out: Vec<Vec<HalfBlock<C>>> = Vec::new();
        let mut y: u16 = 0;
        while y < height
            invariant
                y <= height,
                height == self@.height,
                width == self@.width,
                self@.valid(),
                is_rectangular(colors@, self@.rows, self@.cols),
                mark is Some == (cursor matches Some(c) && c.0 < self@.rows && c.1 < self@.cols),
                mark matches Some(k) ==> cursor is Some && (k.y as nat, k.x as nat)
                    == self@.cell_of(cursor.unwrap().0 as nat, cursor.unwrap().1 as nat),
                out@.len() == y,
                forall|a: int| 0 <= a < y ==> (#[trigger] out@[a])@.len() == width,
                forall|a: int, b: int|
                    0 <= a < y && 0 <= b < width ==> #[trigger] out@[a]@[b] == self@.painted(
                        colors@,
                        neutral,
                        cursor,
                        a as nat,
                        b as nat,
                    ),
            decreases height - y,
        {
            let mut line: Vec<HalfBlock<C>> = Vec::new();
            let mut x: u16 = 0;
            while x < width
                invariant
                    x <= width,
                    y < height,
                    height == self@.height,
                    width == self@.width,
                    self@.valid(),
                    is_rectangular(colors@, self@.rows, self@.cols),
                    mark is Some == (cursor matches Some(c) && c.0 < self@.rows && c.1
                        < self@.cols),
                    mark matches Some(k) ==> cursor is Some && (k.y as nat, k.x as nat)
                        == self@.cell_of(cursor.unwrap().0 as nat, cursor.unwrap().1 as nat),
                    line@.len() == x,
                    forall|b: int|
                        0 <= b < x ==> #[trigger] line@[b] == self@.painted(
                            colors@,
                            neutral,
                            cursor,
                            y as nat,
                            b as nat,
                        ),
                decreases width - x,
            {
                let marked = match mark {
                    Some(k) => k.y == y && k.x == x,
                    None => false,
                };
                let cell = match self.cell_at(y, x) {
                    Some(source) => {
                        let top = colors[source.top.0][source.top.1];
                        match source.bottom {
                            Some(b) => HalfBlock {
                                top,
                                bottom: colors[b.0][b.1],
                                top_source: Some(source.top),
                                bottom_source: Some(b),
                                crosshair: marked,
                            },
                            None => HalfBlock {
                                top,
                                bottom: neutral,
                                top_source: Some(source.top),
                                bottom_source: None,
                                crosshair: marked,
                            },
                        }
                    },
                    None => {
                        HalfBlock {
                            top: neutral,
                            bottom: neutral,
                            top_source: None,
                            bottom_source: None,
                            crosshair: false,
                        }
                    },
                };
                line.push(cell);
                x += 1;
            }
            out.push(line);
            y += 1;
        }
        out
    }
}

/// Fits the colored grid onto a canvas of `width` by `height` character cells
/// and paints it. The result is `None` exactly when there is nothing to draw:
/// the canvas is empty, or the grid is not a non-empty rectangle.
pub fn rasterize<C: Copy>(
    colors: &Vec<Vec<C>>,
    width: u16,
    height: u16,
    neutral: C,
    cursor: Option<(usize, usize)>,
) -> (r: Option<Vec<Vec<HalfBlock<C>>>>)
    ensures
        r is Some == (width > 0 && height > 0 && exists|rows: nat, cols: nat|
            rows > 0 && cols > 0 && is_rectangular(colors@, rows, cols)),
        r matches Some(out) ==> {
            let m = RasterModel {
                rows: colors@.len(),
                cols: colors@[0]@.len(),
                width: width as nat,
                height: height as nat,
            };
            &&& out@.len() == height
            &&& forall|y: int| 0 <= y < out@.len() ==> (#[trigger] out@[y])@.len() == width
            &&& forall|y: int, x: int|
                0 <= y < height && 0 <= x < width ==> #[trigger] out@[y]@[x] == m.painted(
                    colors@,
                    neutral,
                    cursor,
                    y as nat,
                    x as nat,
                )
        },
{
    match grid_extents(colors) {
        Some((rows, cols)) => {
            match HeatmapRasterizer::new(rows, cols, width, height) {
                Some(raster) => Some(raster.paint(colors, neutral, cursor)),
                None => None,
            }
        },
        None => None,
    }
}

} // verus!
