//! Sizes that the table and the heatmap are laid out with, and the window of
//! the table that fits an area.

use vstd::prelude::*;

verus! {

/// Layout of the table view.
#[derive(Debug, Clone, Copy, PartialEq, Eq, Structural)]
pub struct TableLayoutConfig {
    /// Character rows taken by borders and the header.
    pub border_padding: usize,
    /// Width of a value column in characters.
    pub column_width: u16,
    /// Largest number of value columns shown at once.
    pub max_visible_columns: usize,
    /// Width of the row header column in characters.
    pub row_header_width: u16,
}

impl Default for TableLayoutConfig {
    fn default() -> (r: TableLayoutConfig)
        ensures
            r == (TableLayoutConfig {
                border_padding: 4,
                column_width: 12,
                max_visible_columns: 20,
                row_header_width: 5,
            }),
    {
        TableLayoutConfig {
            border_padding: 4,
            column_width: 12,
            max_visible_columns: 20,
            row_header_width: 5,
        }
    }
}

/// Layout of the heatmap view.
#[derive(Debug, Clone, Copy, PartialEq, Eq, Structural)]
pub struct HeatmapLayoutConfig {
    /// Character columns per pixel.
    pub pixel_width: usize,
    /// Character rows reserved for the color bar.
    pub colorbar_height: u16,
    /// Width of the color bar in characters.
    pub colorbar_width: usize,
}

impl Default for HeatmapLayoutConfig {
    fn default() -> (r: HeatmapLayoutConfig)
        ensures
            r == (HeatmapLayoutConfig { pixel_width: 2, colorbar_height: 1, colorbar_width: 50 }),
    {
        HeatmapLayoutConfig { pixel_width: 2, colorbar_height: 1, colorbar_width: 50 }
    }
}

/// The rows and columns of a table that are on screen: `start` inclusive,
/// `end` exclusive, on both axes.
#[derive(Debug, Clone, Copy, PartialEq, Eq, Structural)]
pub struct TableWindow {
    /// First visible row.
    pub start_row: usize,
    /// One past the last visible row.
    pub end_row: usize,
    /// First visible column.
    pub start_col: usize,
    /// One past the last visible column.
    pub end_col: usize,
}

/// The smaller of `a + b` and `limit`, where the sum is taken without overflow.
pub open spec fn capped_sum(a: usize, b: usize, limit: usize) -> usize {
    if a + b < limit {
        (a + b) as usize
    } else {
        limit
    }
}

impl TableLayoutConfig {
    /// Number of value rows that fit an area of the given height.
    pub open spec fn spec_visible_rows(self, area_height: u16) -> usize {
        if area_height >= self.border_padding {
            (area_height - self.border_padding) as usize
        } else {
            0
        }
    }

    /// Number of value columns that fit an area of the given width: what is
    /// left beside the row header and the two border columns, divided by the
    /// column width, but at least one and at most `max_visible_columns`. A
    /// column width of zero leaves room for one column.
    pub open spec fn spec_visible_cols(self, area_width: u16) -> usize {
        let taken = self.row_header_width + 2;
        let room = if area_width >= taken {
            area_width - taken
        } else {
            0
        };
        let fit = if self.column_width == 0 {
            0
        } else {
            room / (self.column_width as int)
        };
        if fit < 1 || self.max_visible_columns < 1 {
            1
        } else if fit > self.max_visible_columns {
            self.max_visible_columns
        } else {
            fit as usize
        }
    }

    /// Number of value rows that fit an area of the given height.
    #[verifier::when_used_as_spec(spec_visible_rows)]
    pub fn visible_rows(self, area_height: u16) -> (r: usize)
        ensures
            r == self.spec_visible_rows(area_height),
    {
        if area_height as usize >= self.border_padding {
            area_height as usize - self.border_padding
        } else {
            0
        }
    }

    /// Number of value columns that fit an area of the given width.
    #[verifier::when_used_as_spec(spec_visible_cols)]
    pub fn visible_cols(self, area_width: u16) -> (r: usize)
        ensures
            r == self.spec_visible_cols(area_width),
    {
        let taken: u32 = self.row_header_width as u32 + 2;
        let room: u32 = if area_width as u32 >= taken {
            area_width as u32 - taken
        } else {
            0
        };
        let fit: u32 = if self.column_width == 0 {
            0
        } else {
            room / (self.column_width as u32)
        };
        if fit < 1 || self.max_visible_columns < 1 {
            1
        } else if fit as usize > self.max_visible_columns {
            self.max_visible_columns
        } else {
            fit as usize
        }
    }

    /// The part of a table of `total_rows` by `total_cols` values that is on
    /// screen when the view starts at the given row and column.
    pub fn window(
        self,
        area_width: u16,
        area_height: u16,
        start_row: usize,
        start_col: usize,
        total_rows: usize,
        total_cols: usize,
    ) -> (r: TableWindow)
        ensures
            r.start_row == start_row,
            r.start_col == start_col,
            r.end_row == capped_sum(start_row, self.spec_visible_rows(area_height), total_rows),
            r.end_col == capped_sum(start_col, self.spec_visible_cols(area_width), total_cols),
            r.end_row <= total_rows,
            r.end_col <= total_cols,
    {
        let rows = self.visible_rows(area_height);
        let cols = self.visible_cols(area_width);
        let end_row = if rows < total_rows && start_row < total_rows - rows {
            start_row + rows
        } else {
            total_rows
        };
        let end_col = if cols < total_cols && start_col < total_cols - cols {
            start_col + cols
        } else {
            total_cols
        };
        TableWindow { start_row, end_row, start_col, end_col }
    }
}

/// Number of samples that a plot draws in an area of the given width: what
/// is left beside the axis labels, but at least one.
pub open spec fn plot_bins(area_width: u16) -> usize {
    if area_width > 9 {
        (area_width - 8) as usize
    } else {
        1
    }
}

/// The position of sample `k` when a series of `len` values is thinned to
/// `bins` samples: every value if there are no more than `bins`, otherwise
/// the values at equal distances, starting with the first.
pub open spec fn sample_position(k: int, len: usize, bins: usize) -> int {
    if len <= bins {
        k
    } else {
        (k * len) / (bins as int)
    }
}

/// Number of samples drawn for a series of `len` values in `bins` bins.
pub open spec fn sample_count(len: usize, bins: usize) -> usize {
    if len <= bins {
        len
    } else {
        bins
    }
}

/// Computes `plot_bins`.
pub fn bins_for_width(area_width: u16) -> (r: usize)
    ensures
        r == plot_bins(area_width),
        r >= 1,
{
    if area_width > 9 {
        (area_width - 8) as usize
    } else {
        1
    }
}

/// The positions of the values that a plot draws of a series of `len`
/// values in `bins` bins, in ascending order.
pub fn sample_positions(len: usize, bins: usize) -> (r: Vec<usize>)
    ensures
        r@.len() == sample_count(len, bins),
        forall|k: int| 0 <= k < r@.len() ==> #[trigger] r@[k] == sample_position(k, len, bins),
        forall|k: int| 0 <= k < r@.len() ==> #[trigger] r@[k] < len,
        forall|a: int, b: int| 0 <= a < b < r@.len() ==> r@[a] < r@[b],
{
    let count = if len <= bins {
        len
    } else {
        bins
    };
    let mut out: Vec<usize> = Vec::new();
    let mut k: usize = 0;
    while k < count
        invariant
            k <= count,
            count == sample_count(len, bins),
            out@.len() == k,
            forall|a: int| 0 <= a < k ==> #[trigger] out@[a] == sample_position(a, len, bins),
            forall|a: int| 0 <= a < k ==> #[trigger] out@[a] < len,
            forall|a: int, b: int| 0 <= a < b < k ==> out@[a] < out@[b],
        decreases count - k,
    {
        let position: usize = if len <= bins {
            k
        } else {
            proof {
                assert(k * len <= usize::MAX * usize::MAX) by (nonlinear_arith)
                    requires
                        0 <= k <= usize::MAX,
                        0 <= len <= usize::MAX,
                ;
                assert((k * len) / (bins as int) < len) by (nonlinear_arith)
                    requires
                        0 <= k < bins,
                        len > 0,
                ;
                assert forall|a: int| 0 <= a < k implies #[trigger] sample_position(a, len, bins)
                    < (k * len) / (bins as int) by {
                    assert((a * len) / (bins as int) < (k * len) / (bins as int))
                        by (nonlinear_arith)
                        requires
                            0 <= a < k,
                            k < bins,
                            bins < len,
                    {
                    }
                }
            }
            (((k as u128) * (len as u128)) / (bins as u128)) as usize
        };
        out.push(position);
        k += 1;
    }
    out
}

/// Character columns kept free for row labels on the left of the heatmap.
pub const LABEL_MARGIN: u16 = 8;

/// Character columns kept free for the bounds on both sides of the color bar.
pub const BAR_MARGIN: u16 = 20;

/// Where the parts of the heatmap go inside its frame. All positions count
/// from the upper left corner of the frame's inside.
#[derive(Debug, Clone, Copy, PartialEq, Eq, Structural)]
pub struct HeatmapAreas {
    /// First column of the color bar.
    pub bar_start: u16,
    /// Width of the color bar.
    pub bar_width: u16,
    /// First column of the canvas.
    pub canvas_x: u16,
    /// First row of the canvas.
    pub canvas_y: u16,
    /// Width of the canvas.
    pub canvas_width: u16,
    /// Height of the canvas.
    pub canvas_height: u16,
}

impl HeatmapLayoutConfig {
    /// Where the parts go in a frame with the given inside: the color bar
    /// centered in the top rows, as wide as configured but leaving
    /// `BAR_MARGIN` columns free; the canvas below it, right of the label
    /// margin, with one row left below for column labels. `None` if that
    /// leaves no canvas.
    pub open spec fn spec_areas(self, inner_width: u16, inner_height: u16) -> Option<HeatmapAreas> {
        if inner_width <= LABEL_MARGIN || inner_height <= self.colorbar_height + 1 {
            None
        } else {
            let room = if inner_width >= BAR_MARGIN {
                (inner_width - BAR_MARGIN) as usize
            } else {
                0
            };
            let bar_width = if self.colorbar_width < room {
                self.colorbar_width
            } else {
                room
            };
            Some(
                HeatmapAreas {
                    bar_start: ((inner_width - bar_width) / 2) as u16,
                    bar_width: bar_width as u16,
                    canvas_x: LABEL_MARGIN,
                    canvas_y: self.colorbar_height,
                    canvas_width: (inner_width - LABEL_MARGIN) as u16,
                    canvas_height: (inner_height - self.colorbar_height - 1) as u16,
                },
            )
        }
    }

    /// Where the parts of the heatmap go: see `spec_areas`. Every part lies
    /// inside the frame.
    pub fn areas(self, inner_width: u16, inner_height: u16) -> (r: Option<HeatmapAreas>)
        ensures
            r == self.spec_areas(inner_width, inner_height),
            r matches Some(a) ==> {
                &&& a.bar_start + a.bar_width <= inner_width
                &&& a.canvas_x + a.canvas_width == inner_width
                &&& a.canvas_y + a.canvas_height + 1 == inner_height
                &&& a.canvas_width > 0
                &&& a.canvas_height > 0
            },
    {
        if inner_width <= LABEL_MARGIN || inner_height as u32 <= self.colorbar_height as u32 + 1 {
            return None;
        }
        let room: usize = if inner_width >= BAR_MARGIN {
            (inner_width - BAR_MARGIN) as usize
        } else {
            0
        };
        let bar_width: u16 = if self.colorbar_width < room {
            self.colorbar_width as u16
        } else {
            room as u16
        };
        Some(
            HeatmapAreas {
                bar_start: (inner_width - bar_width) / 2,
                bar_width,
                canvas_x: LABEL_MARGIN,
                canvas_y: self.colorbar_height,
                canvas_width: inner_width - LABEL_MARGIN,
                canvas_height: inner_height - self.colorbar_height - 1,
            },
        )
    }
}

} // verus!
