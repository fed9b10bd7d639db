//! Brick-grid layout, computed once at startup.
//!
//! Given the arena walls, the brick size and the gap constants, the grid
//! holds the largest whole number of columns and rows that fit: the column
//! count is the available width (the wall span minus the two side gaps)
//! divided by one brick-plus-gap pitch, rounded down, and likewise for rows
//! over the height between the brick rows' bottom edge and the ceiling gap.
//! The grid is centred horizontally in the arena. A configuration that fits
//! no whole column or row is rejected at validation, so the gap count
//! `columns - 1` is never negative.
//!
//! Raw inputs are unscaled integers; computed centres and pitches are in
//! scaled units (see [`crate::timestep`]), where the halvings of brick sizes
//! and spans are exact because the scale is even.

use vstd::prelude::*;

use vstd::arithmetic::div_mod::lemma_div_non_zero;
use vstd::arithmetic::div_mod::lemma_fundamental_div_mod;
use vstd::arithmetic::div_mod::lemma_fundamental_div_mod_converse;
use vstd::arithmetic::div_mod::lemma_mod_pos_bound;

use crate::ConfigError;
use crate::COORD_LIMIT;
use crate::UNIT_LIMIT;
use crate::timestep::TickParams;

verus! {

/// The raw grid inputs: wall positions, brick size and gap constants, all in
/// unscaled coordinate units.
#[derive(Clone, Copy, Debug, PartialEq, Eq, Structural)]
pub struct GridConfig {
    /// x coordinate of the left wall.
    pub left_wall: i64,
    /// x coordinate of the right wall.
    pub right_wall: i64,
    /// y coordinate of the bottom wall (the floor).
    pub bottom_wall: i64,
    /// y coordinate of the top wall (the ceiling).
    pub top_wall: i64,
    /// Distance from the floor up to the paddle.
    pub paddle_floor_gap: i64,
    /// Width of one brick.
    pub brick_width: i64,
    /// Height of one brick.
    pub brick_height: i64,
    /// Distance from the paddle up to the lowest brick row's bottom edge.
    pub paddle_brick_gap: i64,
    /// Gap between neighbouring bricks, horizontally and vertically.
    pub brick_gap: i64,
    /// Least gap kept between the top brick row and the ceiling.
    pub ceiling_gap: i64,
    /// Least gap kept between the outer brick columns and the side walls.
    pub side_gap: i64,
}

impl GridConfig {
    /// Every raw input lies within `[-UNIT_LIMIT, UNIT_LIMIT]`.
    pub open spec fn in_range(self) -> bool {
        &&& -UNIT_LIMIT <= self.left_wall <= UNIT_LIMIT
        &&& -UNIT_LIMIT <= self.right_wall <= UNIT_LIMIT
        &&& -UNIT_LIMIT <= self.bottom_wall <= UNIT_LIMIT
        &&& -UNIT_LIMIT <= self.top_wall <= UNIT_LIMIT
        &&& -UNIT_LIMIT <= self.paddle_floor_gap <= UNIT_LIMIT
        &&& -UNIT_LIMIT <= self.brick_width <= UNIT_LIMIT
        &&& -UNIT_LIMIT <= self.brick_height <= UNIT_LIMIT
        &&& -UNIT_LIMIT <= self.paddle_brick_gap <= UNIT_LIMIT
        &&& -UNIT_LIMIT <= self.brick_gap <= UNIT_LIMIT
        &&& -UNIT_LIMIT <= self.ceiling_gap <= UNIT_LIMIT
        &&& -UNIT_LIMIT <= self.side_gap <= UNIT_LIMIT
    }

    /// y position of the paddle: the floor plus the paddle's offset.
    pub open spec fn paddle_y(self) -> int {
        self.bottom_wall + self.paddle_floor_gap
    }

    /// Width available to the grid: the wall span minus both side gaps.
    pub open spec fn total_width(self) -> int {
        (self.right_wall - self.left_wall) - 2 * self.side_gap
    }

    /// Bottom edge of the lowest brick row.
    pub open spec fn bottom_edge(self) -> int {
        self.paddle_y() + self.paddle_brick_gap
    }

    /// Height available to the grid: from its bottom edge up to the ceiling
    /// minus the ceiling gap.
    pub open spec fn total_height(self) -> int {
        self.top_wall - self.bottom_edge() - self.ceiling_gap
    }

    /// Horizontal span one brick column occupies: a brick and one gap.
    pub open spec fn pitch_x(self) -> int {
        self.brick_width + self.brick_gap
    }

    /// Vertical span one brick row occupies: a brick and one gap.
    pub open spec fn pitch_y(self) -> int {
        self.brick_height + self.brick_gap
    }

    /// Number of whole brick columns that fit in the available width.
    pub open spec fn spec_cols(self) -> int {
        self.total_width() / self.pitch_x()
    }

    /// Number of whole brick rows that fit in the available height.
    pub open spec fn spec_rows(self) -> int {
        self.total_height() / self.pitch_y()
    }

    /// A configuration the grid accepts: inputs in range, positive brick
    /// sizes, non-negative gaps, and room for at least one column and row.
    pub open spec fn valid(self) -> bool {
        &&& self.in_range()
        &&& self.brick_width >= 1
        &&& self.brick_height >= 1
        &&& self.brick_gap >= 0
        &&& self.side_gap >= 0
        &&& self.ceiling_gap >= 0
        &&& self.paddle_floor_gap >= 0
        &&& self.paddle_brick_gap >= 0
        &&& self.total_width() >= self.pitch_x()
        &&& self.total_height() >= self.pitch_y()
    }
}

/// The scaled x coordinate of the leftmost brick column's centre: the arena's
/// horizontal centre, minus half the grid's occupied span, plus half a brick.
pub open spec fn spec_first_cx(g: GridConfig, params: TickParams) -> int {
    (params.scale as int / 2) * (g.left_wall + g.right_wall - g.spec_cols() * g.brick_width - (
    g.spec_cols() - 1) * g.brick_gap + g.brick_width)
}

/// The scaled y coordinate of the lowest brick row's centre: the grid's
/// bottom edge plus half a brick.
pub open spec fn spec_first_cy(g: GridConfig, params: TickParams) -> int {
    params.scale * g.bottom_edge() + (params.scale as int / 2) * g.brick_height
}

/// The computed brick grid: counts, the first brick's centre and the pitch
/// between neighbouring centres, in scaled units.
#[derive(Clone, Copy, Debug, PartialEq, Eq, Structural)]
pub struct BrickGrid {
    /// Number of brick columns. At least one.
    pub cols: u32,
    /// Number of brick rows. At least one.
    pub rows: u32,
    /// Scaled x coordinate of the centre of the leftmost column.
    pub first_cx: i64,
    /// Scaled y coordinate of the centre of the lowest row.
    pub first_cy: i64,
    /// Scaled horizontal distance between neighbouring centres. Positive.
    pub pitch_x: i64,
    /// Scaled vertical distance between neighbouring centres. Positive.
    pub pitch_y: i64,
}

impl BrickGrid {
    /// The validity invariant: at least one row and column, positive pitches,
    /// and magnitudes small enough that every centre fits comfortably in
    /// `i64`.
    pub open spec fn wf(self) -> bool {
        &&& 1 <= self.cols
        &&& 1 <= self.rows
        &&& 0 < self.pitch_x
        &&& 0 < self.pitch_y
        &&& -COORD_LIMIT <= self.first_cx <= COORD_LIMIT
        &&& -COORD_LIMIT <= self.first_cy <= COORD_LIMIT
        &&& self.cols * self.pitch_x <= COORD_LIMIT
        &&& self.rows * self.pitch_y <= COORD_LIMIT
    }

    /// The scaled x coordinate of the centre of column `col`.
    pub open spec fn spec_center_x(self, col: int) -> int {
        self.first_cx + col * self.pitch_x
    }

    /// The scaled y coordinate of the centre of row `row`.
    pub open spec fn spec_center_y(self, row: int) -> int {
        self.first_cy + row * self.pitch_y
    }

    /// What `new` returns: the first failed check, else the computed grid.
    pub open spec fn spec_new(g: GridConfig, params: TickParams) -> Result<BrickGrid, ConfigError> {
        if !g.in_range() {
            Err(ConfigError::GridValueOutOfRange)
        } else if g.brick_width < 1 || g.brick_height < 1 {
            Err(ConfigError::BrickSizeNonPositive)
        } else if g.brick_gap < 0 || g.side_gap < 0 || g.ceiling_gap < 0 || g.paddle_floor_gap < 0
            || g.paddle_brick_gap < 0 {
            Err(ConfigError::GapNegative)
        } else if g.total_width() < g.pitch_x() {
            Err(ConfigError::ZeroColumns)
        } else if g.total_height() < g.pitch_y() {
            Err(ConfigError::ZeroRows)
        } else {
            Ok(
                BrickGrid {
                    cols: g.spec_cols() as u32,
                    rows: g.spec_rows() as u32,
                    first_cx: spec_first_cx(g, params) as i64,
                    first_cy: spec_first_cy(g, params) as i64,
                    pitch_x: (g.pitch_x() * params.scale) as i64,
                    pitch_y: (g.pitch_y() * params.scale) as i64,
                },
            )
        }
    }

    /// Validate the configuration and compute the grid. Succeeds exactly on
    /// valid configurations.
    pub fn new(g: &GridConfig, params: &TickParams) -> (r: Result<BrickGrid, ConfigError>)
        requires
            params.wf(),
        ensures
            r == Self::spec_new(*g, *params),
            (r is Ok) <==> g.valid(),
            (r matches Ok(b) ==> b.wf()),
    {
        if !(-UNIT_LIMIT <= g.left_wall && g.left_wall <= UNIT_LIMIT) || !(-UNIT_LIMIT
            <= g.right_wall && g.right_wall <= UNIT_LIMIT) || !(-UNIT_LIMIT <= g.bottom_wall
            && g.bottom_wall <= UNIT_LIMIT) || !(-UNIT_LIMIT <= g.top_wall && g.top_wall
            <= UNIT_LIMIT) || !(-UNIT_LIMIT <= g.paddle_floor_gap && g.paddle_floor_gap
            <= UNIT_LIMIT) || !(-UNIT_LIMIT <= g.brick_width && g.brick_width <= UNIT_LIMIT) || !(
        -UNIT_LIMIT <= g.brick_height && g.brick_height <= UNIT_LIMIT) || !(-UNIT_LIMIT
            <= g.paddle_brick_gap && g.paddle_brick_gap <= UNIT_LIMIT) || !(-UNIT_LIMIT
            <= g.brick_gap && g.brick_gap <= UNIT_LIMIT) || !(-UNIT_LIMIT <= g.ceiling_gap
            && g.ceiling_gap <= UNIT_LIMIT) || !(-UNIT_LIMIT <= g.side_gap && g.side_gap
            <= UNIT_LIMIT) {
            return Err(ConfigError::GridValueOutOfRange);
        }
        if g.brick_width < 1 || g.brick_height < 1 {
            return Err(ConfigError::BrickSizeNonPositive);
        }
        if g.brick_gap < 0 || g.side_gap < 0 || g.ceiling_gap < 0 || g.paddle_floor_gap < 0
            || g.paddle_brick_gap < 0 {
            return Err(ConfigError::GapNegative);
        }
        let total_width: i64 = (g.right_wall - g.left_wall) - 2 * g.side_gap;
        let pitch_x_raw: i64 = g.brick_width + g.brick_gap;
        if total_width < pitch_x_raw {
            return Err(ConfigError::ZeroColumns);
        }
        let bottom_edge: i64 = g.bottom_wall + g.paddle_floor_gap + g.paddle_brick_gap;
        let total_height: i64 = g.top_wall - bottom_edge - g.ceiling_gap;
        let pitch_y_raw: i64 = g.brick_height + g.brick_gap;
        if total_height < pitch_y_raw {
            return Err(ConfigError::ZeroRows);
        }
        let cols_wide: u64 = (total_width as u64) / (pitch_x_raw as u64);
        let rows_wide: u64 = (total_height as u64) / (pitch_y_raw as u64);
        proof {
            lemma_div_non_zero(total_width as int, pitch_x_raw as int);
            lemma_div_non_zero(total_height as int, pitch_y_raw as int);
            lemma_fundamental_div_mod(total_width as int, pitch_x_raw as int);
            lemma_mod_pos_bound(total_width as int, pitch_x_raw as int);
            lemma_fundamental_div_mod(total_height as int, pitch_y_raw as int);
            lemma_mod_pos_bound(total_height as int, pitch_y_raw as int);
            assert(g.spec_cols() * pitch_x_raw <= total_width);
            assert(g.spec_rows() * pitch_y_raw <= total_height);
            assert(g.spec_cols() <= total_width && g.spec_rows() <= total_height)
                by (nonlinear_arith)
                requires
                    g.spec_cols() * pitch_x_raw <= total_width,
                    g.spec_rows() * pitch_y_raw <= total_height,
                    1 <= g.spec_cols(),
                    1 <= g.spec_rows(),
                    1 <= pitch_x_raw,
                    1 <= pitch_y_raw,
            ;
            assert(cols_wide == g.spec_cols());
            assert(rows_wide == g.spec_rows());
        }
        let cols: u32 = cols_wide as u32;
        let rows: u32 = rows_wide as u32;
        let cols_span: i64 = cols_wide as i64;
        let rows_span: i64 = rows_wide as i64;
        proof {
            assert(cols_span * g.brick_width <= total_width && 0 <= cols_span * g.brick_width && (
            cols_span - 1) * g.brick_gap <= total_width && 0 <= (cols_span - 1) * g.brick_gap)
                by (nonlinear_arith)
                requires
                    1 <= cols_span <= total_width,
                    1 <= g.brick_width,
                    0 <= g.brick_gap,
                    cols_span * (g.brick_width + g.brick_gap) <= total_width,
            ;
        }
        let span: i64 = cols_span * g.brick_width + (cols_span - 1) * g.brick_gap;
        proof {
            assert(span <= total_width) by (nonlinear_arith)
                requires
                    span == cols_span * g.brick_width + (cols_span - 1) * g.brick_gap,
                    cols_span * (g.brick_width + g.brick_gap) <= total_width,
                    0 <= g.brick_gap,
            ;
        }
        let inner: i64 = g.left_wall + g.right_wall - span + g.brick_width;
        let first_cx: i64 = params.half_scale_times(inner);
        let first_cy: i64 = params.scale_coord(bottom_edge) + params.half_scale_times(
            g.brick_height,
        );
        let pitch_x: i64 = params.scale_coord(pitch_x_raw);
        let pitch_y: i64 = params.scale_coord(pitch_y_raw);
        let grid = BrickGrid { cols, rows, first_cx, first_cy, pitch_x, pitch_y };
        proof {
            assert(first_cx == spec_first_cx(*g, *params));
            assert(first_cy == spec_first_cy(*g, *params));
            assert(-COORD_LIMIT <= first_cy <= COORD_LIMIT) by (nonlinear_arith)
                requires
                    first_cy == params.scale * (bottom_edge as int) + (params.scale as int / 2) * (
                    g.brick_height as int),
                    -4 * UNIT_LIMIT <= bottom_edge <= 4 * UNIT_LIMIT,
                    1 <= g.brick_height <= UNIT_LIMIT,
                    0 < params.scale <= crate::SCALE_LIMIT,
                    0 <= params.scale as int / 2 <= crate::SCALE_LIMIT,
            ;
            assert(0 < pitch_x && 0 < pitch_y && cols * (pitch_x as int) <= COORD_LIMIT && rows
                * (pitch_y as int) <= COORD_LIMIT) by (nonlinear_arith)
                requires
                    pitch_x == pitch_x_raw * params.scale,
                    pitch_y == pitch_y_raw * params.scale,
                    cols * (pitch_x_raw as int) <= total_width,
                    rows * (pitch_y_raw as int) <= total_height,
                    -4 * UNIT_LIMIT <= total_width <= 4 * UNIT_LIMIT,
                    -8 * UNIT_LIMIT <= total_height <= 8 * UNIT_LIMIT,
                    0 < params.scale <= crate::SCALE_LIMIT,
                    0 < pitch_x_raw,
                    0 < pitch_y_raw,
                    1 <= cols,
                    1 <= rows,
            ;
            assert(grid.wf());
        }
        Ok(grid)
    }

    /// The scaled x coordinate of the centre of column `col`.
    pub fn center_x(&self, col: u32) -> (r: i64)
        requires
            self.wf(),
            col < self.cols,
        ensures
            r == self.spec_center_x(col as int),
    {
        proof {
            assert(0 <= col * self.pitch_x && col * self.pitch_x <= self.cols * self.pitch_x)
                by (nonlinear_arith)
                requires
                    0 <= col < self.cols,
                    0 < self.pitch_x,
            ;
        }
        self.first_cx + (col as i64) * self.pitch_x
    }

    /// The scaled y coordinate of the centre of row `row`.
    pub fn center_y(&self, row: u32) -> (r: i64)
        requires
            self.wf(),
            row < self.rows,
        ensures
            r == self.spec_center_y(row as int),
    {
        proof {
            assert(0 <= row * self.pitch_y && row * self.pitch_y <= self.rows * self.pitch_y)
                by (nonlinear_arith)
                requires
                    0 <= row < self.rows,
                    0 < self.pitch_y,
            ;
        }
        self.first_cy + (row as i64) * self.pitch_y
    }

    /// All brick centres, row-major from the bottom-left brick: the entry at
    /// index `row * cols + col` is the centre of that cell, in scaled units.
    pub fn centers(&self) -> (r: Vec<(i64, i64)>)
        requires
            self.wf(),
        ensures
            r@.len() == self.rows * self.cols,
            forall|k: int|
                0 <= k < r@.len() ==> (#[trigger] r@[k]).0 == self.spec_center_x(
                    k % (self.cols as int),
                ) && r@[k].1 == self.spec_center_y(k / (self.cols as int)),
    {
        let mut out: Vec<(i64, i64)> = Vec::new();
        let mut row: u32 = 0;
        while row < self.rows
            invariant
                self.wf(),
                0 <= row <= self.rows,
                out@.len() == row * self.cols,
                forall|k: int|
                    0 <= k < out@.len() ==> (#[trigger] out@[k]).0 == self.spec_center_x(
                        k % (self.cols as int),
                    ) && out@[k].1 == self.spec_center_y(k / (self.cols as int)),
            decreases self.rows - row,
        {
            let cy: i64 = self.center_y(row);
            let mut col: u32 = 0;
            while col < self.cols
                invariant
                    self.wf(),
                    0 <= row < self.rows,
                    0 <= col <= self.cols,
                    cy == self.spec_center_y(row as int),
                    out@.len() == row * self.cols + col,
                    forall|k: int|
                        0 <= k < out@.len() ==> (#[trigger] out@[k]).0 == self.spec_center_x(
                            k % (self.cols as int),
                        ) && out@[k].1 == self.spec_center_y(k / (self.cols as int)),
                decreases self.cols - col,
            {
                let cx: i64 = self.center_x(col);
                out.push((cx, cy));
                proof {
                    lemma_fundamental_div_mod_converse(
                        row as int * (self.cols as int) + col,
                        self.cols as int,
                        row as int,
                        col as int,
                    );
                }
                col = col + 1;
            }
            proof {
                assert((row + 1) * (self.cols as int) == row * (self.cols as int) + self.cols)
                    by (nonlinear_arith);
            }
            row = row + 1;
        }
        out
    }
}

/// The grid always fits: for any valid configuration the column and row
/// counts are at least one, and the width the bricks and their inner gaps
/// occupy is at most the available width (the wall span minus both side
/// gaps), and likewise for the height.
pub proof fn lemma_grid_fits(g: GridConfig)
    requires
        g.valid(),
    ensures
        1 <= g.spec_cols(),
        1 <= g.spec_rows(),
        g.spec_cols() * g.brick_width + (g.spec_cols() - 1) * g.brick_gap <= g.total_width(),
        g.spec_rows() * g.brick_height + (g.spec_rows() - 1) * g.brick_gap <= g.total_height(),
{
    lemma_div_non_zero(g.total_width(), g.pitch_x());
    lemma_div_non_zero(g.total_height(), g.pitch_y());
    lemma_fundamental_div_mod(g.total_width(), g.pitch_x());
    lemma_mod_pos_bound(g.total_width(), g.pitch_x());
    lemma_fundamental_div_mod(g.total_height(), g.pitch_y());
    lemma_mod_pos_bound(g.total_height(), g.pitch_y());
    let qc: int = g.spec_cols();
    let mc: int = g.total_width() % g.pitch_x();
    let qr: int = g.spec_rows();
    let mr: int = g.total_height() % g.pitch_y();
    assert(g.spec_cols() * g.pitch_x() <= g.total_width()) by (nonlinear_arith)
        requires
            g.total_width() == g.pitch_x() * qc + mc,
            qc == g.spec_cols(),
            0 <= mc,
    ;
    assert(g.spec_rows() * g.pitch_y() <= g.total_height()) by (nonlinear_arith)
        requires
            g.total_height() == g.pitch_y() * qr + mr,
            qr == g.spec_rows(),
            0 <= mr,
    ;
    assert(g.spec_cols() * g.brick_width + (g.spec_cols() - 1) * g.brick_gap <= g.total_width())
        by (nonlinear_arith)
        requires
            g.spec_cols() * (g.brick_width + g.brick_gap) <= g.total_width(),
            g.pitch_x() == g.brick_width + g.brick_gap,
            g.spec_cols() * g.pitch_x() <= g.total_width(),
            0 <= g.brick_gap,
    ;
    assert(g.spec_rows() * g.brick_height + (g.spec_rows() - 1) * g.brick_gap <= g.total_height())
        by (nonlinear_arith)
        requires
            g.pitch_y() == g.brick_height + g.brick_gap,
            g.spec_rows() * g.pitch_y() <= g.total_height(),
            0 <= g.brick_gap,
    ;
}

} // verus!
