//! Cell metrics and the terminal grid: how many cells fit the widget, when a
//! resize reaches the terminal and the PTY, and how the viewport scrolls.
//!
//! Lengths are held in Pango units, 1/1024 of a device pixel: Pango measures
//! a font in these integer units, and every pixel length the host derives
//! from them is such an integer divided by 1024. An `f64` holds each of those
//! quotients, and their sums and integer multiples met here, without rounding,
//! so the integer arithmetic below gives the same cell counts and pixel sizes
//! as the division in floating point.

use vstd::prelude::*;

use crate::ghostty::{GhosttyTerminalOptions, GhosttyTerminalScrollViewport};

verus! {

/// Pango units per device pixel (`pango::SCALE`).
pub const PANGO_SCALE: i64 = 1024;

/// Font metrics of one cell as Pango reports them, in Pango units: the
/// approximate character width, the ascent and the descent.
#[derive(Clone, Copy, Debug, PartialEq, Eq, Structural)]
pub struct CellMetrics {
    pub char_width: i32,
    pub ascent: i32,
    pub descent: i32,
}

impl CellMetrics {
    /// Cell width in Pango units.
    pub open spec fn spec_width(self) -> int {
        self.char_width as int
    }

    /// Cell height in Pango units: ascent plus descent.
    pub open spec fn spec_height(self) -> int {
        self.ascent as int + self.descent as int
    }

    /// Baseline offset from the top of the cell, in Pango units.
    pub open spec fn spec_baseline(self) -> int {
        self.ascent as int
    }

    /// Cell width in Pango units.
    pub fn width(&self) -> (w: i64)
        ensures
            w == self.spec_width(),
    {
        self.char_width as i64
    }

    /// Cell height in Pango units.
    pub fn height(&self) -> (h: i64)
        ensures
            h == self.spec_height(),
    {
        self.ascent as i64 + self.descent as i64
    }

    /// Baseline offset in Pango units.
    pub fn baseline(&self) -> (b: i64)
        ensures
            b == self.spec_baseline(),
    {
        self.ascent as i64
    }
}

/// Records the metrics of the terminal font as Pango reports them.
pub fn measure_font_metrics(approximate_char_width: i32, ascent: i32, descent: i32) -> (m:
    CellMetrics)
    ensures
        m.spec_width() == approximate_char_width,
        m.spec_height() == ascent + descent,
        m.spec_baseline() == ascent,
{
    CellMetrics { char_width: approximate_char_width, ascent, descent }
}

/// The metrics a terminal starts with, before the font is measured: cells of
/// 8 by 16 pixels with the baseline 12 pixels down.
pub fn initial_cell_metrics() -> (m: CellMetrics)
    ensures
        m.spec_width() == 8 * PANGO_SCALE,
        m.spec_height() == 16 * PANGO_SCALE,
        m.spec_baseline() == 12 * PANGO_SCALE,
{
    CellMetrics { char_width: 8192, ascent: 12288, descent: 4096 }
}

/// The options a new terminal is created with: 80 columns, 24 rows and
/// 10 000 lines of scrollback.
pub fn initial_terminal_options() -> (o: GhosttyTerminalOptions)
    ensures
        o.cols == 80 && o.rows == 24 && o.max_scrollback == 10_000,
{
    GhosttyTerminalOptions { cols: 80, rows: 24, max_scrollback: 10_000 }
}

/// A length in Pango units as a whole pixel count for a `u16` field: the
/// pixel length truncated toward zero, saturated to the range of `u16`.
pub open spec fn px_u16(units: int) -> int {
    if units < 0 {
        0
    } else if units / PANGO_SCALE as int > 0xffff {
        0xffff
    } else {
        units / PANGO_SCALE as int
    }
}

/// A pixel length in Pango units converted to `u16` pixels, truncating
/// toward zero and saturating (the `as u16` of the pixel value).
pub fn units_to_px_u16(units: i64) -> (px: u16)
    ensures
        px == px_u16(units as int),
{
    if units < 0 {
        0
    } else if units / PANGO_SCALE > 0xffff {
        0xffff
    } else {
        (units / PANGO_SCALE) as u16
    }
}

/// How many cells of `cell` Pango units fit in `px` pixels: the floor of the
/// quotient, at least 1, saturated to the range of `u16`.
pub open spec fn cells_fitting(px: int, cell: int) -> int
    recommends
        cell > 0,
{
    let n = px * PANGO_SCALE as int / cell;
    if n < 1 {
        1
    } else if n > 0xffff {
        0xffff
    } else {
        n
    }
}

fn count_cells(px: i32, cell: i64) -> (n: u16)
    requires
        px > 0,
        cell > 0,
    ensures
        n == cells_fitting(px as int, cell as int),
{
    let q = px as i64 * PANGO_SCALE / cell;
    if q < 1 {
        1
    } else if q > 0xffff {
        0xffff
    } else {
        q as u16
    }
}

/// What the host does after a resize of the grid: resize the terminal to
/// `cols` by `rows` with cells of `cell_width_px` by `cell_height_px` pixels,
/// refresh the render state, and resize the PTY with the pixel sizes of
/// `pty_cell_width` by `pty_cell_height`.
#[derive(Clone, Copy, Debug, PartialEq, Eq, Structural)]
pub struct GridResize {
    pub cols: u16,
    pub rows: u16,
    pub cell_width_px: u32,
    pub cell_height_px: u32,
    pub pty_cell_width: u16,
    pub pty_cell_height: u16,
}

/// The grid of a terminal widget: its size in cells and the metrics of its
/// font.
#[derive(Clone, Copy, Debug, PartialEq, Eq, Structural)]
pub struct TerminalGrid {
    pub cols: u16,
    pub rows: u16,
    pub metrics: CellMetrics,
}

/// The grid and the action after the widget is resized to `width` by
/// `height` pixels while the font measures `measured`: a widget with no area
/// changes nothing; otherwise the metrics are taken, and where the cells
/// have area and the number of cells that fit differs from the grid's, the
/// grid takes that size and the terminal and PTY are resized.
pub open spec fn resize_result(
    grid: TerminalGrid,
    width: int,
    height: int,
    measured: CellMetrics,
) -> (TerminalGrid, Option<GridResize>) {
    if width <= 0 || height <= 0 {
        (grid, None)
    } else {
        let measured_grid = TerminalGrid { metrics: measured, ..grid };
        let cw = measured.spec_width();
        let ch = measured.spec_height();
        if cw <= 0 || ch <= 0 {
            (measured_grid, None)
        } else {
            let cols = cells_fitting(width, cw);
            let rows = cells_fitting(height, ch);
            if cols == grid.cols && rows == grid.rows {
                (measured_grid, None)
            } else {
                (
                    TerminalGrid { cols: cols as u16, rows: rows as u16, metrics: measured },
                    Some(
                        GridResize {
                            cols: cols as u16,
                            rows: rows as u16,
                            cell_width_px: (cw / PANGO_SCALE as int) as u32,
                            cell_height_px: (ch / PANGO_SCALE as int) as u32,
                            pty_cell_width: px_u16(cw) as u16,
                            pty_cell_height: px_u16(ch) as u16,
                        },
                    ),
                )
            }
        }
    }
}

impl TerminalGrid {
    /// The grid of a new terminal: the size it is created with and the
    /// initial metrics.
    pub fn new() -> (g: Self)
        ensures
            g.cols == 80 && g.rows == 24,
            g.metrics.spec_width() == 8 * PANGO_SCALE,
            g.metrics.spec_height() == 16 * PANGO_SCALE,
            g.metrics.spec_baseline() == 12 * PANGO_SCALE,
    {
        let opts = initial_terminal_options();
        TerminalGrid { cols: opts.cols, rows: opts.rows, metrics: initial_cell_metrics() }
    }

    /// Handles a resize of the widget to `width` by `height` pixels, with the
    /// font measured anew as `measured`.
    pub fn on_resize(&mut self, width: i32, height: i32, measured: CellMetrics) -> (action:
        Option<GridResize>)
        ensures
            (*final(self), action) == resize_result(*old(self), width as int, height as int, measured),
    {
        if width <= 0 || height <= 0 {
            return None;
        }
        self.metrics = measured;
        let cw = measured.width();
        let ch = measured.height();
        if cw <= 0 || ch <= 0 {
            return None;
        }
        let new_cols = count_cells(width, cw);
        let new_rows = count_cells(height, ch);
        if new_cols == self.cols && new_rows == self.rows {
            return None;
        }
        self.cols = new_cols;
        self.rows = new_rows;
        Some(
            GridResize {
                cols: new_cols,
                rows: new_rows,
                cell_width_px: (cw / PANGO_SCALE) as u32,
                cell_height_px: (ch / PANGO_SCALE) as u32,
                pty_cell_width: units_to_px_u16(cw),
                pty_cell_height: units_to_px_u16(ch),
            },
        )
    }

    /// The size a PTY is spawned with: the grid in cells and the cell size in
    /// whole pixels.
    pub fn pty_size(&self) -> (size: (u16, u16, u16, u16))
        ensures
            size == (
                self.cols,
                self.rows,
                px_u16(self.metrics.spec_width()) as u16,
                px_u16(self.metrics.spec_height()) as u16,
            ),
    {
        (
            self.cols,
            self.rows,
            units_to_px_u16(self.metrics.width()),
            units_to_px_u16(self.metrics.height()),
        )
    }
}

// -------------------------------------------------------------------
// Scrolling
// -------------------------------------------------------------------

/// Rows the viewport moves per step of the scroll wheel.
pub const SCROLL_ROWS_PER_STEP: isize = 3;

/// The viewport move for `steps` discrete wheel steps (positive is toward
/// the user): three rows per step, scrolling back for a wheel moved up.
pub fn scroll_for_wheel_steps(steps: isize) -> (s: GhosttyTerminalScrollViewport)
    requires
        isize::MIN <= -3 * steps <= isize::MAX,
    ensures
        s == GhosttyTerminalScrollViewport::Delta((-3 * steps) as isize),
{
    GhosttyTerminalScrollViewport::Delta(-steps * SCROLL_ROWS_PER_STEP)
}

// -------------------------------------------------------------------
// Laws
// -------------------------------------------------------------------

/// The cells that fit fill the widget: unless the count was raised to 1 or
/// saturated, `n` cells fit in the length and `n + 1` do not.
pub proof fn lemma_cells_fit(px: int, cell: int)
    requires
        px > 0,
        cell > 0,
    ensures
        1 <= cells_fitting(px, cell) <= 0xffff,
        cells_fitting(px, cell) > 1 ==> cells_fitting(px, cell) * cell <= px * PANGO_SCALE,
        cells_fitting(px, cell) < 0xffff ==> (cells_fitting(px, cell) + 1) * cell > px
            * PANGO_SCALE,
{
    let n = px * PANGO_SCALE as int / cell;
    vstd::arithmetic::div_mod::lemma_fundamental_div_mod(px * PANGO_SCALE as int, cell);
    assert(n * cell <= px * PANGO_SCALE) by (nonlinear_arith)
        requires
            n == px * 1024 / cell,
            cell > 0,
            px > 0,
    ;
    assert((n + 1) * cell > px * PANGO_SCALE) by (nonlinear_arith)
        requires
            n == px * 1024 / cell,
            cell > 0,
            px > 0,
    ;
    assert(n >= 0) by (nonlinear_arith)
        requires
            n == px * 1024 / cell,
            cell > 0,
            px > 0,
    ;
    if n > 0xffff {
        assert(0xffff * cell <= n * cell) by (nonlinear_arith)
            requires
                n > 0xffff,
                cell > 0,
        ;
    }
    if n < 1 {
        assert(2 * cell > cell);
    }
}

/// A resize to the size the grid already has changes nothing further: after
/// one resize event, the same event again leaves the grid as it is and asks
/// for no action.
pub proof fn lemma_resize_idempotent(
    grid: TerminalGrid,
    width: int,
    height: int,
    measured: CellMetrics,
)
    ensures
        ({
            let once = resize_result(grid, width, height, measured).0;
            resize_result(once, width, height, measured) == (once, None::<GridResize>)
        }),
{
}

/// The grid that a resize sets gives every cell at least the size the
/// widget can hold: the columns (rows) fit in the width (height) unless
/// there is room for less than one.
pub proof fn lemma_resize_fits(grid: TerminalGrid, width: int, height: int, measured: CellMetrics)
    requires
        width > 0,
        height > 0,
        measured.spec_width() > 0,
        measured.spec_height() > 0,
    ensures
        ({
            let g = resize_result(grid, width, height, measured).0;
            &&& g.metrics == measured
            &&& g.cols >= 1 && g.rows >= 1
            &&& g.cols > 1 ==> g.cols * measured.spec_width() <= width * PANGO_SCALE
            &&& g.rows > 1 ==> g.rows * measured.spec_height() <= height * PANGO_SCALE
        }),
{
    lemma_cells_fit(width, measured.spec_width());
    lemma_cells_fit(height, measured.spec_height());
}

/// A resize that changes the grid's size in cells always resizes the
/// terminal and the PTY to exactly the new size, with the pixel size of the
/// measured cells; and a resize that asks for nothing leaves the grid's size
/// as it was.
pub proof fn lemma_resize_reports_change(
    grid: TerminalGrid,
    width: int,
    height: int,
    measured: CellMetrics,
)
    ensures
        ({
            let (g, action) = resize_result(grid, width, height, measured);
            &&& (g.cols != grid.cols || g.rows != grid.rows) ==> action is Some
            &&& action is None ==> g.cols == grid.cols && g.rows == grid.rows
            &&& action matches Some(a) ==> {
                &&& a.cols == g.cols && a.rows == g.rows
                &&& (a.cols != grid.cols || a.rows != grid.rows)
                &&& a.cell_width_px == measured.char_width as int / 1024
                &&& a.cell_height_px == (measured.ascent as int + measured.descent as int) / 1024
                &&& a.pty_cell_width as int == (if measured.char_width as int / 1024 > 0xffff {
                    0xffff
                } else {
                    measured.char_width as int / 1024
                })
                &&& a.pty_cell_height as int == (if (measured.ascent as int
                    + measured.descent as int) / 1024 > 0xffff {
                    0xffff
                } else {
                    (measured.ascent as int + measured.descent as int) / 1024
                })
            }
        }),
{
}

/// How a resize treats the widget's size: a widget with no area leaves the
/// grid, metrics included, untouched; any other takes the measured metrics;
/// with cells of some area the grid becomes the largest count of cells
/// (at least one, at most 65535) whose total fits in the widget.
pub proof fn lemma_resize_size(grid: TerminalGrid, width: int, height: int, measured: CellMetrics)
    ensures
        ({
            let (g, action) = resize_result(grid, width, height, measured);
            &&& (width <= 0 || height <= 0) ==> g == grid && action is None
            &&& (width > 0 && height > 0) ==> g.metrics == measured
            &&& (width > 0 && height > 0 && (measured.char_width <= 0 || measured.ascent as int
                + measured.descent as int <= 0)) ==> g.cols == grid.cols && g.rows == grid.rows
                && action is None
            &&& (width > 0 && height > 0 && measured.char_width > 0 && measured.ascent as int
                + measured.descent as int > 0) ==> {
                &&& 1 <= g.cols && 1 <= g.rows
                &&& g.cols > 1 ==> g.cols * measured.char_width <= width * 1024
                &&& g.cols < 0xffff ==> (g.cols + 1) * measured.char_width > width * 1024
                &&& g.rows > 1 ==> g.rows * (measured.ascent as int + measured.descent as int)
                    <= height * 1024
                &&& g.rows < 0xffff ==> (g.rows + 1) * (measured.ascent as int
                    + measured.descent as int) > height * 1024
            }
        }),
{
    if width > 0 && height > 0 && measured.char_width > 0 && measured.ascent as int
        + measured.descent as int > 0 {
        lemma_cells_fit(width, measured.char_width as int);
        lemma_cells_fit(height, measured.ascent as int + measured.descent as int);
    }
}

/// The metrics of a cell: its width is the character width, its height the
/// ascent plus the descent, and its baseline the ascent.
pub proof fn lemma_metrics(m: CellMetrics)
    ensures
        m.spec_width() == m.char_width,
        m.spec_height() == m.ascent + m.descent,
        m.spec_baseline() == m.ascent,
{
}

/// A length in whole pixels for a `u16`: negative lengths give 0, others
/// the largest pixel count within the length, at most 65535.
pub proof fn lemma_px_u16(units: int)
    ensures
        units < 0 ==> px_u16(units) == 0,
        units >= 0 ==> 0 <= px_u16(units) <= 0xffff,
        units >= 0 ==> px_u16(units) * 1024 <= units,
        units >= 0 && px_u16(units) < 0xffff ==> units < (px_u16(units) + 1) * 1024,
{
}

} // verus!
