use limux::ghostty::GhosttyTerminalScrollViewport;
use limux::grid::{
    initial_cell_metrics, initial_terminal_options, measure_font_metrics, scroll_for_wheel_steps,
    units_to_px_u16, CellMetrics, GridResize, TerminalGrid,
};

fn metrics(w: i32, a: i32, d: i32) -> CellMetrics {
    measure_font_metrics(w, a, d)
}

#[test]
fn new_terminal_is_80_by_24() {
    let o = initial_terminal_options();
    assert_eq!((o.cols, o.rows, o.max_scrollback), (80, 24, 10_000));
    let g = TerminalGrid::new();
    assert_eq!((g.cols, g.rows), (80, 24));
    assert_eq!(g.metrics, initial_cell_metrics());
    assert_eq!((g.metrics.width(), g.metrics.height(), g.metrics.baseline()), (8192, 16384, 12288));
    assert_eq!(g.pty_size(), (80, 24, 8, 16));
}

#[test]
fn resize_fits_cells_into_the_widget() {
    let mut g = TerminalGrid::new();
    let m = metrics(8192, 12288, 4096);
    let a = g.on_resize(800, 600, m);
    assert_eq!(
        a,
        Some(GridResize {
            cols: 100,
            rows: 37,
            cell_width_px: 8,
            cell_height_px: 16,
            pty_cell_width: 8,
            pty_cell_height: 16,
        })
    );
    assert_eq!((g.cols, g.rows), (100, 37));
    // The same size again changes nothing.
    assert_eq!(g.on_resize(800, 600, m), None);
    assert_eq!((g.cols, g.rows), (100, 37));
}

#[test]
fn fractional_cells_use_exact_division() {
    let mut g = TerminalGrid::new();
    // 7.5 px wide, 15.25 px tall cells
    let m = metrics(7680, 12288, 3328);
    let a = g.on_resize(100, 100, m).unwrap();
    // 100 / 7.5 = 13.33, 100 / 15.25 = 6.55
    assert_eq!((a.cols, a.rows), (13, 6));
    assert_eq!((a.cell_width_px, a.cell_height_px), (7, 15));
    assert_eq!(((100.0f64 / 7.5).floor() as u16, (100.0f64 / 15.25).floor() as u16), (13, 6));
}

#[test]
fn widget_without_area_is_ignored() {
    let mut g = TerminalGrid::new();
    let before = g;
    assert_eq!(g.on_resize(0, 600, metrics(1, 1, 1)), None);
    assert_eq!(g.on_resize(800, -1, metrics(1, 1, 1)), None);
    assert_eq!(g, before);
}

#[test]
fn degenerate_font_keeps_the_grid_but_takes_the_metrics() {
    let mut g = TerminalGrid::new();
    let m = metrics(0, 12288, 4096);
    assert_eq!(g.on_resize(800, 600, m), None);
    assert_eq!((g.cols, g.rows), (80, 24));
    assert_eq!(g.metrics, m);
}

#[test]
fn tiny_widget_has_one_cell_and_huge_widget_saturates() {
    let mut g = TerminalGrid::new();
    let a = g.on_resize(3, 3, metrics(8192, 12288, 4096)).unwrap();
    assert_eq!((a.cols, a.rows), (1, 1));
    let a = g.on_resize(i32::MAX, i32::MAX, metrics(1, 1, 0)).unwrap();
    assert_eq!((a.cols, a.rows), (u16::MAX, u16::MAX));
    assert_eq!((a.cell_width_px, a.pty_cell_width), (0, 0));
}

#[test]
fn pixel_conversion_truncates_and_saturates() {
    assert_eq!(units_to_px_u16(-5000), 0);
    assert_eq!(units_to_px_u16(1023), 0);
    assert_eq!(units_to_px_u16(2047), 1);
    assert_eq!(units_to_px_u16(1024 * 70000), u16::MAX);
}

#[test]
fn wheel_scrolls_three_rows_per_step() {
    assert_eq!(scroll_for_wheel_steps(1), GhosttyTerminalScrollViewport::Delta(-3));
    assert_eq!(scroll_for_wheel_steps(-2), GhosttyTerminalScrollViewport::Delta(6));
    assert_eq!(scroll_for_wheel_steps(0), GhosttyTerminalScrollViewport::Delta(0));
}
