use limux::ghostty::{
    GhosttyColorRgb, GhosttyRenderStateColors, GhosttyStyle, GhosttyStyleColor,
    GHOSTTY_INVALID_VALUE, GHOSTTY_RENDER_STATE_CURSOR_VISUAL_STYLE_BAR,
    GHOSTTY_RENDER_STATE_CURSOR_VISUAL_STYLE_BLOCK,
    GHOSTTY_RENDER_STATE_CURSOR_VISUAL_STYLE_BLOCK_HOLLOW,
    GHOSTTY_RENDER_STATE_CURSOR_VISUAL_STYLE_UNDERLINE, GHOSTTY_SUCCESS,
};
use limux::grid::measure_font_metrics;
use limux::render::{
    cell_paint, cell_rect, codepoints_to_text, cursor_paint, row_below_widget, CursorShape, Rect,
};

fn rgb(r: u8, g: u8, b: u8) -> GhosttyColorRgb {
    GhosttyColorRgb { r, g, b }
}

fn style(bold: bool, italic: bool) -> GhosttyStyle {
    GhosttyStyle {
        fg_color: GhosttyStyleColor::Unset,
        bg_color: GhosttyStyleColor::Palette(3),
        underline_color: GhosttyStyleColor::Rgb(rgb(1, 2, 3)),
        bold,
        italic,
        faint: false,
        blink: false,
        inverse: false,
        invisible: false,
        strikethrough: false,
        overline: false,
        underline: 0,
    }
}

fn colors(cursor: Option<GhosttyColorRgb>) -> GhosttyRenderStateColors {
    GhosttyRenderStateColors {
        size: std::mem::size_of::<GhosttyRenderStateColors>(),
        background: rgb(30, 30, 46),
        foreground: rgb(205, 214, 244),
        cursor: cursor.unwrap_or_default(),
        cursor_has_value: cursor.is_some(),
        palette: [GhosttyColorRgb::default(); 256],
    }
}

#[test]
fn text_skips_invalid_codepoints() {
    assert_eq!(codepoints_to_text(&vec![0x41, 0xd800, 0x1f600, 0x110000, 0x62]), "A😀b");
    assert_eq!(codepoints_to_text(&vec![]), "");
}

#[test]
fn cell_geometry_in_pango_units() {
    let m = measure_font_metrics(8192, 12288, 4096);
    assert_eq!(cell_rect(3, 2, &m), Rect { x: 3 * 8192, y: 2 * 16384, width: 8192, height: 16384 });
    assert!(!row_below_widget(37, 600, &m));
    assert!(row_below_widget(38, 600, &m));
}

#[test]
fn cell_with_background_and_text() {
    let m = measure_font_metrics(8192, 12288, 4096);
    let p = cell_paint(1, 1, &m, GHOSTTY_SUCCESS, rgb(1, 1, 1), &vec!['x' as u32], GHOSTTY_SUCCESS, rgb(9, 9, 9), &style(true, false), rgb(200, 200, 200));
    assert_eq!(p.background, Some((Rect { x: 8192, y: 16384, width: 8192, height: 16384 }, rgb(1, 1, 1))));
    let t = p.text.unwrap();
    assert_eq!(t.text, "x");
    assert_eq!(t.color, rgb(9, 9, 9));
    assert!(t.bold && !t.italic);
    assert_eq!((t.x, t.y), (8192, 16384));
}

#[test]
fn foreground_falls_back_to_default() {
    let m = measure_font_metrics(8192, 12288, 4096);
    let p = cell_paint(0, 0, &m, GHOSTTY_INVALID_VALUE, rgb(1, 1, 1), &vec!['é' as u32, 0x301], GHOSTTY_INVALID_VALUE, rgb(9, 9, 9), &style(false, true), rgb(200, 200, 200));
    assert_eq!(p.background, None);
    let t = p.text.unwrap();
    assert_eq!(t.text, "é\u{301}");
    assert_eq!(t.color, rgb(200, 200, 200));
    assert!(t.italic);
}

#[test]
fn blank_cells_draw_no_text() {
    let m = measure_font_metrics(8192, 12288, 4096);
    for cps in [vec![], vec![' ' as u32], vec![0xdfff]] {
        let p = cell_paint(0, 0, &m, GHOSTTY_SUCCESS, rgb(1, 1, 1), &cps, GHOSTTY_SUCCESS, rgb(9, 9, 9), &style(false, false), rgb(2, 2, 2));
        assert!(p.text.is_none());
    }
    let p = cell_paint(0, 0, &m, GHOSTTY_SUCCESS, rgb(1, 1, 1), &vec![' ' as u32, ' ' as u32], GHOSTTY_SUCCESS, rgb(9, 9, 9), &style(false, false), rgb(2, 2, 2));
    assert_eq!(p.text.unwrap().text, "  ");
}

#[test]
fn cursor_shapes() {
    let m = measure_font_metrics(8192, 12288, 4096);
    let c = colors(None);
    let block = cursor_paint(true, true, 2, 3, GHOSTTY_RENDER_STATE_CURSOR_VISUAL_STYLE_BLOCK, &c, &m).unwrap();
    assert_eq!(block.color, rgb(205, 214, 244));
    assert_eq!(block.shape, CursorShape::Fill(Rect { x: 16384, y: 49152, width: 8192, height: 16384 }));
    let bar = cursor_paint(true, true, 2, 3, GHOSTTY_RENDER_STATE_CURSOR_VISUAL_STYLE_BAR, &c, &m).unwrap();
    assert_eq!(bar.shape, CursorShape::Fill(Rect { x: 16384, y: 49152, width: 2048, height: 16384 }));
    let under = cursor_paint(true, true, 2, 3, GHOSTTY_RENDER_STATE_CURSOR_VISUAL_STYLE_UNDERLINE, &c, &m).unwrap();
    assert_eq!(under.shape, CursorShape::Fill(Rect { x: 16384, y: 49152 + 14336, width: 8192, height: 2048 }));
    let hollow = cursor_paint(true, true, 2, 3, GHOSTTY_RENDER_STATE_CURSOR_VISUAL_STYLE_BLOCK_HOLLOW, &c, &m).unwrap();
    assert_eq!(hollow.shape, CursorShape::Stroke(Rect { x: 16384 + 512, y: 49152 + 512, width: 7168, height: 15360 }));
}

#[test]
fn cursor_color_and_visibility() {
    let m = measure_font_metrics(8192, 12288, 4096);
    let c = colors(Some(rgb(255, 0, 0)));
    let p = cursor_paint(true, true, 0, 0, GHOSTTY_RENDER_STATE_CURSOR_VISUAL_STYLE_BLOCK, &c, &m).unwrap();
    assert_eq!(p.color, rgb(255, 0, 0));
    assert!(cursor_paint(false, true, 0, 0, GHOSTTY_RENDER_STATE_CURSOR_VISUAL_STYLE_BLOCK, &c, &m).is_none());
    assert!(cursor_paint(true, false, 0, 0, GHOSTTY_RENDER_STATE_CURSOR_VISUAL_STYLE_BLOCK, &c, &m).is_none());
    assert!(cursor_paint(true, true, 0, 0, 7, &c, &m).is_none());
}
