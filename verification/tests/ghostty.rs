use limux::ghostty::{GhosttyColorRgb, GhosttyTerminalOptions};

#[test]
fn default_color_is_black() {
    assert_eq!(GhosttyColorRgb::default(), GhosttyColorRgb { r: 0, g: 0, b: 0 });
}

#[test]
fn options_are_plain_values() {
    let o = GhosttyTerminalOptions { cols: 80, rows: 24, max_scrollback: 10_000 };
    let p = o;
    assert_eq!(o, p);
}
