//! Plain-data model of the libghostty-vt C interface: the result codes, the
//! value types that cross the boundary, and the enumeration constants that the
//! terminal host reads or writes.
//!
//! Values that the C side hands over by pointer are held here by value, so
//! that the host's decisions can be stated and proved over them.

use vstd::prelude::*;

verus! {

// -------------------------------------------------------------------
// Result codes
// -------------------------------------------------------------------

/// Status returned by every fallible libghostty-vt call.
pub type GhosttyResult = i32;

pub const GHOSTTY_SUCCESS: GhosttyResult = 0;

pub const GHOSTTY_OUT_OF_MEMORY: GhosttyResult = -1;

pub const GHOSTTY_INVALID_VALUE: GhosttyResult = -2;

pub const GHOSTTY_OUT_OF_SPACE: GhosttyResult = -3;

pub const GHOSTTY_NO_VALUE: GhosttyResult = -4;

// -------------------------------------------------------------------
// Borrowed string
// -------------------------------------------------------------------

/// A string that the VT library lends out (a pointer and a length on the C
/// side). `bytes` is `None` where the library left the pointer null, and
/// otherwise holds the `len` bytes it points at.
pub struct GhosttyString {
    pub bytes: Option<Vec<u8>>,
}

// -------------------------------------------------------------------
// Color types
// -------------------------------------------------------------------

/// An RGB color, one byte per channel.
#[derive(Clone, Copy, Debug, PartialEq, Eq, Structural)]
pub struct GhosttyColorRgb {
    pub r: u8,
    pub g: u8,
    pub b: u8,
}

impl Default for GhosttyColorRgb {
    /// Black, as the zero-initialised C struct.
    fn default() -> (c: Self)
        ensures
            c.r == 0 && c.g == 0 && c.b == 0,
    {
        GhosttyColorRgb { r: 0, g: 0, b: 0 }
    }
}

pub type GhosttyColorPaletteIndex = u8;

// -------------------------------------------------------------------
// Style types
// -------------------------------------------------------------------

pub type GhosttyStyleId = u16;

/// A style color: the C side tags a union with NONE (here `Unset`),
/// PALETTE or RGB.
#[derive(Clone, Copy, Debug, PartialEq, Eq, Structural)]
pub enum GhosttyStyleColor {
    Unset,
    Palette(GhosttyColorPaletteIndex),
    Rgb(GhosttyColorRgb),
}

/// The style of a cell.
#[derive(Clone, Copy, Debug, PartialEq, Eq, Structural)]
pub struct GhosttyStyle {
    pub fg_color: GhosttyStyleColor,
    pub bg_color: GhosttyStyleColor,
    pub underline_color: GhosttyStyleColor,
    pub bold: bool,
    pub italic: bool,
    pub faint: bool,
    pub blink: bool,
    pub inverse: bool,
    pub invisible: bool,
    pub strikethrough: bool,
    pub overline: bool,
    pub underline: i32,
}

// -------------------------------------------------------------------
// Terminal options and viewport scrolling
// -------------------------------------------------------------------

/// Size and scrollback of a new terminal.
#[derive(Clone, Copy, Debug, PartialEq, Eq, Structural)]
pub struct GhosttyTerminalOptions {
    pub cols: u16,
    pub rows: u16,
    pub max_scrollback: usize,
}

/// How to move the viewport: the C side tags a union with TOP, BOTTOM or
/// DELTA (a signed row count).
#[derive(Clone, Copy, Debug, PartialEq, Eq, Structural)]
pub enum GhosttyTerminalScrollViewport {
    Top,
    Bottom,
    Delta(isize),
}

// -------------------------------------------------------------------
// Render state
// -------------------------------------------------------------------

pub type GhosttyRenderStateDirty = i32;

pub const GHOSTTY_RENDER_STATE_DIRTY_FALSE: GhosttyRenderStateDirty = 0;

pub const GHOSTTY_RENDER_STATE_DIRTY_PARTIAL: GhosttyRenderStateDirty = 1;

pub const GHOSTTY_RENDER_STATE_DIRTY_FULL: GhosttyRenderStateDirty = 2;

pub type GhosttyRenderStateCursorVisualStyle = i32;

pub const GHOSTTY_RENDER_STATE_CURSOR_VISUAL_STYLE_BAR: GhosttyRenderStateCursorVisualStyle = 0;

pub const GHOSTTY_RENDER_STATE_CURSOR_VISUAL_STYLE_BLOCK: GhosttyRenderStateCursorVisualStyle = 1;

pub const GHOSTTY_RENDER_STATE_CURSOR_VISUAL_STYLE_UNDERLINE: GhosttyRenderStateCursorVisualStyle =
    2;

pub const GHOSTTY_RENDER_STATE_CURSOR_VISUAL_STYLE_BLOCK_HOLLOW:
    GhosttyRenderStateCursorVisualStyle = 3;

/// The colors of a render state: default background, foreground and cursor
/// color, and the 256-entry palette. `size` is the struct size that the C
/// side checks.
pub struct GhosttyRenderStateColors {
    pub size: usize,
    pub background: GhosttyColorRgb,
    pub foreground: GhosttyColorRgb,
    pub cursor: GhosttyColorRgb,
    pub cursor_has_value: bool,
    pub palette: [GhosttyColorRgb; 256],
}

// -------------------------------------------------------------------
// Key events
// -------------------------------------------------------------------

pub type GhosttyKeyAction = i32;

pub const GHOSTTY_KEY_ACTION_RELEASE: GhosttyKeyAction = 0;

pub const GHOSTTY_KEY_ACTION_PRESS: GhosttyKeyAction = 1;

pub const GHOSTTY_KEY_ACTION_REPEAT: GhosttyKeyAction = 2;

pub type GhosttyMods = u16;

pub const GHOSTTY_MODS_SHIFT: GhosttyMods = 1;

pub const GHOSTTY_MODS_CTRL: GhosttyMods = 2;

pub const GHOSTTY_MODS_ALT: GhosttyMods = 4;

pub const GHOSTTY_MODS_SUPER: GhosttyMods = 8;

/// A physical key, named after the US layout.
pub type GhosttyKey = i32;

pub const GHOSTTY_KEY_UNIDENTIFIED: GhosttyKey = 0;

pub const GHOSTTY_KEY_BACKQUOTE: GhosttyKey = 1;

pub const GHOSTTY_KEY_BACKSLASH: GhosttyKey = 2;

pub const GHOSTTY_KEY_BRACKET_LEFT: GhosttyKey = 3;

pub const GHOSTTY_KEY_BRACKET_RIGHT: GhosttyKey = 4;

pub const GHOSTTY_KEY_COMMA: GhosttyKey = 5;

pub const GHOSTTY_KEY_DIGIT_0: GhosttyKey = 6;

pub const GHOSTTY_KEY_DIGIT_1: GhosttyKey = 7;

pub const GHOSTTY_KEY_DIGIT_2: GhosttyKey = 8;

pub const GHOSTTY_KEY_DIGIT_3: GhosttyKey = 9;

pub const GHOSTTY_KEY_DIGIT_4: GhosttyKey = 10;

pub const GHOSTTY_KEY_DIGIT_5: GhosttyKey = 11;

pub const GHOSTTY_KEY_DIGIT_6: GhosttyKey = 12;

pub const GHOSTTY_KEY_DIGIT_7: GhosttyKey = 13;

pub const GHOSTTY_KEY_DIGIT_8: GhosttyKey = 14;

pub const GHOSTTY_KEY_DIGIT_9: GhosttyKey = 15;

pub const GHOSTTY_KEY_EQUAL: GhosttyKey = 16;

pub const GHOSTTY_KEY_A: GhosttyKey = 20;

pub const GHOSTTY_KEY_B: GhosttyKey = 21;

pub const GHOSTTY_KEY_C: GhosttyKey = 22;

pub const GHOSTTY_KEY_D: GhosttyKey = 23;

pub const GHOSTTY_KEY_E: GhosttyKey = 24;

pub const GHOSTTY_KEY_F: GhosttyKey = 25;

pub const GHOSTTY_KEY_G: GhosttyKey = 26;

pub const GHOSTTY_KEY_H: GhosttyKey = 27;

pub const GHOSTTY_KEY_I: GhosttyKey = 28;

pub const GHOSTTY_KEY_J: GhosttyKey = 29;

pub const GHOSTTY_KEY_K: GhosttyKey = 30;

pub const GHOSTTY_KEY_L: GhosttyKey = 31;

pub const GHOSTTY_KEY_M: GhosttyKey = 32;

pub const GHOSTTY_KEY_N: GhosttyKey = 33;

pub const GHOSTTY_KEY_O: GhosttyKey = 34;

pub const GHOSTTY_KEY_P: GhosttyKey = 35;

pub const GHOSTTY_KEY_Q: GhosttyKey = 36;

pub const GHOSTTY_KEY_R: GhosttyKey = 37;

pub const GHOSTTY_KEY_S: GhosttyKey = 38;

pub const GHOSTTY_KEY_T: GhosttyKey = 39;

pub const GHOSTTY_KEY_U: GhosttyKey = 40;

pub const GHOSTTY_KEY_V: GhosttyKey = 41;

pub const GHOSTTY_KEY_W: GhosttyKey = 42;

pub const GHOSTTY_KEY_X: GhosttyKey = 43;

pub const GHOSTTY_KEY_Y: GhosttyKey = 44;

pub const GHOSTTY_KEY_Z: GhosttyKey = 45;

pub const GHOSTTY_KEY_MINUS: GhosttyKey = 46;

pub const GHOSTTY_KEY_PERIOD: GhosttyKey = 47;

pub const GHOSTTY_KEY_QUOTE: GhosttyKey = 48;

pub const GHOSTTY_KEY_SEMICOLON: GhosttyKey = 49;

pub const GHOSTTY_KEY_SLASH: GhosttyKey = 50;

pub const GHOSTTY_KEY_BACKSPACE: GhosttyKey = 53;

pub const GHOSTTY_KEY_ENTER: GhosttyKey = 58;

pub const GHOSTTY_KEY_SPACE: GhosttyKey = 63;

pub const GHOSTTY_KEY_TAB: GhosttyKey = 64;

pub const GHOSTTY_KEY_DELETE: GhosttyKey = 68;

pub const GHOSTTY_KEY_END: GhosttyKey = 69;

pub const GHOSTTY_KEY_HOME: GhosttyKey = 71;

pub const GHOSTTY_KEY_INSERT: GhosttyKey = 72;

pub const GHOSTTY_KEY_PAGE_DOWN: GhosttyKey = 73;

pub const GHOSTTY_KEY_PAGE_UP: GhosttyKey = 74;

pub const GHOSTTY_KEY_ARROW_DOWN: GhosttyKey = 75;

pub const GHOSTTY_KEY_ARROW_LEFT: GhosttyKey = 76;

pub const GHOSTTY_KEY_ARROW_RIGHT: GhosttyKey = 77;

pub const GHOSTTY_KEY_ARROW_UP: GhosttyKey = 78;

pub const GHOSTTY_KEY_ESCAPE: GhosttyKey = 118;

pub const GHOSTTY_KEY_F1: GhosttyKey = 119;

pub const GHOSTTY_KEY_F2: GhosttyKey = 120;

pub const GHOSTTY_KEY_F3: GhosttyKey = 121;

pub const GHOSTTY_KEY_F4: GhosttyKey = 122;

pub const GHOSTTY_KEY_F5: GhosttyKey = 123;

pub const GHOSTTY_KEY_F6: GhosttyKey = 124;

pub const GHOSTTY_KEY_F7: GhosttyKey = 125;

pub const GHOSTTY_KEY_F8: GhosttyKey = 126;

pub const GHOSTTY_KEY_F9: GhosttyKey = 127;

pub const GHOSTTY_KEY_F10: GhosttyKey = 128;

pub const GHOSTTY_KEY_F11: GhosttyKey = 129;

pub const GHOSTTY_KEY_F12: GhosttyKey = 130;

} // verus!
