//! Keyboard input: GDK key values and modifier state to libghostty-vt key
//! events.
//!
//! A GDK key value (`gdk::Key`) is held as its `u32` keysym, and a GDK
//! modifier state (`gdk::ModifierType`) as its bits.

use vstd::prelude::*;

use crate::ghostty::{
    GHOSTTY_KEY_A, GHOSTTY_KEY_ACTION_PRESS, GHOSTTY_KEY_ACTION_RELEASE, GHOSTTY_KEY_ARROW_DOWN, GHOSTTY_KEY_ARROW_LEFT, GHOSTTY_KEY_ARROW_RIGHT, GHOSTTY_KEY_ARROW_UP, GHOSTTY_KEY_B, GHOSTTY_KEY_BACKQUOTE, GHOSTTY_KEY_BACKSLASH, GHOSTTY_KEY_BACKSPACE, GHOSTTY_KEY_BRACKET_LEFT, GHOSTTY_KEY_BRACKET_RIGHT, GHOSTTY_KEY_C, GHOSTTY_KEY_COMMA, GHOSTTY_KEY_D, GHOSTTY_KEY_DELETE, GHOSTTY_KEY_DIGIT_0, GHOSTTY_KEY_DIGIT_1, GHOSTTY_KEY_DIGIT_2, GHOSTTY_KEY_DIGIT_3, GHOSTTY_KEY_DIGIT_4, GHOSTTY_KEY_DIGIT_5, GHOSTTY_KEY_DIGIT_6, GHOSTTY_KEY_DIGIT_7, GHOSTTY_KEY_DIGIT_8, GHOSTTY_KEY_DIGIT_9, GHOSTTY_KEY_E, GHOSTTY_KEY_END, GHOSTTY_KEY_ENTER, GHOSTTY_KEY_EQUAL, GHOSTTY_KEY_ESCAPE, GHOSTTY_KEY_F, GHOSTTY_KEY_F1, GHOSTTY_KEY_F10, GHOSTTY_KEY_F11, GHOSTTY_KEY_F12, GHOSTTY_KEY_F2, GHOSTTY_KEY_F3, GHOSTTY_KEY_F4, GHOSTTY_KEY_F5, GHOSTTY_KEY_F6, GHOSTTY_KEY_F7, GHOSTTY_KEY_F8, GHOSTTY_KEY_F9, GHOSTTY_KEY_G, GHOSTTY_KEY_H, GHOSTTY_KEY_HOME, GHOSTTY_KEY_I, GHOSTTY_KEY_INSERT, GHOSTTY_KEY_J, GHOSTTY_KEY_K, GHOSTTY_KEY_L, GHOSTTY_KEY_M, GHOSTTY_KEY_MINUS, GHOSTTY_KEY_N, GHOSTTY_KEY_O, GHOSTTY_KEY_P, GHOSTTY_KEY_PAGE_DOWN, GHOSTTY_KEY_PAGE_UP, GHOSTTY_KEY_PERIOD, GHOSTTY_KEY_Q, GHOSTTY_KEY_QUOTE, GHOSTTY_KEY_R, GHOSTTY_KEY_S, GHOSTTY_KEY_SEMICOLON, GHOSTTY_KEY_SLASH, GHOSTTY_KEY_SPACE, GHOSTTY_KEY_T, GHOSTTY_KEY_TAB, GHOSTTY_KEY_U, GHOSTTY_KEY_UNIDENTIFIED, GHOSTTY_KEY_V, GHOSTTY_KEY_W, GHOSTTY_KEY_X, GHOSTTY_KEY_Y, GHOSTTY_KEY_Z, GHOSTTY_MODS_ALT, GHOSTTY_MODS_CTRL, GHOSTTY_MODS_SHIFT, GHOSTTY_MODS_SUPER, GHOSTTY_SUCCESS, GhosttyKey, GhosttyKeyAction, GhosttyMods, GhosttyResult,
};

verus! {

// -------------------------------------------------------------------
// GDK key values (X keysyms) that have a physical key in libghostty-vt
// -------------------------------------------------------------------

pub const GDK_KEY_a: u32 = 0x061;
pub const GDK_KEY_z: u32 = 0x07a;
pub const GDK_KEY_A: u32 = 0x041;
pub const GDK_KEY_Z: u32 = 0x05a;
pub const GDK_KEY_0: u32 = 0x030;
pub const GDK_KEY_9: u32 = 0x039;
pub const GDK_KEY_parenright: u32 = 0x029;
pub const GDK_KEY_exclam: u32 = 0x021;
pub const GDK_KEY_at: u32 = 0x040;
pub const GDK_KEY_numbersign: u32 = 0x023;
pub const GDK_KEY_dollar: u32 = 0x024;
pub const GDK_KEY_percent: u32 = 0x025;
pub const GDK_KEY_asciicircum: u32 = 0x05e;
pub const GDK_KEY_ampersand: u32 = 0x026;
pub const GDK_KEY_asterisk: u32 = 0x02a;
pub const GDK_KEY_parenleft: u32 = 0x028;
pub const GDK_KEY_space: u32 = 0x020;
pub const GDK_KEY_Return: u32 = 0xff0d;
pub const GDK_KEY_KP_Enter: u32 = 0xff8d;
pub const GDK_KEY_Tab: u32 = 0xff09;
pub const GDK_KEY_ISO_Left_Tab: u32 = 0xfe20;
pub const GDK_KEY_BackSpace: u32 = 0xff08;
pub const GDK_KEY_Escape: u32 = 0xff1b;
pub const GDK_KEY_Delete: u32 = 0xffff;
pub const GDK_KEY_KP_Delete: u32 = 0xff9f;
pub const GDK_KEY_Insert: u32 = 0xff63;
pub const GDK_KEY_KP_Insert: u32 = 0xff9e;
pub const GDK_KEY_Home: u32 = 0xff50;
pub const GDK_KEY_KP_Home: u32 = 0xff95;
pub const GDK_KEY_End: u32 = 0xff57;
pub const GDK_KEY_KP_End: u32 = 0xff9c;
pub const GDK_KEY_Page_Up: u32 = 0xff55;
pub const GDK_KEY_KP_Page_Up: u32 = 0xff9a;
pub const GDK_KEY_Page_Down: u32 = 0xff56;
pub const GDK_KEY_KP_Page_Down: u32 = 0xff9b;
pub const GDK_KEY_Up: u32 = 0xff52;
pub const GDK_KEY_KP_Up: u32 = 0xff97;
pub const GDK_KEY_Down: u32 = 0xff54;
pub const GDK_KEY_KP_Down: u32 = 0xff99;
pub const GDK_KEY_Left: u32 = 0xff51;
pub const GDK_KEY_KP_Left: u32 = 0xff96;
pub const GDK_KEY_Right: u32 = 0xff53;
pub const GDK_KEY_KP_Right: u32 = 0xff98;
pub const GDK_KEY_F1: u32 = 0xffbe;
pub const GDK_KEY_F12: u32 = 0xffc9;
pub const GDK_KEY_minus: u32 = 0x02d;
pub const GDK_KEY_underscore: u32 = 0x05f;
pub const GDK_KEY_equal: u32 = 0x03d;
pub const GDK_KEY_plus: u32 = 0x02b;
pub const GDK_KEY_bracketleft: u32 = 0x05b;
pub const GDK_KEY_braceleft: u32 = 0x07b;
pub const GDK_KEY_bracketright: u32 = 0x05d;
pub const GDK_KEY_braceright: u32 = 0x07d;
pub const GDK_KEY_backslash: u32 = 0x05c;
pub const GDK_KEY_bar: u32 = 0x07c;
pub const GDK_KEY_semicolon: u32 = 0x03b;
pub const GDK_KEY_colon: u32 = 0x03a;
pub const GDK_KEY_apostrophe: u32 = 0x027;
pub const GDK_KEY_quotedbl: u32 = 0x022;
pub const GDK_KEY_comma: u32 = 0x02c;
pub const GDK_KEY_less: u32 = 0x03c;
pub const GDK_KEY_period: u32 = 0x02e;
pub const GDK_KEY_greater: u32 = 0x03e;
pub const GDK_KEY_slash: u32 = 0x02f;
pub const GDK_KEY_question: u32 = 0x03f;
pub const GDK_KEY_grave: u32 = 0x060;
pub const GDK_KEY_asciitilde: u32 = 0x07e;

// GDK modifier mask bits
pub const GDK_SHIFT_MASK: u32 = 0x1;
pub const GDK_CONTROL_MASK: u32 = 0x4;
pub const GDK_ALT_MASK: u32 = 0x8;
pub const GDK_SUPER_MASK: u32 = 0x4000000;

// -------------------------------------------------------------------
// Key value -> physical key
// -------------------------------------------------------------------

/// The digit whose key carries `k` as its shifted symbol on a US keyboard
/// (`)` is on 0, `!` on 1, ... `(` on 9), or -1.
pub open spec fn us_shifted_digit(k: u32) -> int {
    if k == GDK_KEY_parenright { 0 }
    else if k == GDK_KEY_exclam { 1 }
    else if k == GDK_KEY_at { 2 }
    else if k == GDK_KEY_numbersign { 3 }
    else if k == GDK_KEY_dollar { 4 }
    else if k == GDK_KEY_percent { 5 }
    else if k == GDK_KEY_asciicircum { 6 }
    else if k == GDK_KEY_ampersand { 7 }
    else if k == GDK_KEY_asterisk { 8 }
    else if k == GDK_KEY_parenleft { 9 }
    else { -1 }
}

/// The punctuation key that carries `k`, unshifted or shifted, on a US
/// keyboard, or `GHOSTTY_KEY_UNIDENTIFIED`.
pub open spec fn us_punctuation_key(k: u32) -> GhosttyKey {
    if k == GDK_KEY_minus || k == GDK_KEY_underscore { GHOSTTY_KEY_MINUS }
    else if k == GDK_KEY_equal || k == GDK_KEY_plus { GHOSTTY_KEY_EQUAL }
    else if k == GDK_KEY_bracketleft || k == GDK_KEY_braceleft { GHOSTTY_KEY_BRACKET_LEFT }
    else if k == GDK_KEY_bracketright || k == GDK_KEY_braceright { GHOSTTY_KEY_BRACKET_RIGHT }
    else if k == GDK_KEY_backslash || k == GDK_KEY_bar { GHOSTTY_KEY_BACKSLASH }
    else if k == GDK_KEY_semicolon || k == GDK_KEY_colon { GHOSTTY_KEY_SEMICOLON }
    else if k == GDK_KEY_apostrophe || k == GDK_KEY_quotedbl { GHOSTTY_KEY_QUOTE }
    else if k == GDK_KEY_comma || k == GDK_KEY_less { GHOSTTY_KEY_COMMA }
    else if k == GDK_KEY_period || k == GDK_KEY_greater { GHOSTTY_KEY_PERIOD }
    else if k == GDK_KEY_slash || k == GDK_KEY_question { GHOSTTY_KEY_SLASH }
    else if k == GDK_KEY_grave || k == GDK_KEY_asciitilde { GHOSTTY_KEY_BACKQUOTE }
    else { GHOSTTY_KEY_UNIDENTIFIED }
}

/// The editing or navigation key for `k`, the main-block key and its keypad
/// twin alike, or `GHOSTTY_KEY_UNIDENTIFIED`.
pub open spec fn editing_key(k: u32) -> GhosttyKey {
    if k == GDK_KEY_space { GHOSTTY_KEY_SPACE }
    else if k == GDK_KEY_Return || k == GDK_KEY_KP_Enter { GHOSTTY_KEY_ENTER }
    else if k == GDK_KEY_Tab || k == GDK_KEY_ISO_Left_Tab { GHOSTTY_KEY_TAB }
    else if k == GDK_KEY_BackSpace { GHOSTTY_KEY_BACKSPACE }
    else if k == GDK_KEY_Escape { GHOSTTY_KEY_ESCAPE }
    else if k == GDK_KEY_Delete || k == GDK_KEY_KP_Delete { GHOSTTY_KEY_DELETE }
    else if k == GDK_KEY_Insert || k == GDK_KEY_KP_Insert { GHOSTTY_KEY_INSERT }
    else if k == GDK_KEY_Home || k == GDK_KEY_KP_Home { GHOSTTY_KEY_HOME }
    else if k == GDK_KEY_End || k == GDK_KEY_KP_End { GHOSTTY_KEY_END }
    else if k == GDK_KEY_Page_Up || k == GDK_KEY_KP_Page_Up { GHOSTTY_KEY_PAGE_UP }
    else if k == GDK_KEY_Page_Down || k == GDK_KEY_KP_Page_Down { GHOSTTY_KEY_PAGE_DOWN }
    else if k == GDK_KEY_Up || k == GDK_KEY_KP_Up { GHOSTTY_KEY_ARROW_UP }
    else if k == GDK_KEY_Down || k == GDK_KEY_KP_Down { GHOSTTY_KEY_ARROW_DOWN }
    else if k == GDK_KEY_Left || k == GDK_KEY_KP_Left { GHOSTTY_KEY_ARROW_LEFT }
    else if k == GDK_KEY_Right || k == GDK_KEY_KP_Right { GHOSTTY_KEY_ARROW_RIGHT }
    else { GHOSTTY_KEY_UNIDENTIFIED }
}

/// The physical key of a GDK key value: letters of either case on A..Z,
/// digits and their US shifted symbols on DIGIT_0..DIGIT_9, F1..F12, the
/// editing keys, the US punctuation keys; anything else is unidentified.
pub open spec fn key_for_keyval(k: u32) -> GhosttyKey {
    if GDK_KEY_a <= k <= GDK_KEY_z {
        (GHOSTTY_KEY_A + (k - GDK_KEY_a)) as GhosttyKey
    } else if GDK_KEY_A <= k <= GDK_KEY_Z {
        (GHOSTTY_KEY_A + (k - GDK_KEY_A)) as GhosttyKey
    } else if GDK_KEY_0 <= k <= GDK_KEY_9 {
        (GHOSTTY_KEY_DIGIT_0 + (k - GDK_KEY_0)) as GhosttyKey
    } else if us_shifted_digit(k) >= 0 {
        (GHOSTTY_KEY_DIGIT_0 + us_shifted_digit(k)) as GhosttyKey
    } else if GDK_KEY_F1 <= k <= GDK_KEY_F12 {
        (GHOSTTY_KEY_F1 + (k - GDK_KEY_F1)) as GhosttyKey
    } else if editing_key(k) != GHOSTTY_KEY_UNIDENTIFIED {
        editing_key(k)
    } else {
        us_punctuation_key(k)
    }
}

/// Maps a GDK key value to the physical key that libghostty-vt encodes.
pub fn gtk_keyval_to_ghostty_key(keyval: u32) -> (key: GhosttyKey)
    ensures
        key == key_for_keyval(keyval),
{
    match keyval {
        0x61 | 0x41 => GHOSTTY_KEY_A,
        0x62 | 0x42 => GHOSTTY_KEY_B,
        0x63 | 0x43 => GHOSTTY_KEY_C,
        0x64 | 0x44 => GHOSTTY_KEY_D,
        0x65 | 0x45 => GHOSTTY_KEY_E,
        0x66 | 0x46 => GHOSTTY_KEY_F,
        0x67 | 0x47 => GHOSTTY_KEY_G,
        0x68 | 0x48 => GHOSTTY_KEY_H,
        0x69 | 0x49 => GHOSTTY_KEY_I,
        0x6a | 0x4a => GHOSTTY_KEY_J,
        0x6b | 0x4b => GHOSTTY_KEY_K,
        0x6c | 0x4c => GHOSTTY_KEY_L,
        0x6d | 0x4d => GHOSTTY_KEY_M,
        0x6e | 0x4e => GHOSTTY_KEY_N,
        0x6f | 0x4f => GHOSTTY_KEY_O,
        0x70 | 0x50 => GHOSTTY_KEY_P,
        0x71 | 0x51 => GHOSTTY_KEY_Q,
        0x72 | 0x52 => GHOSTTY_KEY_R,
        0x73 | 0x53 => GHOSTTY_KEY_S,
        0x74 | 0x54 => GHOSTTY_KEY_T,
        0x75 | 0x55 => GHOSTTY_KEY_U,
        0x76 | 0x56 => GHOSTTY_KEY_V,
        0x77 | 0x57 => GHOSTTY_KEY_W,
        0x78 | 0x58 => GHOSTTY_KEY_X,
        0x79 | 0x59 => GHOSTTY_KEY_Y,
        0x7a | 0x5a => GHOSTTY_KEY_Z,
        GDK_KEY_0 | GDK_KEY_parenright => GHOSTTY_KEY_DIGIT_0,
        0x31 | GDK_KEY_exclam => GHOSTTY_KEY_DIGIT_1,
        0x32 | GDK_KEY_at => GHOSTTY_KEY_DIGIT_2,
        0x33 | GDK_KEY_numbersign => GHOSTTY_KEY_DIGIT_3,
        0x34 | GDK_KEY_dollar => GHOSTTY_KEY_DIGIT_4,
        0x35 | GDK_KEY_percent => GHOSTTY_KEY_DIGIT_5,
        0x36 | GDK_KEY_asciicircum => GHOSTTY_KEY_DIGIT_6,
        0x37 | GDK_KEY_ampersand => GHOSTTY_KEY_DIGIT_7,
        0x38 | GDK_KEY_asterisk => GHOSTTY_KEY_DIGIT_8,
        GDK_KEY_9 | GDK_KEY_parenleft => GHOSTTY_KEY_DIGIT_9,
        GDK_KEY_space => GHOSTTY_KEY_SPACE,
        GDK_KEY_Return | GDK_KEY_KP_Enter => GHOSTTY_KEY_ENTER,
        GDK_KEY_Tab | GDK_KEY_ISO_Left_Tab => GHOSTTY_KEY_TAB,
        GDK_KEY_BackSpace => GHOSTTY_KEY_BACKSPACE,
        GDK_KEY_Escape => GHOSTTY_KEY_ESCAPE,
        GDK_KEY_Delete | GDK_KEY_KP_Delete => GHOSTTY_KEY_DELETE,
        GDK_KEY_Insert | GDK_KEY_KP_Insert => GHOSTTY_KEY_INSERT,
        GDK_KEY_Home | GDK_KEY_KP_Home => GHOSTTY_KEY_HOME,
        GDK_KEY_End | GDK_KEY_KP_End => GHOSTTY_KEY_END,
        GDK_KEY_Page_Up | GDK_KEY_KP_Page_Up => GHOSTTY_KEY_PAGE_UP,
        GDK_KEY_Page_Down | GDK_KEY_KP_Page_Down => GHOSTTY_KEY_PAGE_DOWN,
        GDK_KEY_Up | GDK_KEY_KP_Up => GHOSTTY_KEY_ARROW_UP,
        GDK_KEY_Down | GDK_KEY_KP_Down => GHOSTTY_KEY_ARROW_DOWN,
        GDK_KEY_Left | GDK_KEY_KP_Left => GHOSTTY_KEY_ARROW_LEFT,
        GDK_KEY_Right | GDK_KEY_KP_Right => GHOSTTY_KEY_ARROW_RIGHT,
        GDK_KEY_F1 => GHOSTTY_KEY_F1,
        0xffbf => GHOSTTY_KEY_F2,
        0xffc0 => GHOSTTY_KEY_F3,
        0xffc1 => GHOSTTY_KEY_F4,
        0xffc2 => GHOSTTY_KEY_F5,
        0xffc3 => GHOSTTY_KEY_F6,
        0xffc4 => GHOSTTY_KEY_F7,
        0xffc5 => GHOSTTY_KEY_F8,
        0xffc6 => GHOSTTY_KEY_F9,
        0xffc7 => GHOSTTY_KEY_F10,
        0xffc8 => GHOSTTY_KEY_F11,
        GDK_KEY_F12 => GHOSTTY_KEY_F12,
        GDK_KEY_minus | GDK_KEY_underscore => GHOSTTY_KEY_MINUS,
        GDK_KEY_equal | GDK_KEY_plus => GHOSTTY_KEY_EQUAL,
        GDK_KEY_bracketleft | GDK_KEY_braceleft => GHOSTTY_KEY_BRACKET_LEFT,
        GDK_KEY_bracketright | GDK_KEY_braceright => GHOSTTY_KEY_BRACKET_RIGHT,
        GDK_KEY_backslash | GDK_KEY_bar => GHOSTTY_KEY_BACKSLASH,
        GDK_KEY_semicolon | GDK_KEY_colon => GHOSTTY_KEY_SEMICOLON,
        GDK_KEY_apostrophe | GDK_KEY_quotedbl => GHOSTTY_KEY_QUOTE,
        GDK_KEY_comma | GDK_KEY_less => GHOSTTY_KEY_COMMA,
        GDK_KEY_period | GDK_KEY_greater => GHOSTTY_KEY_PERIOD,
        GDK_KEY_slash | GDK_KEY_question => GHOSTTY_KEY_SLASH,
        GDK_KEY_grave | GDK_KEY_asciitilde => GHOSTTY_KEY_BACKQUOTE,
        _ => GHOSTTY_KEY_UNIDENTIFIED,
    }
}

// -------------------------------------------------------------------
// Modifier state -> ghostty modifier bits
// -------------------------------------------------------------------

/// The ghostty modifier bits for a GDK modifier state: SHIFT, CTRL, ALT and
/// SUPER each set exactly when the GDK state holds the matching mask.
pub open spec fn mods_for_state(state: u32) -> GhosttyMods {
    ((if state & GDK_SHIFT_MASK != 0 { GHOSTTY_MODS_SHIFT } else { 0 })
        + (if state & GDK_CONTROL_MASK != 0 { GHOSTTY_MODS_CTRL } else { 0 })
        + (if state & GDK_ALT_MASK != 0 { GHOSTTY_MODS_ALT } else { 0 })
        + (if state & GDK_SUPER_MASK != 0 { GHOSTTY_MODS_SUPER } else { 0 })) as GhosttyMods
}

/// Translates a GDK modifier state into ghostty modifier bits.
pub fn ghostty_mods(state: u32) -> (mods: GhosttyMods)
    ensures
        mods == mods_for_state(state),
        (mods & GHOSTTY_MODS_SHIFT != 0) == (state & GDK_SHIFT_MASK != 0),
        (mods & GHOSTTY_MODS_CTRL != 0) == (state & GDK_CONTROL_MASK != 0),
        (mods & GHOSTTY_MODS_ALT != 0) == (state & GDK_ALT_MASK != 0),
        (mods & GHOSTTY_MODS_SUPER != 0) == (state & GDK_SUPER_MASK != 0),
        mods & 0xfff0 == 0,
{
    let a: GhosttyMods = if state & GDK_SHIFT_MASK != 0 { GHOSTTY_MODS_SHIFT } else { 0 };
    let b: GhosttyMods = if state & GDK_CONTROL_MASK != 0 { GHOSTTY_MODS_CTRL } else { 0 };
    let c: GhosttyMods = if state & GDK_ALT_MASK != 0 { GHOSTTY_MODS_ALT } else { 0 };
    let d: GhosttyMods = if state & GDK_SUPER_MASK != 0 { GHOSTTY_MODS_SUPER } else { 0 };
    let mods = a | b | c | d;
    assert((a | b | c | d) == a + b + c + d && ((a | b | c | d) & 1 != 0) == (a == 1) && ((a | b
        | c | d) & 2 != 0) == (b == 2) && ((a | b | c | d) & 4 != 0) == (c == 4) && ((a | b | c
        | d) & 8 != 0) == (d == 8) && (a | b | c | d) & 0xfff0 == 0) by (bit_vector)
        requires
            a == 0 || a == 1,
            b == 0 || b == 2,
            c == 0 || c == 4,
            d == 0 || d == 8,
    ;
    mods
}

// -------------------------------------------------------------------
// Text of a key press
// -------------------------------------------------------------------

/// Whether `c` is a control character (general category Cc: C0 controls and
/// DEL through the C1 controls), as `char::is_control` defines it.
pub open spec fn is_control_char(c: char) -> bool {
    (c as u32) < 0x20 || (0x7f <= (c as u32) && (c as u32) <= 0x9f)
}

/// `char::is_control`.
pub fn is_control(c: char) -> (b: bool)
    ensures
        b == is_control_char(c),
{
    let v = c as u32;
    v < 0x20 || (0x7f <= v && v <= 0x9f)
}

/// The UTF-8 encoding of one character.
pub fn encode_char_utf8(c: char) -> (bytes: Vec<u8>)
    ensures
        bytes@ == vstd::utf8::encode_utf8(seq![c]),
        1 <= bytes@.len() <= 4,
{
    let v = c as u32;
    proof {
        vstd::utf8::char_is_scalar(c);
        assert(seq![c].drop_first() =~= Seq::<char>::empty());
        assert(vstd::utf8::encode_utf8(Seq::<char>::empty()) =~= Seq::<u8>::empty());
        assert(vstd::utf8::encode_utf8(seq![c]) =~= vstd::utf8::encode_scalar(v));
    }
    if v <= 0x7f {
        let mut out: Vec<u8> = Vec::new();
        out.push((v & 0x7F) as u8);
        assert(out@ =~= vstd::utf8::encode_scalar(v));
        out
    } else if v <= 0x7ff {
        let mut out: Vec<u8> = Vec::new();
        out.push(0xC0 | ((v >> 6) & 0x1F) as u8);
        out.push(0x80 | (v & 0x3F) as u8);
        assert(out@ =~= vstd::utf8::encode_scalar(v));
        out
    } else if v <= 0xffff {
        let mut out: Vec<u8> = Vec::new();
        out.push(0xE0 | ((v >> 12) & 0x0F) as u8);
        out.push(0x80 | ((v >> 6) & 0x3F) as u8);
        out.push(0x80 | (v & 0x3F) as u8);
        assert(out@ =~= vstd::utf8::encode_scalar(v));
        out
    } else {
        let mut out: Vec<u8> = Vec::new();
        out.push(0xF0 | ((v >> 18) & 0x7) as u8);
        out.push(0x80 | ((v >> 12) & 0x3F) as u8);
        out.push(0x80 | ((v >> 6) & 0x3F) as u8);
        out.push(0x80 | (v & 0x3F) as u8);
        assert(out@ =~= vstd::utf8::encode_scalar(v));
        out
    }
}

// -------------------------------------------------------------------
// Key events
// -------------------------------------------------------------------

/// The fields that a key press sets on the reused ghostty key event.
/// `utf8` is `None` where the text pointer is set to null.
pub struct KeyPressEvent {
    pub action: GhosttyKeyAction,
    pub key: GhosttyKey,
    pub mods: GhosttyMods,
    pub consumed_mods: GhosttyMods,
    pub composing: bool,
    pub utf8: Option<Vec<u8>>,
    pub unshifted_codepoint: u32,
}

/// The fields that a key release sets on the reused ghostty key event; the
/// text is set to null, the other fields keep what the last press set.
pub struct KeyReleaseEvent {
    pub action: GhosttyKeyAction,
    pub key: GhosttyKey,
    pub mods: GhosttyMods,
}

/// Whether a key press carries text: GDK gave it a character that is not a
/// control character.
pub open spec fn carries_text(unicode: Option<char>) -> bool {
    unicode matches Some(c) && !is_control_char(c)
}

/// The key event for a press of `keyval` under modifier state `state`;
/// `unicode` is the character GDK maps the key value to, if any.
pub fn key_press_event(keyval: u32, state: u32, unicode: Option<char>) -> (e: KeyPressEvent)
    ensures
        e.action == GHOSTTY_KEY_ACTION_PRESS,
        e.key == key_for_keyval(keyval),
        e.mods == mods_for_state(state),
        e.consumed_mods == 0,
        !e.composing,
        carries_text(unicode) ==> (e.utf8 matches Some(b) && b@ == vstd::utf8::encode_utf8(
            seq![unicode->0],
        ) && e.unshifted_codepoint == unicode->0 as u32),
        !carries_text(unicode) ==> e.utf8 is None && e.unshifted_codepoint == 0,
{
    let key = gtk_keyval_to_ghostty_key(keyval);
    let mods = ghostty_mods(state);
    let (utf8, unshifted_codepoint) = match unicode {
        Some(ch) => {
            if !is_control(ch) {
                (Some(encode_char_utf8(ch)), ch as u32)
            } else {
                (None, 0)
            }
        },
        None => (None, 0),
    };
    KeyPressEvent {
        action: GHOSTTY_KEY_ACTION_PRESS,
        key,
        mods,
        consumed_mods: 0,
        composing: false,
        utf8,
        unshifted_codepoint,
    }
}

/// The key event for a release of `keyval` under modifier state `state`.
pub fn key_release_event(keyval: u32, state: u32) -> (e: KeyReleaseEvent)
    ensures
        e.action == GHOSTTY_KEY_ACTION_RELEASE,
        e.key == key_for_keyval(keyval),
        e.mods == mods_for_state(state),
{
    KeyReleaseEvent {
        action: GHOSTTY_KEY_ACTION_RELEASE,
        key: gtk_keyval_to_ghostty_key(keyval),
        mods: ghostty_mods(state),
    }
}

/// Size of the buffer that a key event is encoded into.
pub const KEY_ENCODE_BUF_LEN: usize = 128;

/// What becomes of an encoded key event: the first `n` bytes of the encode
/// buffer go to the PTY and the event stops there, or nothing is sent and
/// the event propagates to other handlers.
#[derive(Clone, Copy, Debug, PartialEq, Eq, Structural)]
pub enum KeyOutcome {
    Send(usize),
    Propagate,
}

/// Decides from the encoder's status and byte count whether the encoding is
/// sent to the PTY. The encoder writes at most the buffer's size.
pub fn key_encode_outcome(res: GhosttyResult, written: usize) -> (o: KeyOutcome)
    requires
        res == GHOSTTY_SUCCESS ==> written <= KEY_ENCODE_BUF_LEN,
    ensures
        o == (if res == GHOSTTY_SUCCESS && written > 0 {
            KeyOutcome::Send(written)
        } else {
            KeyOutcome::Propagate
        }),
{
    if res == GHOSTTY_SUCCESS && written > 0 {
        KeyOutcome::Send(written)
    } else {
        KeyOutcome::Propagate
    }
}

// -------------------------------------------------------------------
// Laws of the key map
// -------------------------------------------------------------------

/// A letter maps to the same physical key in lower and in upper case.
pub proof fn lemma_letter_case_same_key(k: u32)
    requires
        GDK_KEY_a <= k <= GDK_KEY_z,
    ensures
        key_for_keyval(k) == key_for_keyval((k - 0x20) as u32),
        GHOSTTY_KEY_A <= key_for_keyval(k) <= GHOSTTY_KEY_Z,
{
}

/// Distinct letters map to distinct physical keys.
pub proof fn lemma_letters_distinct(k1: u32, k2: u32)
    requires
        GDK_KEY_a <= k1 <= GDK_KEY_z,
        GDK_KEY_a <= k2 <= GDK_KEY_z,
        k1 != k2,
    ensures
        key_for_keyval(k1) != key_for_keyval(k2),
{
}

/// A keypad editing or navigation key maps to the same physical key as its
/// main-block twin.
pub proof fn lemma_keypad_twins()
    ensures
        key_for_keyval(GDK_KEY_KP_Enter) == key_for_keyval(GDK_KEY_Return),
        key_for_keyval(GDK_KEY_KP_Delete) == key_for_keyval(GDK_KEY_Delete),
        key_for_keyval(GDK_KEY_KP_Insert) == key_for_keyval(GDK_KEY_Insert),
        key_for_keyval(GDK_KEY_KP_Home) == key_for_keyval(GDK_KEY_Home),
        key_for_keyval(GDK_KEY_KP_End) == key_for_keyval(GDK_KEY_End),
        key_for_keyval(GDK_KEY_KP_Page_Up) == key_for_keyval(GDK_KEY_Page_Up),
        key_for_keyval(GDK_KEY_KP_Page_Down) == key_for_keyval(GDK_KEY_Page_Down),
        key_for_keyval(GDK_KEY_KP_Up) == key_for_keyval(GDK_KEY_Up),
        key_for_keyval(GDK_KEY_KP_Down) == key_for_keyval(GDK_KEY_Down),
        key_for_keyval(GDK_KEY_KP_Left) == key_for_keyval(GDK_KEY_Left),
        key_for_keyval(GDK_KEY_KP_Right) == key_for_keyval(GDK_KEY_Right),
{
}

/// Every key value maps to a physical key that libghostty-vt defines.
pub proof fn lemma_key_in_range(k: u32)
    ensures
        GHOSTTY_KEY_UNIDENTIFIED <= key_for_keyval(k) <= GHOSTTY_KEY_F12,
{
}

/// The text a key press sends decodes back to the key's character.
pub proof fn lemma_press_text_round_trip(c: char)
    ensures
        vstd::utf8::valid_utf8(vstd::utf8::encode_utf8(seq![c])),
        vstd::utf8::decode_utf8(vstd::utf8::encode_utf8(seq![c])) == seq![c],
{
    vstd::utf8::encode_utf8_valid_utf8(seq![c]);
    vstd::utf8::encode_utf8_decode_utf8(seq![c]);
}

/// Each letter, of either case, maps to the key of that letter: the n-th
/// letter of the alphabet to the n-th letter key.
pub proof fn lemma_letter_keys(k: u32)
    ensures
        GDK_KEY_a <= k <= GDK_KEY_z ==> key_for_keyval(k) == GHOSTTY_KEY_A + (k - GDK_KEY_a),
        GDK_KEY_A <= k <= GDK_KEY_Z ==> key_for_keyval(k) == GHOSTTY_KEY_A + (k - GDK_KEY_A),
        GDK_KEY_0 <= k <= GDK_KEY_9 ==> key_for_keyval(k) == GHOSTTY_KEY_DIGIT_0 + (k - GDK_KEY_0),
        GDK_KEY_F1 <= k <= GDK_KEY_F12 ==> key_for_keyval(k) == GHOSTTY_KEY_F1 + (k - GDK_KEY_F1),
{
}

/// Each shifted digit symbol of a US keyboard maps to its digit key.
pub proof fn lemma_shifted_digit_keys()
    ensures
        key_for_keyval(GDK_KEY_parenright) == GHOSTTY_KEY_DIGIT_0,
        key_for_keyval(GDK_KEY_exclam) == GHOSTTY_KEY_DIGIT_1,
        key_for_keyval(GDK_KEY_at) == GHOSTTY_KEY_DIGIT_2,
        key_for_keyval(GDK_KEY_numbersign) == GHOSTTY_KEY_DIGIT_3,
        key_for_keyval(GDK_KEY_dollar) == GHOSTTY_KEY_DIGIT_4,
        key_for_keyval(GDK_KEY_percent) == GHOSTTY_KEY_DIGIT_5,
        key_for_keyval(GDK_KEY_asciicircum) == GHOSTTY_KEY_DIGIT_6,
        key_for_keyval(GDK_KEY_ampersand) == GHOSTTY_KEY_DIGIT_7,
        key_for_keyval(GDK_KEY_asterisk) == GHOSTTY_KEY_DIGIT_8,
        key_for_keyval(GDK_KEY_parenleft) == GHOSTTY_KEY_DIGIT_9,
{
}

/// Each named editing and navigation key, on the main block and on the
/// keypad, maps to the ghostty key of the same name.
pub proof fn lemma_named_keys()
    ensures
        key_for_keyval(GDK_KEY_space) == GHOSTTY_KEY_SPACE,
        key_for_keyval(GDK_KEY_Return) == GHOSTTY_KEY_ENTER,
        key_for_keyval(GDK_KEY_KP_Enter) == GHOSTTY_KEY_ENTER,
        key_for_keyval(GDK_KEY_Tab) == GHOSTTY_KEY_TAB,
        key_for_keyval(GDK_KEY_ISO_Left_Tab) == GHOSTTY_KEY_TAB,
        key_for_keyval(GDK_KEY_BackSpace) == GHOSTTY_KEY_BACKSPACE,
        key_for_keyval(GDK_KEY_Escape) == GHOSTTY_KEY_ESCAPE,
        key_for_keyval(GDK_KEY_Delete) == GHOSTTY_KEY_DELETE,
        key_for_keyval(GDK_KEY_KP_Delete) == GHOSTTY_KEY_DELETE,
        key_for_keyval(GDK_KEY_Insert) == GHOSTTY_KEY_INSERT,
        key_for_keyval(GDK_KEY_KP_Insert) == GHOSTTY_KEY_INSERT,
        key_for_keyval(GDK_KEY_Home) == GHOSTTY_KEY_HOME,
        key_for_keyval(GDK_KEY_KP_Home) == GHOSTTY_KEY_HOME,
        key_for_keyval(GDK_KEY_End) == GHOSTTY_KEY_END,
        key_for_keyval(GDK_KEY_KP_End) == GHOSTTY_KEY_END,
        key_for_keyval(GDK_KEY_Page_Up) == GHOSTTY_KEY_PAGE_UP,
        key_for_keyval(GDK_KEY_KP_Page_Up) == GHOSTTY_KEY_PAGE_UP,
        key_for_keyval(GDK_KEY_Page_Down) == GHOSTTY_KEY_PAGE_DOWN,
        key_for_keyval(GDK_KEY_KP_Page_Down) == GHOSTTY_KEY_PAGE_DOWN,
        key_for_keyval(GDK_KEY_Up) == GHOSTTY_KEY_ARROW_UP,
        key_for_keyval(GDK_KEY_KP_Up) == GHOSTTY_KEY_ARROW_UP,
        key_for_keyval(GDK_KEY_Down) == GHOSTTY_KEY_ARROW_DOWN,
        key_for_keyval(GDK_KEY_KP_Down) == GHOSTTY_KEY_ARROW_DOWN,
        key_for_keyval(GDK_KEY_Left) == GHOSTTY_KEY_ARROW_LEFT,
        key_for_keyval(GDK_KEY_KP_Left) == GHOSTTY_KEY_ARROW_LEFT,
        key_for_keyval(GDK_KEY_Right) == GHOSTTY_KEY_ARROW_RIGHT,
        key_for_keyval(GDK_KEY_KP_Right) == GHOSTTY_KEY_ARROW_RIGHT,
{
}

/// Each US punctuation symbol, unshifted and shifted, maps to the key that
/// carries it.
pub proof fn lemma_punctuation_keys()
    ensures
        key_for_keyval(GDK_KEY_minus) == GHOSTTY_KEY_MINUS,
        key_for_keyval(GDK_KEY_underscore) == GHOSTTY_KEY_MINUS,
        key_for_keyval(GDK_KEY_equal) == GHOSTTY_KEY_EQUAL,
        key_for_keyval(GDK_KEY_plus) == GHOSTTY_KEY_EQUAL,
        key_for_keyval(GDK_KEY_bracketleft) == GHOSTTY_KEY_BRACKET_LEFT,
        key_for_keyval(GDK_KEY_braceleft) == GHOSTTY_KEY_BRACKET_LEFT,
        key_for_keyval(GDK_KEY_bracketright) == GHOSTTY_KEY_BRACKET_RIGHT,
        key_for_keyval(GDK_KEY_braceright) == GHOSTTY_KEY_BRACKET_RIGHT,
        key_for_keyval(GDK_KEY_backslash) == GHOSTTY_KEY_BACKSLASH,
        key_for_keyval(GDK_KEY_bar) == GHOSTTY_KEY_BACKSLASH,
        key_for_keyval(GDK_KEY_semicolon) == GHOSTTY_KEY_SEMICOLON,
        key_for_keyval(GDK_KEY_colon) == GHOSTTY_KEY_SEMICOLON,
        key_for_keyval(GDK_KEY_apostrophe) == GHOSTTY_KEY_QUOTE,
        key_for_keyval(GDK_KEY_quotedbl) == GHOSTTY_KEY_QUOTE,
        key_for_keyval(GDK_KEY_comma) == GHOSTTY_KEY_COMMA,
        key_for_keyval(GDK_KEY_less) == GHOSTTY_KEY_COMMA,
        key_for_keyval(GDK_KEY_period) == GHOSTTY_KEY_PERIOD,
        key_for_keyval(GDK_KEY_greater) == GHOSTTY_KEY_PERIOD,
        key_for_keyval(GDK_KEY_slash) == GHOSTTY_KEY_SLASH,
        key_for_keyval(GDK_KEY_question) == GHOSTTY_KEY_SLASH,
        key_for_keyval(GDK_KEY_grave) == GHOSTTY_KEY_BACKQUOTE,
        key_for_keyval(GDK_KEY_asciitilde) == GHOSTTY_KEY_BACKQUOTE,
{
}

/// Key values outside the mapped ones have no physical key: ASCII control
/// codes, everything from DEL up to the ISO function keys, and values
/// beyond the 16-bit keysym range.
pub proof fn lemma_unmapped_keys(k: u32)
    ensures
        k < 0x20 ==> key_for_keyval(k) == GHOSTTY_KEY_UNIDENTIFIED,
        0x7f <= k < GDK_KEY_ISO_Left_Tab ==> key_for_keyval(k) == GHOSTTY_KEY_UNIDENTIFIED,
        k > 0xffff ==> key_for_keyval(k) == GHOSTTY_KEY_UNIDENTIFIED,
{
}

/// Each modifier mask sets exactly the matching ghostty modifier bit and
/// no other.
pub proof fn lemma_mods_bits(state: u32)
    ensures
        (mods_for_state(state) & GHOSTTY_MODS_SHIFT != 0) == (state & GDK_SHIFT_MASK != 0),
        (mods_for_state(state) & GHOSTTY_MODS_CTRL != 0) == (state & GDK_CONTROL_MASK != 0),
        (mods_for_state(state) & GHOSTTY_MODS_ALT != 0) == (state & GDK_ALT_MASK != 0),
        (mods_for_state(state) & GHOSTTY_MODS_SUPER != 0) == (state & GDK_SUPER_MASK != 0),
        mods_for_state(state) & 0xfff0 == 0,
{
    let a: u16 = if state & GDK_SHIFT_MASK != 0 { 1 } else { 0 };
    let b: u16 = if state & GDK_CONTROL_MASK != 0 { 2 } else { 0 };
    let c: u16 = if state & GDK_ALT_MASK != 0 { 4 } else { 0 };
    let d: u16 = if state & GDK_SUPER_MASK != 0 { 8 } else { 0 };
    assert(mods_for_state(state) == (a + b + c + d) as u16);
    assert(((a + b + c + d) as u16 & 1 != 0) == (a == 1) && ((a + b + c + d) as u16 & 2 != 0) == (
    b == 2) && ((a + b + c + d) as u16 & 4 != 0) == (c == 4) && ((a + b + c + d) as u16 & 8 != 0)
        == (d == 8) && (a + b + c + d) as u16 & 0xfff0 == 0) by (bit_vector)
        requires
            a == 0 || a == 1,
            b == 0 || b == 2,
            c == 0 || c == 4,
            d == 0 || d == 8,
    ;
}

/// A character is a control character exactly when it lies in the C0 range
/// (below U+0020) or in DEL and the C1 range (U+007F..U+009F); in
/// particular the space is not one.
pub proof fn lemma_control_chars(c: char)
    ensures
        is_control_char(c) <==> ((c as u32) < 0x20 || (0x7f <= (c as u32) && (c as u32) <= 0x9f)),
        !is_control_char(' '),
        !is_control_char('~'),
        !is_control_char('\u{a0}'),
        is_control_char('\u{1f}'),
        is_control_char('\u{7f}'),
        is_control_char('\u{9f}'),
{
}

/// A key press carries text exactly when GDK gives it a character that is
/// not a control character; a printable character (such as the space) is
/// always sent.
pub proof fn lemma_press_text(unicode: Option<char>)
    ensures
        carries_text(unicode) <==> (unicode matches Some(c) && !((c as u32) < 0x20 || (0x7f
            <= (c as u32) && (c as u32) <= 0x9f))),
        carries_text(Some(' ')),
        !carries_text(None),
{
}

/// Only the mapped key values have a physical key: printable ASCII, the
/// editing and navigation keys and their keypad twins, and F1..F12; every
/// other key value is unidentified.
pub proof fn lemma_only_mapped_keys(k: u32)
    ensures
        key_for_keyval(k) != GHOSTTY_KEY_UNIDENTIFIED ==> {
            ||| 0x20 <= k <= 0x7e
            ||| k == GDK_KEY_ISO_Left_Tab
            ||| k == GDK_KEY_BackSpace
            ||| k == GDK_KEY_Tab
            ||| k == GDK_KEY_Return
            ||| k == GDK_KEY_Escape
            ||| 0xff50 <= k <= 0xff57
            ||| k == GDK_KEY_Insert
            ||| k == GDK_KEY_KP_Enter
            ||| (0xff95 <= k <= 0xff9f && k != 0xff9d)
            ||| GDK_KEY_F1 <= k <= GDK_KEY_F12
            ||| k == GDK_KEY_Delete
        },
{
}

} // verus!
