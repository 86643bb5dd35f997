use limux::ghostty::{
    GHOSTTY_KEY_A, GHOSTTY_KEY_ACTION_PRESS, GHOSTTY_KEY_ACTION_RELEASE, GHOSTTY_KEY_ARROW_UP,
    GHOSTTY_KEY_BACKQUOTE, GHOSTTY_KEY_DIGIT_0, GHOSTTY_KEY_DIGIT_9, GHOSTTY_KEY_ENTER,
    GHOSTTY_KEY_F12, GHOSTTY_KEY_F5, GHOSTTY_KEY_SLASH, GHOSTTY_KEY_TAB, GHOSTTY_KEY_UNIDENTIFIED,
    GHOSTTY_KEY_Z, GHOSTTY_MODS_ALT, GHOSTTY_MODS_CTRL, GHOSTTY_MODS_SHIFT, GHOSTTY_MODS_SUPER,
    GHOSTTY_SUCCESS,
};
use limux::keys::{
    encode_char_utf8, ghostty_mods, gtk_keyval_to_ghostty_key, is_control, key_encode_outcome,
    key_press_event, key_release_event, KeyOutcome, GDK_ALT_MASK, GDK_CONTROL_MASK,
    GDK_KEY_ISO_Left_Tab, GDK_KEY_KP_Enter, GDK_KEY_KP_Up, GDK_KEY_Return, GDK_SHIFT_MASK,
    GDK_SUPER_MASK,
};

#[test]
fn letters_map_case_insensitively() {
    assert_eq!(gtk_keyval_to_ghostty_key('a' as u32), GHOSTTY_KEY_A);
    assert_eq!(gtk_keyval_to_ghostty_key('A' as u32), GHOSTTY_KEY_A);
    assert_eq!(gtk_keyval_to_ghostty_key('z' as u32), GHOSTTY_KEY_Z);
    assert_eq!(gtk_keyval_to_ghostty_key('Z' as u32), GHOSTTY_KEY_Z);
}

#[test]
fn shifted_symbols_map_to_their_key() {
    assert_eq!(gtk_keyval_to_ghostty_key(')' as u32), GHOSTTY_KEY_DIGIT_0);
    assert_eq!(gtk_keyval_to_ghostty_key('0' as u32), GHOSTTY_KEY_DIGIT_0);
    assert_eq!(gtk_keyval_to_ghostty_key('(' as u32), GHOSTTY_KEY_DIGIT_9);
    assert_eq!(gtk_keyval_to_ghostty_key('?' as u32), GHOSTTY_KEY_SLASH);
    assert_eq!(gtk_keyval_to_ghostty_key('~' as u32), GHOSTTY_KEY_BACKQUOTE);
}

#[test]
fn named_and_keypad_keys() {
    assert_eq!(gtk_keyval_to_ghostty_key(GDK_KEY_Return), GHOSTTY_KEY_ENTER);
    assert_eq!(gtk_keyval_to_ghostty_key(GDK_KEY_KP_Enter), GHOSTTY_KEY_ENTER);
    assert_eq!(gtk_keyval_to_ghostty_key(GDK_KEY_ISO_Left_Tab), GHOSTTY_KEY_TAB);
    assert_eq!(gtk_keyval_to_ghostty_key(GDK_KEY_KP_Up), GHOSTTY_KEY_ARROW_UP);
    assert_eq!(gtk_keyval_to_ghostty_key(0xffc2), GHOSTTY_KEY_F5);
    assert_eq!(gtk_keyval_to_ghostty_key(0xffc9), GHOSTTY_KEY_F12);
    assert_eq!(gtk_keyval_to_ghostty_key(0xffca), GHOSTTY_KEY_UNIDENTIFIED);
    assert_eq!(gtk_keyval_to_ghostty_key(0x1234), GHOSTTY_KEY_UNIDENTIFIED);
}

#[test]
fn modifier_bits() {
    assert_eq!(ghostty_mods(0), 0);
    assert_eq!(ghostty_mods(GDK_SHIFT_MASK | GDK_CONTROL_MASK), GHOSTTY_MODS_SHIFT | GHOSTTY_MODS_CTRL);
    assert_eq!(ghostty_mods(GDK_ALT_MASK | GDK_SUPER_MASK), GHOSTTY_MODS_ALT | GHOSTTY_MODS_SUPER);
    assert_eq!(ghostty_mods(0x2 | 0x10 | 0x100), 0);
    assert_eq!(ghostty_mods(u32::MAX), 0xf);
}

#[test]
fn control_characters() {
    assert!(is_control('\u{8}'));
    assert!(is_control('\u{7f}'));
    assert!(is_control('\u{9f}'));
    assert!(!is_control('a'));
    assert!(!is_control('\u{a0}'));
}

#[test]
fn utf8_encoding_of_one_char() {
    assert_eq!(encode_char_utf8('a'), vec![0x61]);
    assert_eq!(encode_char_utf8('é'), vec![0xc3, 0xa9]);
    assert_eq!(encode_char_utf8('€'), vec![0xe2, 0x82, 0xac]);
    assert_eq!(encode_char_utf8('😀'), vec![0xf0, 0x9f, 0x98, 0x80]);
    for c in ['x', 'ß', '中', '🦀', '\u{10ffff}'] {
        let mut buf = [0u8; 4];
        assert_eq!(encode_char_utf8(c), c.encode_utf8(&mut buf).as_bytes().to_vec());
    }
}

#[test]
fn press_event_carries_text() {
    let e = key_press_event('a' as u32, GDK_SHIFT_MASK, Some('A'));
    assert_eq!(e.action, GHOSTTY_KEY_ACTION_PRESS);
    assert_eq!(e.key, GHOSTTY_KEY_A);
    assert_eq!(e.mods, GHOSTTY_MODS_SHIFT);
    assert_eq!(e.consumed_mods, 0);
    assert!(!e.composing);
    assert_eq!(e.utf8, Some(vec![0x41]));
    assert_eq!(e.unshifted_codepoint, 0x41);
}

#[test]
fn press_event_without_text() {
    let e = key_press_event(GDK_KEY_Return, 0, Some('\r'));
    assert_eq!(e.key, GHOSTTY_KEY_ENTER);
    assert_eq!(e.utf8, None);
    assert_eq!(e.unshifted_codepoint, 0);
    let e = key_press_event(0xffc2, GDK_CONTROL_MASK, None);
    assert_eq!(e.key, GHOSTTY_KEY_F5);
    assert_eq!(e.mods, GHOSTTY_MODS_CTRL);
    assert_eq!(e.utf8, None);
}

#[test]
fn release_event() {
    let e = key_release_event('z' as u32, GDK_ALT_MASK);
    assert_eq!(e.action, GHOSTTY_KEY_ACTION_RELEASE);
    assert_eq!(e.key, GHOSTTY_KEY_Z);
    assert_eq!(e.mods, GHOSTTY_MODS_ALT);
}

#[test]
fn encoded_key_is_sent_only_on_success() {
    assert_eq!(key_encode_outcome(GHOSTTY_SUCCESS, 3), KeyOutcome::Send(3));
    assert_eq!(key_encode_outcome(GHOSTTY_SUCCESS, 0), KeyOutcome::Propagate);
    assert_eq!(key_encode_outcome(-3, 200), KeyOutcome::Propagate);
}
