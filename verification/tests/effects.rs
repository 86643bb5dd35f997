use limux::effects::title_from_query;
use limux::ghostty::{GhosttyString, GHOSTTY_NO_VALUE, GHOSTTY_SUCCESS};

#[test]
fn title_is_decoded() {
    let s = GhosttyString { bytes: Some("vim – ü.txt".as_bytes().to_vec()) };
    assert_eq!(title_from_query(GHOSTTY_SUCCESS, &s), Some("vim – ü.txt".to_string()));
}

#[test]
fn missing_or_bad_titles_are_ignored() {
    assert_eq!(title_from_query(GHOSTTY_NO_VALUE, &GhosttyString { bytes: Some(b"x".to_vec()) }), None);
    assert_eq!(title_from_query(GHOSTTY_SUCCESS, &GhosttyString { bytes: None }), None);
    assert_eq!(title_from_query(GHOSTTY_SUCCESS, &GhosttyString { bytes: Some(vec![]) }), None);
    assert_eq!(title_from_query(GHOSTTY_SUCCESS, &GhosttyString { bytes: Some(vec![0xff, 0x41]) }), None);
    assert_eq!(title_from_query(GHOSTTY_SUCCESS, &GhosttyString { bytes: Some(vec![0xed, 0xa0, 0x80]) }), None);
}
