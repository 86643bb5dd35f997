//! Effects that the VT library reports back to the host: a changed title.

use vstd::prelude::*;

use crate::ghostty::{GhosttyResult, GhosttyString, GHOSTTY_SUCCESS};
use crate::strings::str_from_utf8;

verus! {

/// Whether a title query yields a title: it succeeded, and gave a non-null,
/// non-empty string of valid UTF-8.
pub open spec fn yields_title(res: GhosttyResult, title: GhosttyString) -> bool {
    &&& res == GHOSTTY_SUCCESS
    &&& title.bytes matches Some(b)
    &&& b@.len() > 0
    &&& vstd::utf8::valid_utf8(b@)
}

/// The title to report to the host after the terminal signals a title
/// change: the text of the string the title query gave, where the query
/// yields one (`res` is its status).
pub fn title_from_query(res: GhosttyResult, title: &GhosttyString) -> (t: Option<String>)
    ensures
        t is Some <==> yields_title(res, *title),
        t matches Some(s) ==> vstd::utf8::encode_utf8(s@) == title.bytes->0@ && s@
            == vstd::utf8::decode_utf8(title.bytes->0@),
{
    if res != GHOSTTY_SUCCESS {
        return None;
    }
    match &title.bytes {
        None => None,
        Some(bytes) => {
            if bytes.len() == 0 {
                return None;
            }
            match str_from_utf8(bytes.as_slice()) {
                Some(s) => {
                    let owned = s.to_owned();
                    proof {
                        vstd::utf8::encode_utf8_decode_utf8(s@);
                    }
                    Some(owned)
                },
                None => None,
            }
        },
    }
}

/// A title is reported exactly when the query succeeded and gave a
/// non-null, non-empty string of valid UTF-8; a failed query, a null or
/// empty string, or bytes that are not UTF-8 report nothing.
pub proof fn lemma_title_reported(res: GhosttyResult, title: GhosttyString)
    ensures
        yields_title(res, title) <==> (res == GHOSTTY_SUCCESS && title.bytes is Some
            && title.bytes->0@.len() > 0 && vstd::utf8::valid_utf8(title.bytes->0@)),
{
}

} // verus!
