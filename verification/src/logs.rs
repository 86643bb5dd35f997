//! Process setup decisions: the GTK log filter, and appending to a
//! comma-separated environment variable.

use vstd::prelude::*;

use crate::strings::{is_infix_of, str_contains};

verus! {

/// The GLib warning level bit (`G_LOG_LEVEL_WARNING`).
pub const G_LOG_LEVEL_WARNING: u32 = 16;

/// The text of the GTK warnings that are dropped: CSS theme parser errors,
/// which come from missing theme resources and are harmless.
pub open spec fn theme_parser_error() -> Seq<char> {
    "Theme parser error"@
}

/// The line the GTK log filter writes to standard error for a message, or
/// `None` where it drops the message. A missing (null or not UTF-8) message
/// reads as empty and a missing domain as `Gtk`; a message that mentions a
/// theme parser error is dropped; a warning is written as
/// `(domain): WARNING: message`, anything else as `(domain): message`.
pub open spec fn log_line_spec(domain: Option<Seq<char>>, level: u32, message: Option<Seq<char>>) -> Option<
    Seq<char>,
> {
    let msg = match message {
        Some(m) => m,
        None => Seq::empty(),
    };
    let dom = match domain {
        Some(d) => d,
        None => "Gtk"@,
    };
    if is_infix_of(theme_parser_error(), msg) {
        None
    } else if level & G_LOG_LEVEL_WARNING != 0 {
        Some("("@ + dom + "): WARNING: "@ + msg)
    } else {
        Some("("@ + dom + "): "@ + msg)
    }
}

/// The characters of an optional string.
pub open spec fn opt_text(s: Option<&str>) -> Option<Seq<char>> {
    match s {
        Some(t) => Some(t@),
        None => None,
    }
}

/// Filters and formats a GTK log message. `domain` and `message` are
/// `None` where the C side passed a null pointer or text that is not UTF-8.
pub fn gtk_log_line(domain: Option<&str>, level: u32, message: Option<&str>) -> (line: Option<
    String,
>)
    ensures
        line matches Some(l) ==> log_line_spec(
            opt_text(domain),
            level,
            opt_text(message),
        ) == Some(l@),
        line is None <==> log_line_spec(
            opt_text(domain),
            level,
            opt_text(message),
        ) is None,
{
    let msg: &str = match message {
        Some(m) => m,
        None => "",
    };
    proof {
        reveal_strlit("");
        assert(msg@ == (match message {
            Some(m) => m@,
            None => Seq::<char>::empty(),
        }));
    }
    if str_contains(msg, "Theme parser error") {
        return None;
    }
    let dom: &str = match domain {
        Some(d) => d,
        None => "Gtk",
    };
    let mut line = String::from_str("(");
    line.append(dom);
    if level & G_LOG_LEVEL_WARNING != 0 {
        line.append("): WARNING: ");
    } else {
        line.append("): ");
    }
    line.append(msg);
    Some(line)
}

/// The new value of a comma-separated environment variable after `value` is
/// appended: `existing,value` where the variable holds a non-empty value,
/// and `value` alone where it is empty, unset or not Unicode (`existing` is
/// `None`).
pub fn append_env_value(existing: Option<&str>, value: &str) -> (v: String)
    ensures
        v@ == (match existing {
            Some(e) => if e@.len() > 0 {
                e@ + ","@ + value@
            } else {
                value@
            },
            None => value@,
        }),
{
    match existing {
        Some(e) => {
            if e.unicode_len() > 0 {
                let mut v = String::from_str(e);
                v.append(",");
                v.append(value);
                v
            } else {
                String::from_str(value)
            }
        },
        None => String::from_str(value),
    }
}

/// The GTK log filter drops exactly the messages that mention a theme
/// parser error; every other message is written as the domain (or `Gtk`
/// where there is none) in parentheses, a colon and a space, `WARNING: ` for
/// a warning, then the message itself (empty where there is none).
pub proof fn lemma_log_line(domain: Option<Seq<char>>, level: u32, message: Option<Seq<char>>)
    ensures
        ({
            let msg = if message is Some { message->0 } else { Seq::<char>::empty() };
            let dom = if domain is Some { domain->0 } else { "Gtk"@ };
            let line = log_line_spec(domain, level, message);
            &&& line is None <==> is_infix_of("Theme parser error"@, msg)
            &&& line is Some && level & 16 != 0 ==> line->0 == "("@ + dom + "): "@ + "WARNING: "@ + msg
            &&& line is Some && level & 16 == 0 ==> line->0 == "("@ + dom + "): "@ + msg
        }),
{
    reveal_strlit("): WARNING: ");
    reveal_strlit("): ");
    reveal_strlit("WARNING: ");
    let msg = if message is Some { message->0 } else { Seq::<char>::empty() };
    let dom = if domain is Some { domain->0 } else { "Gtk"@ };
    assert("("@ + dom + "): WARNING: "@ + msg =~= "("@ + dom + "): "@ + "WARNING: "@ + msg);
}

} // verus!
