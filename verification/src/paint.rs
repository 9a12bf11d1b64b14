//! The level token of the coloured text line.

use vstd::prelude::*;
use crate::level::Level;
use crate::lines::{is_single_line, joined_is_single_line};

verus! {

/// A character of the parameters of an ANSI colour sequence: a digit or `;`.
pub open spec fn is_paint_code(c: char) -> bool {
    ('0' <= c && c <= '9') || c == ';'
}

/// `text` between the ANSI sequence that switches the given attributes on and
/// the sequence that resets them.
pub open spec fn wrapped(codes: Seq<char>, text: Seq<char>) -> Seq<char> {
    seq!['\x1b', '['] + codes + seq!['m'] + text + seq!['\x1b', '[', '0', 'm']
}

/// Whether `token` is `text` as a terminal shows it in some style: either
/// `text` itself, where the style is plain or painting is switched off, or
/// `text` wrapped in ANSI sequences.
pub open spec fn is_painted(token: Seq<char>, text: Seq<char>) -> bool {
    token == text || exists|codes: Seq<char>|
        #![trigger wrapped(codes, text)]
        (forall|i: int| 0 <= i < codes.len() ==> is_paint_code(#[trigger] codes[i])) && token
            == wrapped(codes, text)
}

/// Paint adds no line break to a text.
pub proof fn paint_is_single_line(token: Seq<char>, text: Seq<char>)
    requires
        is_painted(token, text),
        is_single_line(text),
    ensures
        is_single_line(token),
{
    if token != text {
        let codes = choose|codes: Seq<char>|
            #![trigger wrapped(codes, text)]
            (forall|i: int| 0 <= i < codes.len() ==> is_paint_code(#[trigger] codes[i])) && token
                == wrapped(codes, text);
        let start = seq!['\x1b', '['];
        let reset = seq!['\x1b', '[', '0', 'm'];
        assert(is_single_line(codes));
        assert(is_single_line(start));
        assert(is_single_line(seq!['m']));
        assert(is_single_line(reset));
        joined_is_single_line(start, codes);
        joined_is_single_line(start + codes, seq!['m']);
        joined_is_single_line(start + codes + seq!['m'], text);
        joined_is_single_line(start + codes + seq!['m'] + text, reset);
    }
}

/// Calls `flexi_logger::style` with the severity as level and as item, and
/// writes the painted item out.  The style comes from the facility's palette,
/// which the process can change, and yansi paints only while painting is
/// switched on, so the token is not a function of the severity.  What holds
/// in every case, by yansi's `Display` for `Paint` and log's for `Level`: the
/// token is the upper-case name, bare or between an ANSI start sequence made
/// of digits and `;` and the reset sequence.
#[verifier::external_body]
pub(crate) fn painted_level(level: Level) -> (token: String)
    ensures
        is_painted(token@, level.upper_name()),
{
    let severity = match level {
        Level::Error => log::Level::Error,
        Level::Warn => log::Level::Warn,
        Level::Info => log::Level::Info,
        Level::Debug => log::Level::Debug,
        Level::Trace => log::Level::Trace,
    };
    flexi_logger::style(severity, severity).to_string()
}

} // verus!
