//! The timestamp of a record, taken from the logging facility's clock.

use vstd::prelude::*;
use flexi_logger::DeferredNow;
use crate::decimal::is_digit;
use crate::lines::{is_single_line, joined_is_single_line};

verus! {

/// The facility's lazily taken timestamp; opaque here.
#[verifier::external_type_specification]
#[verifier::external_body]
pub struct ExDeferredNow(flexi_logger::DeferredNow);

/// Date and time with milliseconds and the offset from UTC as `+HH:MM`.
pub open spec fn offset_pattern() -> Seq<char> {
    "%Y-%m-%dT%H:%M:%S%.3f%:z"@
}

/// Date and time with milliseconds, without an offset.
pub open spec fn local_pattern() -> Seq<char> {
    "%Y-%m-%dT%H:%M:%S%.3f"@
}

/// What follows the year in a timestamp with an offset, with `d` for a digit
/// and `s` for a sign.
pub open spec fn offset_shape() -> Seq<char> {
    "-dd-ddTdd:dd:dd.dddsdd:dd"@
}

/// What follows the year in a timestamp without an offset, with `d` for a
/// digit.
pub open spec fn local_shape() -> Seq<char> {
    "-dd-ddTdd:dd:dd.ddd"@
}

/// A plus or a minus sign.
pub open spec fn is_sign(c: char) -> bool {
    c == '+' || c == '-'
}

/// Whether `text` is a year as timestamps show it: four digits, or a sign
/// and at least four digits for a year before 0 or after 9999.
pub open spec fn is_year(text: Seq<char>) -> bool {
    ||| text.len() == 4 && forall|i: int| 0 <= i < text.len() ==> is_digit(#[trigger] text[i])
    ||| text.len() >= 5 && is_sign(text[0]) && forall|i: int|
        1 <= i < text.len() ==> is_digit(#[trigger] text[i])
}

/// Whether `text` fills `shape`: it is as long, has a digit where the shape
/// has `d`, a sign where it has `s`, and the shape's own character elsewhere.
pub open spec fn has_shape(text: Seq<char>, shape: Seq<char>) -> bool {
    &&& text.len() == shape.len()
    &&& forall|i: int|
        0 <= i < shape.len() ==> if shape[i] == 'd' {
            is_digit(#[trigger] text[i])
        } else if shape[i] == 's' {
            is_sign(text[i])
        } else {
            text[i] == shape[i]
        }
}

/// Whether `text` is a timestamp: a year followed by the rest in the given
/// shape.
pub open spec fn is_timestamp(text: Seq<char>, shape: Seq<char>) -> bool {
    exists|year: Seq<char>, rest: Seq<char>|
        #![trigger year + rest]
        is_year(year) && has_shape(rest, shape) && text == year + rest
}

/// A timestamp holds no line break.
pub proof fn timestamp_is_single_line(text: Seq<char>, shape: Seq<char>)
    requires
        is_timestamp(text, shape),
        shape == offset_shape() || shape == local_shape(),
    ensures
        is_single_line(text),
{
    reveal_strlit("-dd-ddTdd:dd:dd.dddsdd:dd");
    reveal_strlit("-dd-ddTdd:dd:dd.ddd");
    let (year, rest) = choose|year: Seq<char>, rest: Seq<char>|
        #![trigger year + rest]
        is_year(year) && has_shape(rest, shape) && text == year + rest;
    assert(is_single_line(year));
    assert forall|i: int| 0 <= i < rest.len() implies #[trigger] rest[i] != '\n' by {
        assert(shape[i] != '\n');
    }
    joined_is_single_line(year, rest);
}

/// Calls `DeferredNow::now` of flexi_logger and renders the instant with
/// chrono's `format`.  The instant is read from the clock on the first call
/// on `now`, so nothing is claimed of the time shown.  What is claimed is the
/// shape that chrono documents for the specifiers of the two patterns
/// admitted here: the year in four digits, signed and longer if it lies
/// outside 0 to 9999; month, day, hour, minute and second in two digits each;
/// three digits of milliseconds after a dot; and, under the pattern with an
/// offset, a sign with hours and minutes in two digits each.  Other patterns
/// are left out because chrono's rendering panics on an invalid one.
#[verifier::external_body]
pub(crate) fn timestamp(now: &mut DeferredNow, pattern: &str) -> (text: String)
    requires
        pattern@ == offset_pattern() || pattern@ == local_pattern(),
    ensures
        pattern@ == offset_pattern() ==> is_timestamp(text@, offset_shape()),
        pattern@ == local_pattern() ==> is_timestamp(text@, local_shape()),
{
    now.now().format(pattern).to_string()
}

} // verus!
