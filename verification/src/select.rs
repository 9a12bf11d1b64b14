//! Which format a process logs in.

use vstd::prelude::*;
use crate::format::LogFormat;
use crate::record::held;

verus! {

/// The value of the format variable that asks for JSON.
pub open spec fn json_choice() -> Seq<char> {
    "json"@
}

/// The format that follows from the value of the format variable, if it is
/// set, and from whether the error stream is a terminal: JSON for exactly
/// `json`; otherwise the text line, painted on a terminal and plain elsewhere.
pub open spec fn selected(value: Option<Seq<char>>, stderr_is_terminal: bool) -> LogFormat {
    if value == Some(json_choice()) {
        LogFormat::Json
    } else if stderr_is_terminal {
        LogFormat::Color
    } else {
        LogFormat::Plain
    }
}

/// Calls `atty::is` for the error stream, which asks the operating system
/// whether that stream is a terminal.  The answer belongs to the process, so
/// nothing is claimed of it.
#[verifier::external_body]
pub(crate) fn stderr_is_terminal() -> (terminal: bool) {
    atty::is(atty::Stream::Stderr)
}

/// The name of the environment variable that selects the format.
pub fn format_variable() -> (name: &'static str)
    ensures
        name@ == "GOLOG_LOG_FMT"@,
{
    "GOLOG_LOG_FMT"
}

/// Tells whether the value of the format variable asks for JSON: it does if
/// it is set to exactly `json`, in lower case and with nothing around it.
pub fn asks_for_json(value: Option<&str>) -> (json: bool)
    ensures
        json == (held(value) == Some(json_choice())),
{
    match value {
        Some(text) => {
            let given = String::from_str(text);
            let wanted = String::from_str("json");
            given == wanted
        },
        None => false,
    }
}

/// Selects the format from the value of the format variable and from whether
/// the error stream is a terminal.
pub fn select_format(value: Option<&str>, stderr_is_terminal: bool) -> (format: LogFormat)
    ensures
        format == selected(held(value), stderr_is_terminal),
{
    if asks_for_json(value) {
        LogFormat::Json
    } else if stderr_is_terminal {
        LogFormat::Color
    } else {
        LogFormat::Plain
    }
}

/// Selects the format of this process from the value of the format variable.
/// The error stream is asked whether it is a terminal only where the value
/// does not ask for JSON.
pub fn log_format(value: Option<&str>) -> (format: LogFormat)
    ensures
        held(value) == Some(json_choice()) ==> format == LogFormat::Json,
        held(value) != Some(json_choice()) ==> format == LogFormat::Color || format
            == LogFormat::Plain,
        exists|terminal: bool| format == #[trigger] selected(held(value), terminal),
{
    if asks_for_json(value) {
        LogFormat::Json
    } else {
        let terminal = stderr_is_terminal();
        let format = select_format(value, terminal);
        assert(format == selected(held(value), terminal));
        format
    }
}

/// Selection depends on the value only through whether it is exactly `json`:
/// that value gives JSON on a terminal and off it, and any two other values,
/// or none, give the same text format, painted exactly on a terminal.
pub proof fn selection_is_determined(
    value: Option<Seq<char>>,
    other: Option<Seq<char>>,
    stderr_is_terminal: bool,
)
    ensures
        value == Some(json_choice()) ==> selected(value, stderr_is_terminal) == LogFormat::Json,
        value != Some(json_choice()) ==> selected(value, stderr_is_terminal) == (if stderr_is_terminal {
            LogFormat::Color
        } else {
            LogFormat::Plain
        }),
        value != Some(json_choice()) && other != Some(json_choice()) ==> selected(
            value,
            stderr_is_terminal,
        ) == selected(other, stderr_is_terminal),
{
}

} // verus!
