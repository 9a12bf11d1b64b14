//! The text lines.

use vstd::prelude::*;
use crate::record::{LogRecord, RecordView};

verus! {

/// The text line of a record stamped `ts`, with `level` as its level token:
/// `<ts> <level> <logger> > <message>`.
pub open spec fn text_line(ts: Seq<char>, level: Seq<char>, record: RecordView) -> Seq<char> {
    ts + " "@ + level + " "@ + record.logger() + " > "@ + record.message
}

/// The facility's default line: `<LEVEL> [<logger>] <message>`, without a
/// timestamp.
pub open spec fn default_line(record: RecordView) -> Seq<char> {
    record.level.upper_name() + " ["@ + record.logger() + "] "@ + record.message
}

/// Renders `record`, stamped `ts`, as a text line with `level` as its level
/// token.
pub fn render_text(ts: &str, level: &str, record: &LogRecord) -> (line: String)
    ensures
        line@ == text_line(ts@, level@, record@),
{
    let mut line = String::from_str(ts);
    line.append(" ");
    line.append(level);
    line.append(" ");
    line.append(record.logger());
    line.append(" > ");
    line.append(record.message.as_str());
    assert(line@ =~= text_line(ts@, level@, record@));
    line
}

/// Renders `record` as the facility's default line, which is what
/// flexi_logger's `default_format` writes for the same record: the level in
/// upper case, the logger in square brackets, the message.
pub fn render_default(record: &LogRecord) -> (line: String)
    ensures
        line@ == default_line(record@),
{
    let mut line = String::from_str(record.level.as_upper_str());
    line.append(" [");
    line.append(record.logger());
    line.append("] ");
    line.append(record.message.as_str());
    assert(line@ =~= default_line(record@));
    line
}

} // verus!
