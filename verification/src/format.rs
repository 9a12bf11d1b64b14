//! The line formats and the clock.
//!
//! No format ends its line: whoever writes the line out terminates it.

use vstd::prelude::*;
use flexi_logger::DeferredNow;
use crate::clock::{
    is_timestamp, local_shape, offset_shape, timestamp, timestamp_is_single_line,
};
use crate::json::{json_members, json_text, json_text_is_single_line, render_json};
use crate::lines::{is_single_line, joined_is_single_line};
use crate::paint::{is_painted, paint_is_single_line, painted_level};
use crate::record::{LogRecord, RecordView};
use crate::text::{default_line, render_default, render_text, text_line};

verus! {

/// The line formats that a sink can be given.
#[derive(Clone, Copy, Debug, PartialEq, Eq, Structural)]
pub enum LogFormat {
    /// The logging facility's own line, `<LEVEL> [<logger>] <message>`, which
    /// a sink has until another format is installed.
    Default,
    /// The JSON object that go-log writes.
    Json,
    /// The text line with its level painted by severity.
    Color,
    /// The text line without paint.
    Plain,
}

/// Whether `ts` is a timestamp with milliseconds and the offset from UTC,
/// such as `2019-11-11T21:06:45.401+01:00`.
pub open spec fn is_offset_timestamp(ts: Seq<char>) -> bool {
    is_timestamp(ts, offset_shape())
}

/// Whether `ts` is a timestamp with milliseconds and without an offset, such
/// as `2019-11-11T21:04:25.685`.
pub open spec fn is_local_timestamp(ts: Seq<char>) -> bool {
    is_timestamp(ts, local_shape())
}

/// Whether `line` is the JSON line of `record` for some timestamp.
pub open spec fn is_json_line(line: Seq<char>, record: RecordView) -> bool {
    exists|ts: Seq<char>| is_offset_timestamp(ts) && line == #[trigger] json_text(ts, record)
}

/// Whether `line` is the text line of `record` for some timestamp, with the
/// upper-case level name as its level token.
pub open spec fn is_plain_line(line: Seq<char>, record: RecordView) -> bool {
    exists|ts: Seq<char>|
        is_local_timestamp(ts) && line == #[trigger] text_line(
            ts,
            record.level.upper_name(),
            record,
        )
}

/// Whether `line` is the text line of `record` for some timestamp, with the
/// upper-case level name in some terminal style as its level token.
pub open spec fn is_color_line(line: Seq<char>, record: RecordView) -> bool {
    exists|ts: Seq<char>, token: Seq<char>|
        is_local_timestamp(ts) && is_painted(token, record.level.upper_name()) && line
            == #[trigger] text_line(ts, token, record)
}

impl LogFormat {
    /// The line of `record` in this format, given the timestamp and the
    /// painted level token that the formats take from outside.  A format uses
    /// of the two only what it shows.
    pub open spec fn line(self, ts: Seq<char>, token: Seq<char>, record: RecordView) -> Seq<char> {
        match self {
            LogFormat::Default => default_line(record),
            LogFormat::Json => json_text(ts, record),
            LogFormat::Color => text_line(ts, token, record),
            LogFormat::Plain => text_line(ts, record.level.upper_name(), record),
        }
    }

    /// Whether `ts` is a timestamp as this format shows it.
    pub open spec fn stamps(self, ts: Seq<char>) -> bool {
        match self {
            LogFormat::Default => true,
            LogFormat::Json => is_offset_timestamp(ts),
            LogFormat::Color => is_local_timestamp(ts),
            LogFormat::Plain => is_local_timestamp(ts),
        }
    }

    /// Whether `line` is `record` rendered in this format, whatever the clock
    /// showed and however the terminal style was set.
    pub open spec fn renders(self, line: Seq<char>, record: RecordView) -> bool {
        match self {
            LogFormat::Default => line == default_line(record),
            LogFormat::Json => is_json_line(line, record),
            LogFormat::Color => is_color_line(line, record),
            LogFormat::Plain => is_plain_line(line, record),
        }
    }

    /// Whether this format renders `record` on one line: none of the texts
    /// that the format takes from the record holds a line break.
    pub open spec fn fits_one_line(self, record: RecordView) -> bool {
        &&& record.module matches Some(path) ==> is_single_line(path)
        &&& is_single_line(record.message)
        &&& self == LogFormat::Json ==> (record.file matches Some(name) ==> is_single_line(name))
    }

    /// Formatting is repeatable.  A line is a function of the format, the
    /// record, the timestamp and the level token: two renderings of one
    /// record from the same timestamp and token are the same text, character
    /// for character, and each is a rendering of the record.
    pub proof fn rendering_is_repeatable(
        self,
        ts: Seq<char>,
        token: Seq<char>,
        record: RecordView,
        first: Seq<char>,
        second: Seq<char>,
    )
        requires
            self.stamps(ts),
            is_painted(token, record.level.upper_name()),
            first == self.line(ts, token, record),
            second == self.line(ts, token, record),
        ensures
            first == second,
            self.renders(first, record),
    {
    }

    /// Placeholders are put in once.  A record whose missing values were
    /// replaced by their placeholders is left as it is by a second
    /// replacement, and it renders to the same lines as the record it was
    /// made from.
    pub proof fn placeholders_are_put_in_once(
        self,
        ts: Seq<char>,
        token: Seq<char>,
        record: RecordView,
    )
        ensures
            record.filled().filled() == record.filled(),
            self.line(ts, token, record.filled()) == self.line(ts, token, record),
            forall|line: Seq<char>|
                self.renders(line, record.filled()) <==> #[trigger] self.renders(line, record),
    {
        let filled = record.filled();
        assert forall|stamp: Seq<char>| #[trigger]
            json_text(stamp, filled) == json_text(stamp, record) by {
            assert(json_members(stamp, filled) =~= json_members(stamp, record));
        }
        assert forall|line: Seq<char>| self.renders(line, filled) implies self.renders(
            line,
            record,
        ) by {
            match self {
                LogFormat::Default => {},
                LogFormat::Json => {
                    let stamp = choose|stamp: Seq<char>|
                        is_offset_timestamp(stamp) && line == #[trigger] json_text(stamp, filled);
                    assert(line == json_text(stamp, record));
                },
                LogFormat::Color => {
                    let (stamp, level) = choose|stamp: Seq<char>, level: Seq<char>|
                        is_local_timestamp(stamp) && is_painted(level, filled.level.upper_name())
                            && line == #[trigger] text_line(stamp, level, filled);
                    assert(line == text_line(stamp, level, record));
                },
                LogFormat::Plain => {
                    let stamp = choose|stamp: Seq<char>|
                        is_local_timestamp(stamp) && line == #[trigger] text_line(
                            stamp,
                            filled.level.upper_name(),
                            filled,
                        );
                    assert(line == text_line(stamp, record.level.upper_name(), record));
                },
            }
        }
        assert forall|line: Seq<char>| self.renders(line, record) implies self.renders(
            line,
            filled,
        ) by {
            match self {
                LogFormat::Default => {},
                LogFormat::Json => {
                    let stamp = choose|stamp: Seq<char>|
                        is_offset_timestamp(stamp) && line == #[trigger] json_text(stamp, record);
                    assert(line == json_text(stamp, filled));
                },
                LogFormat::Color => {
                    let (stamp, level) = choose|stamp: Seq<char>, level: Seq<char>|
                        is_local_timestamp(stamp) && is_painted(level, record.level.upper_name())
                            && line == #[trigger] text_line(stamp, level, record);
                    assert(line == text_line(stamp, level, filled));
                },
                LogFormat::Plain => {
                    let stamp = choose|stamp: Seq<char>|
                        is_local_timestamp(stamp) && line == #[trigger] text_line(
                            stamp,
                            record.level.upper_name(),
                            record,
                        );
                    assert(line == text_line(stamp, filled.level.upper_name(), filled));
                },
            }
        }
    }

    /// A rendering holds a line break only where the record's own texts hold
    /// one: timestamps, level names, paint and punctuation never do.
    pub proof fn rendering_is_single_line(self, line: Seq<char>, record: RecordView)
        requires
            self.renders(line, record),
            self.fits_one_line(record),
        ensures
            is_single_line(line),
    {
        assert forall|front: Seq<char>, back: Seq<char>|
            is_single_line(front) && is_single_line(back) implies is_single_line(
            #[trigger] (front + back),
        ) by {
            joined_is_single_line(front, back);
        }
        reveal_strlit(" ");
        reveal_strlit(" > ");
        reveal_strlit(" [");
        reveal_strlit("] ");
        reveal_strlit("<unnamed>");
        let name = record.level.upper_name();
        assert(is_single_line(name));
        assert(is_single_line(record.logger()));
        match self {
            LogFormat::Default => {},
            LogFormat::Json => {
                let ts = choose|ts: Seq<char>|
                    is_offset_timestamp(ts) && line == #[trigger] json_text(ts, record);
                timestamp_is_single_line(ts, offset_shape());
                assert(is_single_line(record.source_file()));
                json_text_is_single_line(ts, record);
            },
            LogFormat::Color => {
                let (ts, token) = choose|ts: Seq<char>, token: Seq<char>|
                    is_local_timestamp(ts) && is_painted(token, name) && line == #[trigger] text_line(
                        ts,
                        token,
                        record,
                    );
                timestamp_is_single_line(ts, local_shape());
                paint_is_single_line(token, name);
            },
            LogFormat::Plain => {
                let ts = choose|ts: Seq<char>|
                    is_local_timestamp(ts) && line == #[trigger] text_line(ts, name, record);
                timestamp_is_single_line(ts, local_shape());
            },
        }
    }

    /// Renders `record` in this format, stamped with the time that `now`
    /// holds where the format shows one.
    pub fn render(self, now: &mut DeferredNow, record: &LogRecord) -> (line: String)
        ensures
            self.renders(line@, record@),
    {
        match self {
            LogFormat::Default => render_default(record),
            LogFormat::Json => go_log_json_format(now, record),
            LogFormat::Color => color_logger_format(now, record),
            LogFormat::Plain => nocolor_logger_format(now, record),
        }
    }
}

/// Renders `record` as a JSON line in the shape that go-log writes, stamped
/// with the time that `now` holds, milliseconds and offset from UTC included.
pub fn go_log_json_format(now: &mut DeferredNow, record: &LogRecord) -> (line: String)
    ensures
        is_json_line(line@, record@),
{
    let ts = timestamp(now, "%Y-%m-%dT%H:%M:%S%.3f%:z");
    render_json(ts.as_str(), record)
}

/// Renders `record` as a text line whose level is painted by severity,
/// stamped with the time that `now` holds, milliseconds included.
pub fn color_logger_format(now: &mut DeferredNow, record: &LogRecord) -> (line: String)
    ensures
        is_color_line(line@, record@),
{
    let ts = timestamp(now, "%Y-%m-%dT%H:%M:%S%.3f");
    let token = painted_level(record.level);
    render_text(ts.as_str(), token.as_str(), record)
}

/// Renders `record` as a text line without paint, stamped with the time that
/// `now` holds, milliseconds included.
pub fn nocolor_logger_format(now: &mut DeferredNow, record: &LogRecord) -> (line: String)
    ensures
        is_plain_line(line@, record@),
{
    let ts = timestamp(now, "%Y-%m-%dT%H:%M:%S%.3f");
    render_text(ts.as_str(), record.level.as_upper_str(), record)
}

} // verus!
