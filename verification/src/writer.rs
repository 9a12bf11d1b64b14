//! The rendering half of a sink that appends to one open file.

use vstd::prelude::*;
use flexi_logger::DeferredNow;
use crate::format::LogFormat;
use crate::level::{Level, LevelFilter};
use crate::lines::{appended, is_single_line, lines_of, terminated, written, written_lines_come_back};
use crate::record::{LogRecord, RecordView};

verus! {

/// Decides what is appended to the file for each record: the record rendered
/// in the installed format, then a line break.  The file itself, and the lock
/// that lets one writer at a time append to it, are the caller's.
#[derive(Debug)]
pub struct SingleFileWriter {
    format: LogFormat,
}

impl View for SingleFileWriter {
    type V = LogFormat;

    /// The installed format.
    closed spec fn view(&self) -> LogFormat {
        self.format
    }
}

/// Whether `entry` is what a writer with the given format appends for
/// `record`: one rendering of the record, followed by a line break.
pub open spec fn is_entry(format: LogFormat, entry: Seq<char>, record: RecordView) -> bool {
    exists|line: Seq<char>| #[trigger] format.renders(line, record) && entry == terminated(line)
}

impl SingleFileWriter {
    /// A writer with the facility's default format installed.
    pub fn new() -> (writer: Self)
        ensures
            writer@ == LogFormat::Default,
    {
        SingleFileWriter { format: LogFormat::Default }
    }

    /// Installs `format` in place of the format that the writer had.
    pub fn format(&mut self, format: LogFormat)
        ensures
            final(self)@ == format,
    {
        self.format = format;
    }

    /// The installed format.
    pub fn installed(&self) -> (format: LogFormat)
        ensures
            format == self@,
    {
        self.format
    }

    /// What is to be appended to the file for `record`: the record rendered
    /// in the installed format, followed by a line break.
    pub fn write(&self, now: &mut DeferredNow, record: &LogRecord) -> (entry: String)
        ensures
            is_entry(self@, entry@, record@),
    {
        let mut entry = self.format.render(now, record);
        let ghost line = entry@;
        entry.append(line_end());
        assert(entry@ =~= terminated(line));
        assert(self@.renders(line, record@));
        entry
    }

    /// The least severe level that the writer takes: all of them, down to
    /// `Trace`.  Filtering by severity is left to the logging facility.
    pub fn max_log_level(&self) -> (filter: LevelFilter)
        ensures
            filter == LevelFilter::Trace,
            forall|level: Level| filter.admits(level),
    {
        LevelFilter::Trace
    }
}

/// The line break that ends every entry.
pub fn line_end() -> (end: &'static str)
    ensures
        end@ == seq!['\n'],
{
    proof {
        reveal_strlit("\n");
    }
    let end = "\n";
    assert(end@ =~= seq!['\n']);
    end
}

/// What the writers' entries add up to in the file.  Let each of a run of
/// records be written once, in order, each in a format that renders it on
/// one line.  Then the file holds exactly one line for each record, in that
/// order, each a rendering of its record and each ended by a line break.
pub proof fn writes_make_lines(
    formats: Seq<LogFormat>,
    records: Seq<RecordView>,
    entries: Seq<Seq<char>>,
)
    requires
        formats.len() == records.len(),
        entries.len() == records.len(),
        forall|i: int|
            0 <= i < records.len() ==> is_entry(#[trigger] formats[i], entries[i], records[i]),
        forall|i: int| 0 <= i < records.len() ==> (#[trigger] formats[i]).fits_one_line(records[i]),
    ensures
        lines_of(appended(entries)).len() == records.len(),
        forall|i: int|
            0 <= i < records.len() ==> (#[trigger] formats[i]).renders(
                lines_of(appended(entries))[i],
                records[i],
            ),
        forall|i: int|
            0 <= i < records.len() ==> (#[trigger] entries[i]).len() > 0 && entries[i].last()
                == '\n',
        records.len() > 0 ==> appended(entries).len() > 0 && appended(entries).last() == '\n',
{
    let lines = Seq::new(
        records.len(),
        |i: int|
            choose|line: Seq<char>|
                #[trigger] formats[i].renders(line, records[i]) && entries[i] == terminated(line),
    );
    assert forall|i: int| 0 <= i < records.len() implies formats[i].renders(
        #[trigger] lines[i],
        records[i],
    ) && entries[i] == terminated(lines[i]) && is_single_line(lines[i]) by {
        assert(is_entry(formats[i], entries[i], records[i]));
        assert(formats[i].fits_one_line(records[i]));
        formats[i].rendering_is_single_line(lines[i], records[i]);
    }
    assert(entries =~= lines.map_values(|line: Seq<char>| terminated(line)));
    assert(appended(entries) == written(lines));
    written_lines_come_back(lines);
}

} // verus!
