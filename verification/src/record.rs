//! The record that the formats render.

use vstd::prelude::*;
use crate::decimal::decimal;
use crate::level::Level;

verus! {

/// One log record as plain values: what the call site gave to the logging
/// facility, with the message already formatted.
#[derive(Debug)]
pub struct LogRecord {
    /// Severity of the record.
    pub level: Level,
    /// Path of the module that logged, where it is known.
    pub module: Option<String>,
    /// Source file of the call, where it is known.
    pub file: Option<String>,
    /// Line of the call in its source file, where it is known.
    pub line: Option<u32>,
    /// The message, written out as it is.
    pub message: String,
}

/// The mathematical content of a [`LogRecord`].
pub struct RecordView {
    pub level: Level,
    pub module: Option<Seq<char>>,
    pub file: Option<Seq<char>>,
    pub line: Option<u32>,
    pub message: Seq<char>,
}

/// What a borrowed optional text holds.
pub open spec fn held(value: Option<&str>) -> Option<Seq<char>> {
    match value {
        Some(text) => Some(text@),
        None => None,
    }
}

/// What an owned optional text holds.
pub open spec fn kept(value: Option<String>) -> Option<Seq<char>> {
    match value {
        Some(text) => Some(text@),
        None => None,
    }
}

/// What stands in for a module path or a file name that is not known.
pub open spec fn unnamed() -> Seq<char> {
    "<unnamed>"@
}

impl RecordView {
    /// The module path, or the placeholder.
    pub open spec fn logger(self) -> Seq<char> {
        match self.module {
            Some(path) => path,
            None => unnamed(),
        }
    }

    /// The source file, or the placeholder.
    pub open spec fn source_file(self) -> Seq<char> {
        match self.file {
            Some(name) => name,
            None => unnamed(),
        }
    }

    /// The source line, or 0.
    pub open spec fn source_line(self) -> nat {
        match self.line {
            Some(line) => line as nat,
            None => 0,
        }
    }

    /// The record with each value that it lacks replaced by what stands in
    /// for it: the placeholder for the module and the file, 0 for the line.
    pub open spec fn filled(self) -> RecordView {
        RecordView {
            level: self.level,
            module: Some(self.logger()),
            file: Some(self.source_file()),
            line: Some(self.source_line() as u32),
            message: self.message,
        }
    }

    /// Where the record was logged: `<file>:<line>`.
    pub open spec fn caller(self) -> Seq<char> {
        self.source_file() + ":"@ + decimal(self.source_line())
    }
}

impl View for LogRecord {
    type V = RecordView;

    open spec fn view(&self) -> RecordView {
        RecordView {
            level: self.level,
            module: kept(self.module),
            file: kept(self.file),
            line: self.line,
            message: self.message@,
        }
    }
}

/// An owned copy of an optional text.
fn owned(value: Option<&str>) -> (text: Option<String>)
    ensures
        kept(text) == held(value),
{
    match value {
        Some(v) => Some(String::from_str(v)),
        None => None,
    }
}

/// A copy of an optional text.
fn copied(value: &Option<String>) -> (text: Option<String>)
    ensures
        text == *value,
{
    match value {
        Some(v) => Some(v.clone()),
        None => None,
    }
}

impl Clone for LogRecord {
    fn clone(&self) -> (copy: Self)
        ensures
            copy@ == self@,
    {
        LogRecord {
            level: self.level,
            module: copied(&self.module),
            file: copied(&self.file),
            line: self.line,
            message: self.message.clone(),
        }
    }
}

impl LogRecord {
    /// A record of the given severity and message, logged from the given
    /// module, file and line as far as they are known.
    pub fn new(
        level: Level,
        module: Option<&str>,
        file: Option<&str>,
        line: Option<u32>,
        message: &str,
    ) -> (record: Self)
        ensures
            record@ == (RecordView {
                level,
                module: held(module),
                file: held(file),
                line,
                message: message@,
            }),
    {
        LogRecord {
            level,
            module: owned(module),
            file: owned(file),
            line,
            message: String::from_str(message),
        }
    }

    /// The module path, or the placeholder where the record has none.
    pub fn logger(&self) -> (name: &str)
        ensures
            name@ == self@.logger(),
    {
        match &self.module {
            Some(path) => path.as_str(),
            None => "<unnamed>",
        }
    }

    /// The source file, or the placeholder where the record has none.
    pub fn source_file(&self) -> (name: &str)
        ensures
            name@ == self@.source_file(),
    {
        match &self.file {
            Some(name) => name.as_str(),
            None => "<unnamed>",
        }
    }

    /// The source line, or 0 where the record has none.
    pub fn source_line(&self) -> (line: u32)
        ensures
            line == self@.source_line(),
    {
        match self.line {
            Some(line) => line,
            None => 0,
        }
    }
}

} // verus!
