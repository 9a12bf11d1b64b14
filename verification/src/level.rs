//! Severities and severity filters.

use vstd::prelude::*;

verus! {

/// Severity of a record, listed from the most to the least severe.
#[derive(Clone, Copy, Debug, PartialEq, Eq, Structural)]
pub enum Level {
    Error,
    Warn,
    Info,
    Debug,
    Trace,
}

/// Upper bound on the severities that a sink lets through.
#[derive(Clone, Copy, Debug, PartialEq, Eq, Structural)]
pub enum LevelFilter {
    Off,
    Error,
    Warn,
    Info,
    Debug,
    Trace,
}

/// A lower-case ASCII letter.
pub open spec fn is_lower_letter(c: char) -> bool {
    'a' <= c && c <= 'z'
}

/// An upper-case ASCII letter.
pub open spec fn is_upper_letter(c: char) -> bool {
    'A' <= c && c <= 'Z'
}

/// The lower-case letter that belongs to an upper-case ASCII letter.
pub open spec fn lowered(c: char) -> char {
    if is_upper_letter(c) {
        ((c as u8) + 32) as char
    } else {
        c
    }
}

impl Level {
    /// Position in the order of verbosity: 1 for `Error` up to 5 for `Trace`.
    pub open spec fn verbosity(self) -> int {
        match self {
            Level::Error => 1,
            Level::Warn => 2,
            Level::Info => 3,
            Level::Debug => 4,
            Level::Trace => 5,
        }
    }

    /// The name as the JSON format writes it.
    pub open spec fn lower_name(self) -> Seq<char> {
        match self {
            Level::Error => seq!['e', 'r', 'r', 'o', 'r'],
            Level::Warn => seq!['w', 'a', 'r', 'n'],
            Level::Info => seq!['i', 'n', 'f', 'o'],
            Level::Debug => seq!['d', 'e', 'b', 'u', 'g'],
            Level::Trace => seq!['t', 'r', 'a', 'c', 'e'],
        }
    }

    /// The name as the text formats write it.
    pub open spec fn upper_name(self) -> Seq<char> {
        match self {
            Level::Error => seq!['E', 'R', 'R', 'O', 'R'],
            Level::Warn => seq!['W', 'A', 'R', 'N'],
            Level::Info => seq!['I', 'N', 'F', 'O'],
            Level::Debug => seq!['D', 'E', 'B', 'U', 'G'],
            Level::Trace => seq!['T', 'R', 'A', 'C', 'E'],
        }
    }

    /// The lower-case name, as text.
    pub fn as_lower_str(self) -> (name: &'static str)
        ensures
            name@ == self.lower_name(),
    {
        proof {
            reveal_strlit("error");
            reveal_strlit("warn");
            reveal_strlit("info");
            reveal_strlit("debug");
            reveal_strlit("trace");
        }
        let name = match self {
            Level::Error => "error",
            Level::Warn => "warn",
            Level::Info => "info",
            Level::Debug => "debug",
            Level::Trace => "trace",
        };
        assert(name@ =~= self.lower_name());
        name
    }

    /// The upper-case name, as text.
    pub fn as_upper_str(self) -> (name: &'static str)
        ensures
            name@ == self.upper_name(),
    {
        proof {
            reveal_strlit("ERROR");
            reveal_strlit("WARN");
            reveal_strlit("INFO");
            reveal_strlit("DEBUG");
            reveal_strlit("TRACE");
        }
        let name = match self {
            Level::Error => "ERROR",
            Level::Warn => "WARN",
            Level::Info => "INFO",
            Level::Debug => "DEBUG",
            Level::Trace => "TRACE",
        };
        assert(name@ =~= self.upper_name());
        name
    }

    /// Every severity has a lower-case name made of ASCII letters only, and it
    /// is the upper-case name with each letter lowered.
    pub proof fn lower_name_is_lower_case(self)
        ensures
            self.lower_name().len() == self.upper_name().len(),
            forall|i: int|
                0 <= i < self.lower_name().len() ==> is_lower_letter(
                    #[trigger] self.lower_name()[i],
                ),
            forall|i: int|
                0 <= i < self.lower_name().len() ==> #[trigger] self.lower_name()[i] == lowered(
                    self.upper_name()[i],
                ),
    {
    }
}

impl LevelFilter {
    /// Number of severities that pass: 0 for `Off` up to 5 for `Trace`.
    pub open spec fn verbosity(self) -> int {
        match self {
            LevelFilter::Off => 0,
            LevelFilter::Error => 1,
            LevelFilter::Warn => 2,
            LevelFilter::Info => 3,
            LevelFilter::Debug => 4,
            LevelFilter::Trace => 5,
        }
    }

    /// Whether a record of the given severity passes the filter.
    pub open spec fn admits(self, level: Level) -> bool {
        level.verbosity() <= self.verbosity()
    }

    /// Tells whether a record of the given severity passes the filter.
    pub fn allows(self, level: Level) -> (passes: bool)
        ensures
            passes == self.admits(level),
    {
        let bound: u8 = match self {
            LevelFilter::Off => 0,
            LevelFilter::Error => 1,
            LevelFilter::Warn => 2,
            LevelFilter::Info => 3,
            LevelFilter::Debug => 4,
            LevelFilter::Trace => 5,
        };
        let rank: u8 = match level {
            Level::Error => 1,
            Level::Warn => 2,
            Level::Info => 3,
            Level::Debug => 4,
            Level::Trace => 5,
        };
        rank <= bound
    }
}

} // verus!
