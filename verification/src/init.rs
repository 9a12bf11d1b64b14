//! Installing the process-wide logger: once, and what a further attempt
//! comes to.

use vstd::prelude::*;

verus! {

/// Whether the process has its logger.
#[derive(Clone, Copy, Debug, PartialEq, Eq, Structural)]
pub enum LoggerState {
    Uninitialized,
    Initialized,
}

/// How an initialization treats a logger that is already there.
#[derive(Clone, Copy, Debug, PartialEq, Eq, Structural)]
pub enum InitMode {
    /// A second logger is a programming error: the process stops.
    Strict,
    /// A second logger is not wanted: the attempt is dropped.
    BestEffort,
}

/// What an initialization came to.
#[derive(Clone, Copy, Debug, PartialEq, Eq, Structural)]
pub enum InitOutcome {
    /// The logger of this attempt is now the process's logger.
    Installed,
    /// The process keeps the logger it had; nothing changed.
    Ignored,
    /// The process keeps the logger it had and has to stop.
    Fatal,
}

/// What an initialization in the given mode comes to in the given state.
pub open spec fn outcome(state: LoggerState, mode: InitMode) -> InitOutcome {
    match (state, mode) {
        (LoggerState::Uninitialized, _) => InitOutcome::Installed,
        (LoggerState::Initialized, InitMode::Strict) => InitOutcome::Fatal,
        (LoggerState::Initialized, InitMode::BestEffort) => InitOutcome::Ignored,
    }
}

/// The state after an initialization: the process has a logger, the one it
/// had or the new one.
pub open spec fn next_state(state: LoggerState, mode: InitMode) -> LoggerState {
    LoggerState::Initialized
}

/// The words with which a strict initialization stops the process.
pub open spec fn failure_text() -> Seq<char> {
    "Initializing logger failed. Was another logger already initialized?"@
}

/// Decides one initialization: the state it leaves and what it came to.
pub fn initialize(state: LoggerState, mode: InitMode) -> (step: (LoggerState, InitOutcome))
    ensures
        step.0 == next_state(state, mode),
        step.1 == outcome(state, mode),
{
    let result = match state {
        LoggerState::Uninitialized => InitOutcome::Installed,
        LoggerState::Initialized => match mode {
            InitMode::Strict => InitOutcome::Fatal,
            InitMode::BestEffort => InitOutcome::Ignored,
        },
    };
    (LoggerState::Initialized, result)
}

/// The state that an attempt to install a logger met, told from whether the
/// attempt went through: a logger can be installed only where there was none.
pub fn state_before(installed: bool) -> (state: LoggerState)
    ensures
        state == (if installed {
            LoggerState::Uninitialized
        } else {
            LoggerState::Initialized
        }),
{
    if installed {
        LoggerState::Uninitialized
    } else {
        LoggerState::Initialized
    }
}

/// The message with which a strict initialization stops the process.
pub fn failure_message() -> (message: &'static str)
    ensures
        message@ == failure_text(),
{
    "Initializing logger failed. Was another logger already initialized?"
}

/// The first initialization of a process installs its logger in either mode.
/// Every later one leaves the logger in place: a strict one is fatal, a
/// best-effort one is ignored.  No initialization takes the logger away.
pub proof fn initialization_happens_once(first: InitMode, later: InitMode)
    ensures
        outcome(LoggerState::Uninitialized, first) == InitOutcome::Installed,
        next_state(LoggerState::Uninitialized, first) == LoggerState::Initialized,
        outcome(next_state(LoggerState::Uninitialized, first), later) == (match later {
            InitMode::Strict => InitOutcome::Fatal,
            InitMode::BestEffort => InitOutcome::Ignored,
        }),
        next_state(next_state(LoggerState::Uninitialized, first), later)
            == LoggerState::Initialized,
        forall|state: LoggerState, mode: InitMode|
            #[trigger] next_state(state, mode) == LoggerState::Initialized,
{
}

} // verus!
