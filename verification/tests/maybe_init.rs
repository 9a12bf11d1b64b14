use fil_logger::init::{initialize, state_before, InitMode, InitOutcome, LoggerState};

fn init_in(mode: InitMode) -> InitOutcome {
    let installed = flexi_logger::Logger::with_env().start().is_ok();
    let (state, outcome) = initialize(state_before(installed), mode);
    assert_eq!(state, LoggerState::Initialized);
    if outcome == InitOutcome::Fatal {
        panic!("{}", fil_logger::init::failure_message());
    }
    outcome
}

#[test]
fn maybe_init_always_possible() {
    // Make sure that the logger is initialized.
    assert_eq!(init_in(InitMode::Strict), InitOutcome::Installed);

    // Subsequent calls will fail silently.
    assert_eq!(init_in(InitMode::BestEffort), InitOutcome::Ignored);
    assert_eq!(init_in(InitMode::BestEffort), InitOutcome::Ignored);
}

#[test]
fn best_effort_initialization_installs_where_there_is_no_logger() {
    let (state, outcome) = initialize(LoggerState::Uninitialized, InitMode::BestEffort);
    assert_eq!(outcome, InitOutcome::Installed);
    assert_eq!(state, LoggerState::Initialized);
}

#[test]
fn best_effort_initialization_changes_nothing_the_second_time() {
    let (state, _) = initialize(LoggerState::Uninitialized, InitMode::BestEffort);
    let (again, outcome) = initialize(state, InitMode::BestEffort);
    assert_eq!(outcome, InitOutcome::Ignored);
    assert_eq!(again, state);
    let (after_strict, _) = initialize(LoggerState::Uninitialized, InitMode::Strict);
    let (later, outcome) = initialize(after_strict, InitMode::BestEffort);
    assert_eq!(outcome, InitOutcome::Ignored);
    assert_eq!(later, LoggerState::Initialized);
}

#[test]
fn state_before_an_attempt() {
    assert_eq!(state_before(true), LoggerState::Uninitialized);
    assert_eq!(state_before(false), LoggerState::Initialized);
}
