use fil_logger::init::{failure_message, initialize, state_before, InitMode, InitOutcome, LoggerState};

fn strict_init() {
    let installed = flexi_logger::Logger::with_env().start().is_ok();
    let (state, outcome) = initialize(state_before(installed), InitMode::Strict);
    assert_eq!(state, LoggerState::Initialized);
    if outcome == InitOutcome::Fatal {
        panic!("{}", failure_message());
    }
}

#[test]
#[should_panic(expected = "Initializing logger failed. Was another logger already initialized?")]
fn double_init_failure() {
    strict_init();
    strict_init();
}

#[test]
fn strict_initialization_is_fatal_the_second_time() {
    let (state, first) = initialize(LoggerState::Uninitialized, InitMode::Strict);
    assert_eq!(first, InitOutcome::Installed);
    assert_eq!(state, LoggerState::Initialized);
    let (state, second) = initialize(state, InitMode::Strict);
    assert_eq!(second, InitOutcome::Fatal);
    assert_eq!(state, LoggerState::Initialized);
}

#[test]
fn failure_message_names_the_likely_cause() {
    assert_eq!(
        failure_message(),
        "Initializing logger failed. Was another logger already initialized?"
    );
}
