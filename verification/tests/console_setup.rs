use redleaf::console_setup::{CallResult, ConsoleCall, ConsoleFailure, ConsoleSetup};

#[test]
fn console_exists_already() {
    let mut s = ConsoleSetup::new();
    assert_eq!(s.call(), ConsoleCall::OpenConsole);
    assert_eq!(s.advance(CallResult::Fd(0)), ConsoleCall::DupStdin);
    assert_eq!(s.advance(CallResult::Fd(1)), ConsoleCall::DupStdin);
    assert_eq!(s.advance(CallResult::Fd(2)), ConsoleCall::SpawnShell);
    assert_eq!(s.advance(CallResult::Unit), ConsoleCall::Finished);
    assert_eq!(s.advance(CallResult::Unit), ConsoleCall::Finished);
}

#[test]
fn console_is_made_when_missing() {
    let mut s = ConsoleSetup::new();
    assert_eq!(s.advance(CallResult::Error), ConsoleCall::MknodConsole);
    assert_eq!(s.advance(CallResult::Unit), ConsoleCall::OpenConsole);
    assert_eq!(s.advance(CallResult::Fd(0)), ConsoleCall::DupStdin);
    assert_eq!(s.advance(CallResult::Fd(1)), ConsoleCall::DupStdin);
    assert_eq!(s.advance(CallResult::Fd(2)), ConsoleCall::SpawnShell);
    assert_eq!(s.advance(CallResult::Unit), ConsoleCall::Finished);
}

#[test]
fn console_failures() {
    let mut s = ConsoleSetup::new();
    assert_eq!(s.advance(CallResult::Fd(3)), ConsoleCall::Abort(ConsoleFailure::NotStdin(3)));
    assert_eq!(s.advance(CallResult::Fd(0)), ConsoleCall::Abort(ConsoleFailure::NotStdin(3)));

    let mut s = ConsoleSetup::new();
    s.advance(CallResult::Error);
    assert_eq!(s.advance(CallResult::Error), ConsoleCall::Abort(ConsoleFailure::MknodFailed));

    let mut s = ConsoleSetup::new();
    s.advance(CallResult::Error);
    s.advance(CallResult::Unit);
    assert_eq!(s.advance(CallResult::Error), ConsoleCall::Abort(ConsoleFailure::ReopenFailed));

    let mut s = ConsoleSetup::new();
    s.advance(CallResult::Fd(0));
    assert_eq!(s.advance(CallResult::Fd(5)), ConsoleCall::Abort(ConsoleFailure::DupFailed));

    let mut s = ConsoleSetup::new();
    s.advance(CallResult::Fd(0));
    s.advance(CallResult::Fd(1));
    assert_eq!(s.advance(CallResult::Error), ConsoleCall::Abort(ConsoleFailure::DupFailed));

    let mut s = ConsoleSetup::new();
    s.advance(CallResult::Fd(0));
    s.advance(CallResult::Fd(1));
    s.advance(CallResult::Fd(2));
    assert_eq!(s.advance(CallResult::Error), ConsoleCall::Abort(ConsoleFailure::SpawnFailed));
}

#[test]
fn console_result_of_the_wrong_kind_repeats_the_call() {
    let mut s = ConsoleSetup::new();
    assert_eq!(s.advance(CallResult::Unit), ConsoleCall::OpenConsole);
    s.advance(CallResult::Error);
    assert_eq!(s.advance(CallResult::Fd(0)), ConsoleCall::MknodConsole);
}
