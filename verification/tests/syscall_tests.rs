use nanomsg_multi_server::syscall::{call_outcome, CallOutcome};

#[test]
fn successful_call_is_done() {
    assert_eq!(call_outcome(0, false), CallOutcome::Done(0));
    assert_eq!(call_outcome(7, true), CallOutcome::Done(7));
}

#[test]
fn interrupted_call_is_retried() {
    assert_eq!(call_outcome(-1, true), CallOutcome::Retry);
}

#[test]
fn failed_call_is_reported() {
    assert_eq!(call_outcome(-1, false), CallOutcome::Failed);
}
