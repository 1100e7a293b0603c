use video_transcode::gateway::{resolve_outcome, safe_call, CallOutcome};
use video_transcode::status::STATUS_INTERNAL_FAULT;

#[test]
fn completed_work_code_passes_through() {
    assert_eq!(resolve_outcome(CallOutcome::Completed(0)), 0);
    assert_eq!(resolve_outcome(CallOutcome::Completed(-1)), -1);
    assert_eq!(resolve_outcome(CallOutcome::Completed(7)), 7);
}

#[test]
fn intercepted_fault_becomes_sentinel() {
    // A unit of work that the trap saw fault mid-execution is reported as
    // the reserved sentinel, and the call returns normally.
    assert_eq!(resolve_outcome(CallOutcome::Faulted), STATUS_INTERNAL_FAULT);
    assert_eq!(resolve_outcome(CallOutcome::Faulted), -99);
}

#[test]
fn safe_call_runs_the_work() {
    assert_eq!(safe_call(|| -5), -5);
    let code: i32 = 42;
    assert_eq!(safe_call(move || code), 42);
}
