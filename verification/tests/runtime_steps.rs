use async_php::runtime::{answer, next_step, DriveError, FiberAnswer, FiberStep, FutureOutcome, Suspension};

#[test]
fn steps_after_suspensions() {
    assert_eq!(next_step(Suspension::Terminated), FiberStep::Finish);
    assert_eq!(next_step(Suspension::Null), FiberStep::YieldThenResume);
    assert_eq!(next_step(Suspension::Future { pending: true }), FiberStep::AwaitFuture);
    assert_eq!(
        next_step(Suspension::Future { pending: false }),
        FiberStep::Fail(DriveError::FutureAlreadyAwaited)
    );
    assert_eq!(
        next_step(Suspension::Other { php_type: "Long".to_string() }),
        FiberStep::Fail(DriveError::UnknownSuspension("Long".to_string()))
    );
}

#[test]
fn drive_error_messages() {
    assert_eq!(DriveError::FutureAlreadyAwaited.message(), "RustFuture was already awaited!");
    assert_eq!(
        DriveError::UnknownSuspension("Array".to_string()).message(),
        "Fiber suspended with unknown value. Type: Array"
    );
}

#[test]
fn answers_to_future_outcomes() {
    assert_eq!(answer(FutureOutcome::Value), FiberAnswer::ResumeWithValue);
    assert_eq!(
        answer(FutureOutcome::Error("Request timeout".to_string())),
        FiberAnswer::Throw("Request timeout".to_string())
    );
    assert_eq!(
        answer(FutureOutcome::Panic(Some("boom".to_string()))),
        FiberAnswer::Throw("Rust Panic: boom".to_string())
    );
    assert_eq!(
        answer(FutureOutcome::Panic(None)),
        FiberAnswer::Throw("Rust Panic: Unknown payload".to_string())
    );
}
