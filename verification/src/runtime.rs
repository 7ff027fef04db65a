//! How a PHP Fiber is driven: after each start or resume the runtime looks
//! at what the fiber did and decides the next step, until the fiber ends.
//!
//! The fiber, the futures and the PHP values stay with the glue, which
//! performs each step and reports what came of it.

use vstd::prelude::*;
use crate::text::{chars_to_string, push_all, str_to_chars};

verus! {

/// What a fiber did after it was started or resumed.
#[derive(Debug, Clone, PartialEq, Eq)]
pub enum Suspension {
    /// It ran to its end.
    Terminated,
    /// It suspended with `null`: it only yields.
    Null,
    /// It suspended with a Rust future; `pending` tells whether the future
    /// was still there to await (a future can be awaited once).
    Future { pending: bool },
    /// It suspended with another value, of the named PHP type.
    Other { php_type: String },
}

/// Why driving a fiber failed.
#[derive(Debug, Clone, PartialEq, Eq)]
pub enum DriveError {
    /// The fiber handed back a future that was awaited before.
    FutureAlreadyAwaited,
    /// The fiber suspended with a value that is neither `null` nor a future.
    UnknownSuspension(String),
}

/// The step that follows a suspension.
#[derive(Debug, Clone, PartialEq, Eq)]
pub enum FiberStep {
    /// Take the fiber's return value: it has ended.
    Finish,
    /// Yield to the other tasks, then resume the fiber with nothing.
    YieldThenResume,
    /// Await the future, then answer the fiber with its outcome.
    AwaitFuture,
    /// Stop: the fiber cannot be driven further.
    Fail(DriveError),
}

/// How an awaited future ended.
#[derive(Debug, Clone, PartialEq, Eq)]
pub enum FutureOutcome {
    /// With a value.
    Value,
    /// With an error message.
    Error(String),
    /// With a panic, whose payload is the message when it is a string.
    Panic(Option<String>),
}

/// How the fiber is answered after its future ended.
#[derive(Debug, Clone, PartialEq, Eq)]
pub enum FiberAnswer {
    /// Resume it with the future's value.
    ResumeWithValue,
    /// Throw an `Exception` with this message into it.
    Throw(String),
}

/// The message of a drive error.
pub open spec fn drive_error_message(e: DriveError) -> Seq<char> {
    match e {
        DriveError::FutureAlreadyAwaited => "RustFuture was already awaited!"@,
        DriveError::UnknownSuspension(t) => "Fiber suspended with unknown value. Type: "@ + t@,
    }
}

impl DriveError {
    /// The message of the PHP exception for this error.
    pub fn message(&self) -> (s: String)
        ensures
            s@ == drive_error_message(*self),
    {
        match self {
            DriveError::FutureAlreadyAwaited => String::from_str("RustFuture was already awaited!"),
            DriveError::UnknownSuspension(t) => {
                let mut out = str_to_chars("Fiber suspended with unknown value. Type: ");
                let tv = str_to_chars(t.as_str());
                push_all(&mut out, &tv);
                chars_to_string(&out)
            },
        }
    }
}

/// The step after a suspension: an ended fiber finishes, `null` yields,
/// a future not yet awaited is awaited, and anything else fails.
pub open spec fn next_step_spec(s: Suspension) -> FiberStep {
    match s {
        Suspension::Terminated => FiberStep::Finish,
        Suspension::Null => FiberStep::YieldThenResume,
        Suspension::Future { pending } => if pending {
            FiberStep::AwaitFuture
        } else {
            FiberStep::Fail(DriveError::FutureAlreadyAwaited)
        },
        Suspension::Other { php_type } => FiberStep::Fail(
            DriveError::UnknownSuspension(php_type),
        ),
    }
}

/// The step after a suspension.
pub fn next_step(s: Suspension) -> (step: FiberStep)
    ensures
        step == next_step_spec(s),
{
    match s {
        Suspension::Terminated => FiberStep::Finish,
        Suspension::Null => FiberStep::YieldThenResume,
        Suspension::Future { pending } => if pending {
            FiberStep::AwaitFuture
        } else {
            FiberStep::Fail(DriveError::FutureAlreadyAwaited)
        },
        Suspension::Other { php_type } => FiberStep::Fail(DriveError::UnknownSuspension(php_type)),
    }
}

/// The message thrown into a fiber for a panic: `Rust Panic: ` and the
/// payload, or `Unknown payload` when it is not a string.
pub open spec fn panic_message(payload: Option<String>) -> Seq<char> {
    "Rust Panic: "@ + match payload {
        Some(p) => p@,
        None => "Unknown payload"@,
    }
}

/// How the fiber is answered: a value resumes it; an error, or a panic,
/// is thrown into it as an `Exception`.
pub open spec fn answer_spec(o: FutureOutcome) -> Option<Seq<char>> {
    match o {
        FutureOutcome::Value => None,
        FutureOutcome::Error(m) => Some(m@),
        FutureOutcome::Panic(p) => Some(panic_message(p)),
    }
}

/// How the fiber is answered after its future ended.
pub fn answer(o: FutureOutcome) -> (a: FiberAnswer)
    ensures
        match answer_spec(o) {
            None => a == FiberAnswer::ResumeWithValue,
            Some(m) => a matches FiberAnswer::Throw(t) && t@ == m,
        },
{
    match o {
        FutureOutcome::Value => FiberAnswer::ResumeWithValue,
        FutureOutcome::Error(m) => FiberAnswer::Throw(m),
        FutureOutcome::Panic(p) => {
            let mut out = str_to_chars("Rust Panic: ");
            let tail = match p {
                Some(s) => str_to_chars(s.as_str()),
                None => str_to_chars("Unknown payload"),
            };
            push_all(&mut out, &tail);
            FiberAnswer::Throw(chars_to_string(&out))
        },
    }
}

/// A refused request reaches PHP unchanged: the error of a future is
/// thrown into the fiber with exactly its message, and only a value
/// resumes the fiber normally.
pub proof fn law_future_errors_reach_php(o: FutureOutcome)
    ensures
        o matches FutureOutcome::Error(m) ==> answer_spec(o) == Some(m@),
        answer_spec(o) is None <==> o is Value,
{
}

/// A fiber is driven on only while it suspends with `null` or a fresh
/// future: a future is awaited at most once, and every other suspension
/// ends the drive.
pub proof fn law_drive_continues_only_on_yield_or_future(s: Suspension)
    ensures
        (next_step_spec(s) is YieldThenResume || next_step_spec(s) is AwaitFuture) <==> (s is Null
            || s == Suspension::Future { pending: true }),
        next_step_spec(s) is Finish <==> s is Terminated,
{
}

} // verus!
