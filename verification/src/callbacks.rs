//! What the bindings do around calls into user-supplied Python objects.
//!
//! Listener notifications are defensive: a hook the object does not define
//! is skipped, and a hook that raises is reported and swallowed, since a
//! notification must not abort an in-flight IR mutation. Inserter and
//! rewriter methods are required: the IR depends on their effects, so a
//! missing or failing one is fatal. A pattern's `match` answers `false` when
//! it raises or returns something other than a `bool`.

use vstd::prelude::*;

verus! {

/// What to do with a listener notification.
#[derive(Clone, Copy, Debug, PartialEq, Eq, Structural)]
pub enum NotifyAction {
    Skip,
    Call,
}

/// How a call into a Python object ended.
#[derive(Clone, Copy, Debug, PartialEq, Eq, Structural)]
pub enum CallOutcome {
    Returned,
    /// The method is missing, or it raised.
    Raised,
}

/// After a notification: whether the raised exception is printed. The
/// notification never fails.
#[derive(Clone, Copy, Debug, PartialEq, Eq, Structural)]
pub enum NotifyReport {
    Nothing,
    PrintAndSwallow,
}

/// How a call to a required inserter/rewriter method ended.
#[derive(Debug)]
pub enum RequiredCall<R> {
    /// The method returned this value.
    Returned(R),
    /// The method is missing, or it raised.
    Failed,
}

/// A notification is delivered only when a listener object is attached and
/// it defines the hook.
pub fn dispatch(has_listener: bool, has_method: bool) -> (r: NotifyAction)
    ensures
        (r == NotifyAction::Call) == (has_listener && has_method),
{
    if has_listener && has_method {
        NotifyAction::Call
    } else {
        NotifyAction::Skip
    }
}

/// A raising hook is printed and swallowed.
pub fn notify_report(outcome: CallOutcome) -> (r: NotifyReport)
    ensures
        (r == NotifyReport::PrintAndSwallow) == (outcome == CallOutcome::Raised),
{
    match outcome {
        CallOutcome::Returned => NotifyReport::Nothing,
        CallOutcome::Raised => NotifyReport::PrintAndSwallow,
    }
}

/// The value a required method returned. A missing or raising method is
/// fatal and must be caught by the caller before this point (the IR depends
/// on the method's effect), so only calls that returned are admitted.
pub fn call_required<R>(outcome: RequiredCall<R>) -> (r: R)
    requires
        outcome is Returned,
    ensures
        outcome == RequiredCall::Returned(r),
{
    match outcome {
        RequiredCall::Returned(v) => v,
        RequiredCall::Failed => vstd::pervasive::unreached(),
    }
}

/// How a pattern's `match(op)` call ended.
#[derive(Clone, Copy, Debug, PartialEq, Eq, Structural)]
pub enum MatchOutcome {
    /// It returned a `bool`.
    Answered(bool),
    /// It returned something that is not a `bool`.
    NotABool,
    Raised,
}

/// The answer of a pattern's `match`, and whether an error is printed: a
/// `bool` answer is taken as it is; anything else counts as no match.
pub fn match_answer(outcome: MatchOutcome) -> (r: (bool, bool))
    ensures
        r.0 == (outcome == MatchOutcome::Answered(true)),
        r.1 == !(outcome is Answered),
{
    match outcome {
        MatchOutcome::Answered(b) => (b, false),
        MatchOutcome::NotABool => (false, true),
        MatchOutcome::Raised => (false, true),
    }
}

} // verus!
