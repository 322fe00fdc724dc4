//! The values that cross a switch, and the two task-side encode chokepoints.
//!
//! The caller-to-task direction of a switch carries a plain resume value.
//! The task-to-caller direction is tagged: a reply says whether the value it
//! carries was yielded mid-run or is the task's final result. The tag is what
//! lets the caller's side record completion without asking the engine.

use vstd::prelude::*;

verus! {

/// What a switch out of the task delivers to the caller.
#[derive(Debug, PartialEq)]
pub enum Reply<Y> {
    /// The task suspended with `yield_with` and expects to be resumed again.
    Yielded(Y),
    /// The task's body returned; this value ends the exchange.
    Final(Y),
}

/// Errors reported to the caller by `resume_with`.
#[derive(Clone, Copy, PartialEq, Eq, Structural, Debug)]
pub enum ResumeError {
    /// The task already delivered its final value; it cannot run again.
    DeadTask,
    /// The task terminated abnormally instead of producing a value.
    TaskFailure,
}

/// The value a reply carries, whichever way it is tagged.
pub open spec fn reply_payload<Y>(reply: Reply<Y>) -> Y {
    match reply {
        Reply::Yielded(v) => v,
        Reply::Final(v) => v,
    }
}

/// Whether a reply ends the exchange.
pub open spec fn reply_is_final<Y>(reply: Reply<Y>) -> bool {
    match reply {
        Reply::Yielded(_) => false,
        Reply::Final(_) => true,
    }
}

/// Encode chokepoint for `yield_with`: a suspension wraps its value so the
/// caller's side sees that more exchanges are expected.
pub fn yield_reply<Y>(y: Y) -> (reply: Reply<Y>)
    ensures
        reply == Reply::Yielded(y),
{
    Reply::Yielded(y)
}

/// Encode chokepoint for the end of the task body: its return value is
/// wrapped so the caller's side sees that the task is done.
pub fn final_reply<Y>(y: Y) -> (reply: Reply<Y>)
    ensures
        reply == Reply::Final(y),
{
    Reply::Final(y)
}

} // verus!
