//! The caller-side state machine behind `resume_with`.
//!
//! A task moves through `Suspended` states and becomes completed exactly
//! once, when a switch delivers its final value or an abnormal end.
//! Each resume is decided in two halves, around the engine's switch:
//!
//! 1. [`ResumeGate::check_live`] - before the switch: a completed task
//!    refuses with [`ResumeError::DeadTask`] and the switch never happens.
//! 2. [`ResumeGate::absorb_reply`] - after the switch: the delivered reply
//!    determines both the caller's result and the new completion state,
//!    exactly as [`resume_outcome`] and [`completed_after`] say.

use vstd::prelude::*;
use crate::messages::{Reply, ResumeError, reply_payload, reply_is_final};

verus! {

/// What a pending resume returns once the switch has delivered `reply`:
/// the carried value for a delivered reply, `TaskFailure` when the task
/// terminated abnormally and nothing came back.
pub open spec fn resume_outcome<Y>(reply: Option<Reply<Y>>) -> Result<Y, ResumeError> {
    match reply {
        Some(r) => Ok(reply_payload(r)),
        None => Err(ResumeError::TaskFailure),
    }
}

/// Whether the task is completed after the switch that delivered `reply`:
/// only a mid-run yield leaves it resumable.
pub open spec fn completed_after<Y>(reply: Option<Reply<Y>>) -> bool {
    match reply {
        Some(r) => reply_is_final(r),
        None => true,
    }
}

/// How one resume may move the completion flag: completion is never undone.
pub open spec fn completion_step(pre: bool, post: bool) -> bool {
    pre ==> post
}

/// The completion record the caller's handle keeps for its task.
pub struct ResumeGate {
    completed: bool,
}

impl ResumeGate {
    /// Whether the task has delivered its final value (or failed) and may
    /// not run again.
    pub closed spec fn is_completed(&self) -> bool {
        self.completed
    }

    /// A freshly spawned task is suspended awaiting its first resume, so
    /// its gate starts open.
    pub fn new() -> (gate: ResumeGate)
        ensures
            !gate.is_completed(),
    {
        ResumeGate { completed: false }
    }

    /// The decision at the top of every resume: exactly the completed task
    /// is refused, with `DeadTask`; a live task's resume goes on to the
    /// switch.
    pub fn check_live(&self) -> (r: Result<(), ResumeError>)
        ensures
            r is Ok <==> !self.is_completed(),
            r is Err ==> r == Err::<(), ResumeError>(ResumeError::DeadTask),
    {
        if self.completed {
            Err(ResumeError::DeadTask)
        } else {
            Ok(())
        }
    }

    /// Absorb what the switch delivered: return the carried value (or the
    /// failure) to the caller and record completion exactly when the reply
    /// was final or the task failed.
    pub fn absorb_reply<Y>(&mut self, reply: Option<Reply<Y>>) -> (res: Result<Y, ResumeError>)
        requires
            !old(self).is_completed(),
        ensures
            res == resume_outcome(reply),
            final(self).is_completed() == completed_after(reply),
            completion_step(old(self).is_completed(), final(self).is_completed()),
    {
        match reply {
            Some(Reply::Yielded(v)) => Ok(v),
            Some(Reply::Final(v)) => {
                self.completed = true;
                Ok(v)
            },
            None => {
                self.completed = true;
                Err(ResumeError::TaskFailure)
            },
        }
    }

    /// Whether a further resume would be refused with `DeadTask`.
    pub fn is_done(&self) -> (b: bool)
        ensures
            b == self.is_completed(),
    {
        self.completed
    }
}

/// Round trip: for any value the task hands to a switch, whichever way it
/// is tagged, the caller's pending resume returns exactly that value.
pub proof fn lemma_round_trip<Y>(v: Y, reply: Reply<Y>)
    requires
        reply == Reply::Yielded(v) || reply == Reply::Final(v),
    ensures
        resume_outcome(Some(reply)) == Ok::<Y, ResumeError>(v),
{
}

/// Terminal behavior, one switch: exactly one kind of reply - a mid-run
/// yield - leaves the task resumable; the reply that carries the final
/// value completes it, as does an abnormal termination.
pub proof fn lemma_only_final_completes<Y>(v: Y)
    ensures
        !completed_after(Some(Reply::Yielded(v))),
        completed_after(Some(Reply::Final(v))),
        completed_after::<Y>(None),
{
}

/// Whether a session that has absorbed `replies`, in order, has seen its
/// task complete: it has, exactly when some absorbed reply was final or a
/// failure.
pub open spec fn session_completed<Y>(replies: Seq<Option<Reply<Y>>>) -> bool
    decreases replies.len(),
{
    if replies.len() == 0 {
        false
    } else {
        session_completed(replies.drop_last()) || completed_after(replies.last())
    }
}

/// A task becomes completed exactly once. In a session where the reply at
/// position `c` is the first final (or failed) one, the completion flag is
/// still down after absorbing any prefix that ends before `c`, and up after
/// any prefix that reaches it.
pub proof fn lemma_completed_exactly_once<Y>(replies: Seq<Option<Reply<Y>>>, c: int, j: int)
    requires
        0 <= c < replies.len(),
        completed_after(replies[c]),
        forall|i: int| 0 <= i < c ==> !completed_after(#[trigger] replies[i]),
        0 <= j <= replies.len(),
    ensures
        session_completed(replies.take(j)) <==> j > c,
    decreases j,
{
    if j > 0 {
        assert(replies.take(j).drop_last() =~= replies.take(j - 1));
        assert(replies.take(j).last() == replies[j - 1]);
        lemma_completed_exactly_once(replies, c, j - 1);
    }
}

/// While the task only yields, it stays resumable: a session none of whose
/// replies is final or failed never completes.
pub proof fn lemma_live_while_yielding<Y>(replies: Seq<Option<Reply<Y>>>)
    requires
        forall|i: int| 0 <= i < replies.len() ==> !completed_after(#[trigger] replies[i]),
    ensures
        !session_completed(replies),
    decreases replies.len(),
{
    if replies.len() > 0 {
        assert(replies.last() == replies[replies.len() - 1]);
        lemma_live_while_yielding(replies.drop_last());
    }
}

/// Terminal behavior, over a whole session: in any chain of resume
/// transitions, a task completed at step `k` is still completed at every
/// later step `j` - termination is absorbing, so every resume after the
/// one that observed the final value is refused.
pub proof fn lemma_completion_is_terminal(states: Seq<bool>, k: int, j: int)
    requires
        0 <= k <= j < states.len(),
        forall|i: int| 0 <= i < states.len() - 1
            ==> #[trigger] completion_step(states[i], states[i + 1]),
        states[k],
    ensures
        states[j],
    decreases j - k,
{
    if k < j {
        lemma_completion_is_terminal(states, k, j - 1);
        assert(completion_step(states[j - 1], states[(j - 1) + 1]));
    }
}

} // verus!
