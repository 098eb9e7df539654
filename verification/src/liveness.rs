//! The liveness signal: the flag every driver-side loop polls to stop.
//!
//! The flag is raised exactly once, when the output relay sees the child's
//! output stream close, and every task treats a raised flag as "the game is
//! over". Its one safety property is monotonicity: once raised it can never
//! be observed lowered again, so a task that has seen it raised can stop for
//! good.

use vstd::prelude::*;

verus! {

/// The shared shutdown flag, raised when the child's output stream closes.
pub struct LivenessFlag {
    finished: bool,
}

impl LivenessFlag {
    /// Whether the flag has been raised.
    pub closed spec fn observed(self) -> bool {
        self.finished
    }

    /// A fresh, lowered flag, made before the tasks start.
    pub fn new() -> (r: Self)
        ensures
            !r.observed(),
    {
        LivenessFlag { finished: false }
    }

    /// Raises the flag: the output relay calls this on end-of-stream.
    pub fn mark_finished(&mut self)
        ensures
            final(self).observed(),
    {
        self.finished = true;
    }

    /// Polls the flag without changing it.
    pub fn is_finished(&self) -> (r: bool)
        ensures
            r == self.observed(),
    {
        self.finished
    }
}

/// The operations the tasks ever apply to the flag.
pub enum SignalOp {
    MarkFinished,
    Observe,
}

/// Effect of one operation on the flag's value.
pub open spec fn apply_op(set: bool, op: SignalOp) -> bool {
    match op {
        SignalOp::MarkFinished => true,
        SignalOp::Observe => set,
    }
}

/// Effect of a whole history of operations, oldest first.
pub open spec fn apply_ops(set: bool, ops: Seq<SignalOp>) -> bool
    decreases ops.len(),
{
    if ops.len() == 0 {
        set
    } else {
        apply_ops(apply_op(set, ops.first()), ops.drop_first())
    }
}

/// Law: the liveness signal is monotone. Once the flag is raised, no history
/// of further marks and polls can ever lower it, so every task that polls
/// after the output relay finishes observes it raised.
pub proof fn lemma_signal_monotone(ops: Seq<SignalOp>)
    ensures
        apply_ops(true, ops),
    decreases ops.len(),
{
    if ops.len() > 0 {
        lemma_signal_monotone(ops.drop_first());
    }
}

} // verus!
