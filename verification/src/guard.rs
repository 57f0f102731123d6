//! The busy flag: the sole guard against overlapping refreshes.
//!
//! Exactly one worker may carry a refresh at a time, whether it was triggered
//! by hand or by the timer. Entry goes through a single check-and-set: a
//! worker that finds the flag free takes it and proceeds; one that finds it
//! taken must not start a competing refresh. The flag stays set for the whole
//! pipeline and is cleared once, at its end, by the worker that took it.

use vstd::prelude::*;

verus! {

/// The two operations workers apply to the flag.
pub enum GuardOp {
    /// One atomic check-and-set: take the flag if it is free.
    TryAcquire,
    /// Clear the flag at the end of the pipeline.
    Release,
}

/// The flag after one operation.
pub open spec fn guard_next(busy: bool, op: GuardOp) -> bool {
    match op {
        GuardOp::TryAcquire => true,
        GuardOp::Release => false,
    }
}

/// Whether the operation lets its worker enter the pipeline.
pub open spec fn guard_granted(busy: bool, op: GuardOp) -> bool {
    op is TryAcquire && !busy
}

/// The flag after a whole run of operations.
pub open spec fn guard_run(busy: bool, ops: Seq<GuardOp>) -> bool
    decreases ops.len(),
{
    if ops.len() == 0 {
        busy
    } else {
        guard_run(guard_next(busy, ops[0]), ops.skip(1))
    }
}

/// The refresh-in-progress flag.
pub struct BusyFlag {
    busy: bool,
}

impl BusyFlag {
    /// Whether a refresh is in progress.
    pub closed spec fn is_busy(&self) -> bool {
        self.busy
    }

    /// A fresh flag: no refresh is in progress.
    pub fn new() -> (r: BusyFlag)
        ensures
            !r.is_busy(),
    {
        BusyFlag { busy: false }
    }

    /// The atomic check-and-set: takes the flag exactly when no refresh was in
    /// progress, and leaves it set either way.
    pub fn try_acquire(&mut self) -> (granted: bool)
        ensures
            granted == guard_granted(old(self).is_busy(), GuardOp::TryAcquire),
            final(self).is_busy() == guard_next(old(self).is_busy(), GuardOp::TryAcquire),
            granted == !old(self).is_busy(),
            final(self).is_busy(),
    {
        let granted = !self.busy;
        self.busy = true;
        granted
    }

    /// Clears the flag when the pipeline completes or fails.
    pub fn release(&mut self)
        requires
            old(self).is_busy(),
        ensures
            final(self).is_busy() == guard_next(old(self).is_busy(), GuardOp::Release),
            !final(self).is_busy(),
    {
        self.busy = false;
    }

    /// Reads the flag, for display only.
    pub fn is_processing(&self) -> (r: bool)
        ensures
            r == self.is_busy(),
    {
        self.busy
    }
}

/// Law: once a worker has taken the flag, the flag stays set through any run
/// of further entry attempts that holds no release, and none of those attempts
/// is granted — at most one refresh is in flight, and the flag reads busy for
/// the entire duration of that refresh.
pub proof fn lemma_busy_for_whole_refresh(ops: Seq<GuardOp>)
    requires
        forall|i: int| 0 <= i < ops.len() ==> !((#[trigger] ops[i]) is Release),
    ensures
        guard_run(true, ops),
        forall|i: int|
            0 <= i < ops.len() ==> !guard_granted(guard_run(true, ops.take(i)), #[trigger] ops[i]),
    decreases ops.len(),
{
    if ops.len() > 0 {
        assert(guard_next(true, ops[0]));
        lemma_busy_for_whole_refresh(ops.skip(1));
        assert forall|i: int| 0 <= i < ops.len() implies !guard_granted(
            guard_run(true, ops.take(i)),
            #[trigger] ops[i],
        ) by {
            if i == 0 {
                assert(ops.take(0) =~= Seq::<GuardOp>::empty());
            } else {
                let rest = ops.skip(1);
                assert(rest[i - 1] == ops[i]);
                assert(rest.take(i - 1) =~= ops.take(i).skip(1));
                assert(guard_run(true, ops.take(i)) == guard_run(
                    guard_next(true, ops.take(i)[0]),
                    ops.take(i).skip(1),
                ));
                assert(!guard_granted(guard_run(true, rest.take(i - 1)), rest[i - 1]));
            }
        }
    }
}

} // verus!
