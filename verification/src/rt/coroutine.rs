//! Replay bookkeeping of the task handle that runs the preempted function in
//! a coroutine.
use vstd::prelude::*;

use crate::rt::Fault;

verus! {

/// Counts the yields of the preempted function and decides at which of them
/// its coroutine suspends: the first `target_yield_count` yields are replayed
/// without suspending; the value that the scheduler resumes the coroutine with
/// becomes the next target.
#[derive(Clone, Copy, Debug, PartialEq, Eq)]
pub struct CoroTaskHandle {
    /// Yields seen so far.
    pub local_yield_count: usize,
    /// Yields to replay before suspending.
    pub target_yield_count: usize,
}

impl CoroTaskHandle {
    /// Whether the coroutine suspends at its next yield. A thread that is
    /// already panicking never suspends, so that it can unwind.
    pub open spec fn suspends(self, panicking: bool) -> bool {
        self.local_yield_count >= self.target_yield_count && !panicking
    }

    /// The handle after a yield; `resumed` is the value the coroutine was
    /// resumed with, if it suspended.
    pub open spec fn after_yield(self, resumed: Option<usize>) -> (Self, Result<(), Fault>) {
        if self.local_yield_count == usize::MAX {
            (self, Err(Fault::CounterOverflow))
        } else {
            (
                CoroTaskHandle {
                    local_yield_count: (self.local_yield_count + 1) as usize,
                    target_yield_count: match resumed {
                        Some(t) => t,
                        None => self.target_yield_count,
                    },
                },
                Ok(()),
            )
        }
    }

    /// The handle after `n` yields at which it did not suspend.
    pub open spec fn after_replayed(self, n: nat) -> Self
        decreases n,
    {
        if n == 0 {
            self
        } else {
            self.after_yield(None).0.after_replayed((n - 1) as nat)
        }
    }

    /// A handle that replays `target_yield_count` yields before it first suspends.
    pub fn new(target_yield_count: usize) -> (r: Self)
        ensures
            r.local_yield_count == 0,
            r.target_yield_count == target_yield_count,
    {
        CoroTaskHandle { local_yield_count: 0, target_yield_count }
    }

    /// Decides whether the coroutine suspends at this yield.
    pub fn should_suspend(&self, panicking: bool) -> (r: bool)
        ensures
            r == self.suspends(panicking),
    {
        self.local_yield_count >= self.target_yield_count && !panicking
    }

    /// Records a yield; `resumed` is the value the coroutine was resumed with,
    /// if it suspended.
    pub fn record_yield(&mut self, resumed: Option<usize>) -> (r: Result<(), Fault>)
        ensures
            (*final(self), r) == old(self).after_yield(resumed),
    {
        if self.local_yield_count == usize::MAX {
            Err(Fault::CounterOverflow)
        } else {
            self.local_yield_count = self.local_yield_count + 1;
            match resumed {
                Some(t) => {
                    self.target_yield_count = t;
                },
                None => {},
            }
            Ok(())
        }
    }

    /// Law: a fresh handle with target `t` replays the first `t` yields without
    /// suspending and suspends at the next one, unless the thread panics.
    pub proof fn lemma_replays_target(self, n: nat)
        requires
            self.local_yield_count == 0,
            n <= self.target_yield_count,
        ensures
            self.after_replayed(n).local_yield_count == n,
            self.after_replayed(n).target_yield_count == self.target_yield_count,
            self.after_replayed(n).suspends(false) <==> n == self.target_yield_count,
            !self.after_replayed(n).suspends(true),
    {
        self.lemma_replayed_from(n);
    }

    /// Law: once a handle's count has reached its target, the coroutine
    /// suspends at its next yield and at every later one that is not resumed
    /// with a new target, unless the thread panics: the preempted function is
    /// preempted at every atomic operation after the replayed ones.
    pub proof fn lemma_suspends_at_every_later_yield(self, n: nat)
        requires
            self.local_yield_count >= self.target_yield_count,
        ensures
            self.after_replayed(n).suspends(false),
            !self.after_replayed(n).suspends(true),
            self.after_replayed(n).target_yield_count == self.target_yield_count,
            self.after_replayed(n).local_yield_count >= self.local_yield_count,
        decreases n,
    {
        if n > 0 {
            self.after_yield(None).0.lemma_suspends_at_every_later_yield((n - 1) as nat);
        }
    }

    /// Law: a coroutine that the scheduler resumes with a target no later than
    /// its next yield suspends at that yield and at every yield after it.
    pub proof fn lemma_resumed_suspends_at_every_yield(self, t: usize, n: nat)
        requires
            self.local_yield_count < usize::MAX,
            t <= self.local_yield_count + 1,
        ensures
            self.after_yield(Some(t)).1 is Ok,
            self.after_yield(Some(t)).0.target_yield_count == t,
            self.after_yield(Some(t)).0.local_yield_count == self.local_yield_count + 1,
            self.after_yield(Some(t)).0.after_replayed(n).suspends(false),
    {
        self.after_yield(Some(t)).0.lemma_suspends_at_every_later_yield(n);
    }

    proof fn lemma_replayed_from(self, n: nat)
        requires
            self.local_yield_count + n <= self.target_yield_count,
        ensures
            self.after_replayed(n).local_yield_count == self.local_yield_count + n,
            self.after_replayed(n).target_yield_count == self.target_yield_count,
        decreases n,
    {
        if n > 0 {
            self.after_yield(None).0.lemma_replayed_from((n - 1) as nat);
        }
    }
}

} // verus!
