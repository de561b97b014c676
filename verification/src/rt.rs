//! Yield payloads, faults and the step budget of a check.
use vstd::prelude::*;

pub mod coroutine;
pub mod thread;

verus! {

/// Where an atomic operation was issued in the user's source: file, line and column.
#[derive(Clone, Copy, Debug, PartialEq, Eq, Hash)]
pub struct SourceLocation {
    /// The file of the call.
    pub file: &'static str,
    /// The line of the call.
    pub line: u32,
    /// The column of the call.
    pub column: u32,
}

/// What a task reports to its scheduler when it yields.
#[derive(Clone, Copy, Debug, PartialEq, Eq, Hash)]
pub enum YieldData {
    /// The task is about to perform an atomic operation at the given location.
    AtomicTransition(Option<SourceLocation>),
    /// The task completed.
    Complete,
    /// The task was terminated.
    Terminated,
}

/// Why a check cannot go on. The runtime turns each fault into a panic.
#[derive(Clone, Copy, Debug, PartialEq, Eq)]
pub enum Fault {
    /// A check made more atomic transitions than its budget allows: it spins
    /// while the other thread is preempted.
    StepLimitExceeded {
        /// The budget of the check.
        max_steps: usize,
        /// Where the other thread was preempted, if it was.
        preempted_at: Option<SourceLocation>,
        /// The operation that the check was about to evaluate.
        evaluating: Option<SourceLocation>,
    },
    /// A task reported that it was terminated.
    Terminated,
    /// An event arrived that the schedule never expects in its current phase.
    Unreachable,
    /// A counter of the schedule would leave its machine range.
    CounterOverflow,
}

/// The step budget of one run of the checked function: it counts the atomic
/// transitions that the check makes and refuses the one that exceeds the limit.
#[derive(Clone, Copy, Debug, PartialEq, Eq)]
pub struct CheckedTaskHandle {
    /// Transitions accepted so far.
    pub current_steps: usize,
    /// The most transitions the check may make.
    pub max_steps: usize,
    /// Where the preempted thread stands while this check runs, if it is preempted.
    pub preempted_location: Option<SourceLocation>,
}

impl CheckedTaskHandle {
    /// The budget after one atomic transition at `loc`, and whether it was accepted.
    pub open spec fn after_step(self, loc: Option<SourceLocation>) -> (Self, Result<(), Fault>) {
        if self.current_steps < self.max_steps {
            (
                CheckedTaskHandle { current_steps: (self.current_steps + 1) as usize, ..self },
                Ok(()),
            )
        } else {
            (
                self,
                Err(
                    Fault::StepLimitExceeded {
                        max_steps: self.max_steps,
                        preempted_at: self.preempted_location,
                        evaluating: loc,
                    },
                ),
            )
        }
    }

    /// The budget after a yield with `payload`, and whether it was accepted.
    pub open spec fn after_yield(self, payload: YieldData) -> (Self, Result<(), Fault>) {
        match payload {
            YieldData::AtomicTransition(loc) => self.after_step(loc),
            YieldData::Complete => (self, Ok(())),
            YieldData::Terminated => (self, Err(Fault::Terminated)),
        }
    }

    /// The budget after `n` accepted-or-refused transitions without a location.
    pub open spec fn after_steps(self, n: nat) -> Self
        decreases n,
    {
        if n == 0 {
            self
        } else {
            self.after_step(None).0.after_steps((n - 1) as nat)
        }
    }

    /// Law: a check may make exactly `max_steps` atomic transitions: after `n`
    /// transitions from a fresh budget the count is `min(n, max_steps)`, and the
    /// next transition is accepted exactly when `n < max_steps`; the refusal
    /// names the budget, the preemption point and the refused operation.
    pub proof fn lemma_budget_admits_max_steps(self, n: nat, loc: Option<SourceLocation>)
        requires
            self.current_steps == 0,
        ensures
            self.after_steps(n).current_steps == if n < self.max_steps { n as int } else { self.max_steps as int },
            self.after_steps(n).max_steps == self.max_steps,
            self.after_steps(n).preempted_location == self.preempted_location,
            (self.after_steps(n).after_step(loc).1 is Ok) <==> n < self.max_steps,
            n >= self.max_steps ==> self.after_steps(n).after_step(loc).1 == Err::<(), Fault>(
                Fault::StepLimitExceeded {
                    max_steps: self.max_steps,
                    preempted_at: self.preempted_location,
                    evaluating: loc,
                },
            ),
    {
        self.lemma_after_steps(n);
    }

    /// Law: one atomic transition of a check is accepted exactly while fewer
    /// than `max_steps` have been accepted, whatever its location; an accepted
    /// transition raises the count by one, a refused one leaves the budget and
    /// names the preemption point and the refused operation. Completion is free
    /// and termination is a fault.
    pub proof fn lemma_step_any_location(self, loc: Option<SourceLocation>)
        ensures
            (self.after_step(loc).1 is Ok) <==> self.current_steps < self.max_steps,
            self.current_steps < self.max_steps ==> self.after_step(loc).0.current_steps == self.current_steps + 1,
            self.after_step(loc).0.max_steps == self.max_steps,
            self.after_step(loc).0.preempted_location == self.preempted_location,
            self.current_steps >= self.max_steps ==> self.after_step(loc) == (
                self,
                Err::<(), Fault>(
                    Fault::StepLimitExceeded {
                        max_steps: self.max_steps,
                        preempted_at: self.preempted_location,
                        evaluating: loc,
                    },
                ),
            ),
            self.after_yield(YieldData::AtomicTransition(loc)) == self.after_step(loc),
            self.after_yield(YieldData::Complete) == (self, Ok::<(), Fault>(())),
            self.after_yield(YieldData::Terminated) == (self, Err::<(), Fault>(Fault::Terminated)),
    {
    }

    proof fn lemma_after_steps(self, n: nat)
        requires
            self.current_steps <= self.max_steps,
        ensures
            self.after_steps(n).current_steps == if self.current_steps + n < self.max_steps {
                self.current_steps + n
            } else {
                self.max_steps as int
            },
            self.after_steps(n).max_steps == self.max_steps,
            self.after_steps(n).preempted_location == self.preempted_location,
        decreases n,
    {
        if n > 0 {
            self.after_step(None).0.lemma_after_steps((n - 1) as nat);
        }
    }

    /// A fresh budget of `max_steps` transitions.
    pub fn new(max_steps: usize) -> (r: Self)
        ensures
            r.current_steps == 0,
            r.max_steps == max_steps,
            r.preempted_location is None,
    {
        CheckedTaskHandle { current_steps: 0, max_steps, preempted_location: None }
    }

    /// The same budget, recording where the other thread is preempted.
    pub fn with_preempted_loc(self, preempted_location: SourceLocation) -> (r: Self)
        ensures
            r == (CheckedTaskHandle { preempted_location: Some(preempted_location), ..self }),
    {
        let mut s = self;
        s.preempted_location = Some(preempted_location);
        s
    }

    /// Counts one atomic transition at `loc`; refuses it once the budget is spent.
    pub fn step(&mut self, loc: Option<SourceLocation>) -> (r: Result<(), Fault>)
        ensures
            (*final(self), r) == old(self).after_step(loc),
    {
        if self.current_steps < self.max_steps {
            self.current_steps = self.current_steps + 1;
            Ok(())
        } else {
            Err(
                Fault::StepLimitExceeded {
                    max_steps: self.max_steps,
                    preempted_at: self.preempted_location,
                    evaluating: loc,
                },
            )
        }
    }

    /// Handles a yield of the checked function: a transition spends one step,
    /// completion is free, termination is a fault.
    pub fn yield_now(&mut self, payload: YieldData) -> (r: Result<(), Fault>)
        ensures
            (*final(self), r) == old(self).after_yield(payload),
    {
        match payload {
            YieldData::AtomicTransition(loc) => self.step(loc),
            YieldData::Complete => Ok(()),
            YieldData::Terminated => Err(Fault::Terminated),
        }
    }
}

} // verus!
