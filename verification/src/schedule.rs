//! How the checked function is run at each preemption point.
use vstd::prelude::*;

use crate::build_test::Model;
use crate::rt::{Fault, SourceLocation, YieldData};

pub mod linear_pairwise;

verus! {

/// Runs the checked function on the state that the preempted function works
/// on, with a fresh step budget for each check.
#[derive(Clone, Copy, Debug, Default, PartialEq, Eq)]
pub struct Shared;

/// Runs the checked function on a clone of the state, with a fresh step
/// budget for each check.
#[derive(Clone, Copy, Debug, Default, PartialEq, Eq)]
pub struct CloneCheck;

/// Retries the checked function at each preemption point; all the checks of
/// one exploration share one step budget.
#[derive(Clone, Copy, Debug, PartialEq, Eq)]
pub struct Retry {
    /// Atomic transitions that the checks of this exploration have made so far.
    pub steps: usize,
    /// The budget that all checks share.
    pub max_steps: usize,
}

/// The task handle of one retried check: it spends the budget that all the
/// checks of the exploration share.
#[derive(Clone, Copy, Debug, PartialEq, Eq)]
pub struct RetryHandle {
    /// The budget that all checks share.
    pub max_steps: usize,
    /// Where the preempted function waits while this check runs.
    pub loc: Option<SourceLocation>,
}

impl Shared {
    /// The strategy for `model`.
    pub fn new_with<I, F, D, C>(model: &Model<I, F, D, C>) -> Self {
        Shared
    }
}

impl CloneCheck {
    /// The strategy for `model`.
    pub fn new_with<I, F, D, C>(model: &Model<I, F, D, C>) -> Self {
        CloneCheck
    }

    /// The state on which a check runs: a clone of the state that the
    /// preempted function works on, so that the check's writes stay invisible
    /// to the preempted function and to later checks.
    pub fn check_state<D: Clone>(&self, state: &D) -> (r: D)
        ensures
            cloned(*state, r),
    {
        state.clone()
    }
}

impl Retry {
    /// The strategy for `model`: its checks share the model's step budget.
    pub fn new_with<I, F, D, C>(model: &Model<I, F, D, C>) -> (r: Self)
        ensures
            r.steps == 0,
            r.max_steps == model.steps,
    {
        Retry { steps: 0, max_steps: model.steps }
    }

    /// Records the shared counter as a check left it, for the checks that follow.
    pub fn record_steps(&mut self, steps: usize)
        ensures
            *final(self) == (Retry { steps, ..*old(self) }),
    {
        self.steps = steps;
    }

    /// The handle of a check that runs while the preempted function waits at `loc`.
    pub fn handle(&self, loc: Option<SourceLocation>) -> (r: RetryHandle)
        ensures
            r.max_steps == self.max_steps,
            r.loc == loc,
    {
        RetryHandle { max_steps: self.max_steps, loc }
    }
}

impl RetryHandle {
    /// The shared counter after a yield with `payload`, and whether it was accepted.
    pub open spec fn after_yield(self, steps: usize, payload: YieldData) -> (usize, Result<(), Fault>) {
        match payload {
            YieldData::AtomicTransition(l) => if steps < self.max_steps {
                ((steps + 1) as usize, Ok(()))
            } else {
                (
                    steps,
                    Err(
                        Fault::StepLimitExceeded {
                            max_steps: self.max_steps,
                            preempted_at: self.loc,
                            evaluating: l,
                        },
                    ),
                )
            },
            YieldData::Complete => (steps, Ok(())),
            YieldData::Terminated => (steps, Err(Fault::Terminated)),
        }
    }

    /// Law: a retried check's atomic transition is accepted exactly while the
    /// shared counter is below the budget, whatever the transition's location;
    /// an accepted transition raises the counter by one, a refused one leaves
    /// it and names the preemption point and the refused operation. Completion
    /// is free and termination is a fault.
    pub proof fn lemma_retry_transition(self, steps: usize, l: Option<SourceLocation>)
        ensures
            (self.after_yield(steps, YieldData::AtomicTransition(l)).1 is Ok) <==> steps < self.max_steps,
            steps < self.max_steps ==> self.after_yield(steps, YieldData::AtomicTransition(l)).0 == steps + 1,
            steps >= self.max_steps ==> self.after_yield(steps, YieldData::AtomicTransition(l)) == (
                steps,
                Err::<(), Fault>(
                    Fault::StepLimitExceeded {
                        max_steps: self.max_steps,
                        preempted_at: self.loc,
                        evaluating: l,
                    },
                ),
            ),
            self.after_yield(steps, YieldData::Complete) == (steps, Ok::<(), Fault>(())),
            self.after_yield(steps, YieldData::Terminated) == (steps, Err::<(), Fault>(Fault::Terminated)),
    {
    }

    /// Handles a yield of the checked function against the shared counter `steps`.
    pub fn yield_now(&self, steps: &mut usize, payload: YieldData) -> (r: Result<(), Fault>)
        ensures
            (*final(steps), r) == self.after_yield(*old(steps), payload),
    {
        match payload {
            YieldData::AtomicTransition(l) => {
                if *steps < self.max_steps {
                    *steps = *steps + 1;
                    Ok(())
                } else {
                    Err(
                        Fault::StepLimitExceeded {
                            max_steps: self.max_steps,
                            preempted_at: self.loc,
                            evaluating: l,
                        },
                    )
                }
            },
            YieldData::Complete => Ok(()),
            YieldData::Terminated => Err(Fault::Terminated),
        }
    }
}

/// Whether each of a series of atomic transitions, made through the handles
/// `hs` in turn from the shared counter `steps`, is accepted.
pub open spec fn retry_accepts(hs: Seq<RetryHandle>, steps: usize) -> Seq<bool>
    decreases hs.len(),
{
    if hs.len() == 0 {
        Seq::empty()
    } else {
        let (s1, r) = hs[0].after_yield(steps, YieldData::AtomicTransition(None));
        seq![r is Ok] + retry_accepts(hs.drop_first(), s1)
    }
}

/// Law: the checks of `check_retry` share one budget: however the atomic
/// transitions are spread over the checks, a transition is accepted exactly
/// while fewer than `max_steps` transitions have been accepted in all.
pub proof fn lemma_retry_budget_is_shared(hs: Seq<RetryHandle>, max_steps: usize, steps: usize)
    requires
        steps <= max_steps,
        forall|i: int| 0 <= i < hs.len() ==> (#[trigger] hs[i]).max_steps == max_steps,
    ensures
        retry_accepts(hs, steps) == Seq::new(hs.len(), |i: int| steps + i < max_steps),
    decreases hs.len(),
{
    if hs.len() > 0 {
        let s1 = hs[0].after_yield(steps, YieldData::AtomicTransition(None)).0;
        let rest = hs.drop_first();
        assert forall|i: int| 0 <= i < rest.len() implies (#[trigger] rest[i]).max_steps == max_steps by {
            assert(rest[i] == hs[i + 1]);
        }
        lemma_retry_budget_is_shared(rest, max_steps, s1);
        if steps < max_steps {
            assert(s1 == steps + 1);
        } else {
            assert(s1 == steps);
        }
        assert(retry_accepts(hs, steps) =~= Seq::new(hs.len(), |i: int| steps + i < max_steps));
    } else {
        assert(retry_accepts(hs, steps) =~= Seq::new(hs.len(), |i: int| steps + i < max_steps));
    }
}

} // verus!
