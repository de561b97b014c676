//! The model builder.
use std::ops::ControlFlow;
use vstd::prelude::*;

use crate::schedule::linear_pairwise::{Phase, PersistentPairwise, RestartPairwise};
use crate::schedule::{CloneCheck, Retry, Shared};

verus! {

/// Configures a model check.
#[derive(Debug)]
#[non_exhaustive]
pub struct ModelBuilder {
    max_steps: usize,
}

impl View for ModelBuilder {
    type V = usize;

    /// The step budget of each check.
    closed spec fn view(&self) -> usize {
        self.max_steps
    }
}

impl ModelBuilder {
    /// Constructs a new `ModelBuilder` with a budget of 100 000 steps.
    pub fn new() -> (r: Self)
        ensures
            r@ == 100_000,
    {
        ModelBuilder { max_steps: 100_000 }
    }

    /// Sets the maximum number of steps.
    pub fn with_steps(self, max_steps: usize) -> (r: Self)
        ensures
            r@ == max_steps,
    {
        let mut s = self;
        s.max_steps = max_steps;
        s
    }

    /// The maximum number of steps.
    pub fn max_steps(&self) -> (r: usize)
        ensures
            r == self@,
    {
        self.max_steps
    }

    /// Checks the model by checking `checked` against each preemption point in
    /// `preempted`. To ensure consistent state, `preempted` is replayed up to
    /// the last checked point at each iteration: the model is explored with the
    /// restart schedule and the checks run on the shared state.
    ///
    /// The runtime drives the returned check to its end.
    pub fn check_pairwise<I, F, D, C>(&self, init: I, preempted: F, checked: C) -> (r: PreparedCheck<I, F, D, C, RestartPairwise<Shared>>)
        where
            I: Fn() -> D,
            F: Fn(&D),
            C: Fn(&D) -> ControlFlow<()>,
            D: Sync,
        ensures
            r.model.init_fn == init,
            r.model.preempted_fn == preempted,
            r.model.checked_fn == checked,
            r.model.steps == self@,
            r.schedule.at_run_start(0),
    {
        let model = Model::new(init, preempted, checked, self.max_steps);
        let strategy = Shared::new_with(&model);
        PreparedCheck { schedule: RestartPairwise::new(strategy), model }
    }

    /// Checks the model by checking `checked` against each preemption point in
    /// `preempted`. To ensure consistent state the state `D` is cloned at each
    /// iteration: the model is explored with the persistent schedule, which
    /// runs `preempted` once.
    ///
    /// The runtime drives the returned check to its end.
    pub fn check_pairwise_clone<I, F, D, C>(&self, init: I, preempted: F, checked: C) -> (r: PreparedCheck<I, F, D, C, PersistentPairwise<CloneCheck>>)
        where
            I: Fn() -> D,
            F: Fn(&D),
            C: Fn(&D) -> ControlFlow<()>,
            D: Sync + Clone,
        ensures
            r.model.init_fn == init,
            r.model.preempted_fn == preempted,
            r.model.checked_fn == checked,
            r.model.steps == self@,
            r.schedule.phase == Phase::Running,
    {
        let model = Model::new(init, preempted, checked, self.max_steps);
        let strategy = CloneCheck::new_with(&model);
        PreparedCheck { schedule: PersistentPairwise::new(strategy), model }
    }

    /// Checks the model by interpreting `checked` as a retry loop on `D` during
    /// `preempted`: the model is explored with the persistent schedule and all
    /// checks share one step budget, so the retry loop must complete in
    /// bounded time.
    ///
    /// The runtime drives the returned check to its end.
    pub fn check_retry<I, F, D, C>(&self, init: I, preempted: F, checked: C) -> (r: PreparedCheck<I, F, D, C, PersistentPairwise<Retry>>)
        where
            I: Fn() -> D,
            F: Fn(&D),
            C: Fn(&D) -> ControlFlow<()>,
            D: Sync,
        ensures
            r.model.init_fn == init,
            r.model.preempted_fn == preempted,
            r.model.checked_fn == checked,
            r.model.steps == self@,
            r.schedule.phase == Phase::Running,
            r.schedule.strategy_provider.max_steps == self@,
            r.schedule.strategy_provider.steps == 0,
    {
        let model = Model::new(init, preempted, checked, self.max_steps);
        let strategy = Retry::new_with(&model);
        PreparedCheck { schedule: PersistentPairwise::new(strategy), model }
    }
}

impl Default for ModelBuilder {
    fn default() -> (r: Self)
        ensures
            r@ == 100_000,
    {
        Self::new()
    }
}

/// A model together with the schedule that explores it, ready for the runtime.
/// Nothing is checked until the runtime drives it.
#[must_use]
pub struct PreparedCheck<I, F, D, C, T> {
    /// The exploration schedule, with the strategy that runs the checks.
    pub schedule: T,
    /// The model.
    pub model: Model<I, F, D, C>,
}

} // verus!

verus! {

/// The three functions of a model and the step budget of each check.
pub struct Model<I, F, D, C> {
    /// Creates the shared state.
    pub init_fn: I,
    /// The function that is preempted at its atomic transitions.
    pub preempted_fn: F,
    /// The function that must make progress while the other is preempted.
    pub checked_fn: C,
    /// The step budget of each check.
    pub steps: usize,
    /// Ties the model to the type of its state.
    pub phantom: std::marker::PhantomData<D>,
}

impl<I, F, D, C> Model<I, F, D, C> {
    /// Bundles the functions and the budget.
    pub fn new(init_fn: I, preempted_fn: F, checked_fn: C, steps: usize) -> (r: Self)
        ensures
            r.init_fn == init_fn,
            r.preempted_fn == preempted_fn,
            r.checked_fn == checked_fn,
            r.steps == steps,
    {
        Model { init_fn, preempted_fn, checked_fn, steps, phantom: std::marker::PhantomData }
    }

    /// The function that creates the state.
    pub fn init_fn(&self) -> (r: &I)
        ensures
            *r == self.init_fn,
    {
        &self.init_fn
    }

    /// The preempted function.
    pub fn preemptible_fn(&self) -> (r: &F)
        ensures
            *r == self.preempted_fn,
    {
        &self.preempted_fn
    }

    /// The checked function.
    pub fn checked_fn(&self) -> (r: &C)
        ensures
            *r == self.checked_fn,
    {
        &self.checked_fn
    }
}

} // verus!
