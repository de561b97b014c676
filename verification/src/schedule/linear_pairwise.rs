//! The two exploration schedules of a pairwise check, as state machines.
//!
//! The runtime owns the coroutine that runs the preempted function and the
//! calls of the checked function. It reports what happened as an [`Event`]
//! and performs the [`Action`] that the schedule answers.
use std::ops::ControlFlow;
use vstd::prelude::*;

use crate::build_test::Model;
use crate::rt::{CheckedTaskHandle, Fault, SourceLocation, YieldData};

verus! {

/// Where an exploration stands.
#[derive(Clone, Copy, Debug, PartialEq, Eq)]
pub enum Phase {
    /// The preempted function is running (or replaying) in its coroutine.
    Running,
    /// The checked function runs while the preempted one waits before an atomic transition.
    CheckingTransition,
    /// The checked function runs after the preempted one returned.
    CheckingEnd,
    /// The exploration is over.
    Done,
}

/// What the runtime reports to a schedule.
#[derive(Clone, Copy, Debug, PartialEq, Eq)]
pub enum Event {
    /// The coroutine of the preempted function yielded.
    Yielded(YieldData),
    /// The coroutine of the preempted function returned.
    Returned,
    /// The checked function returned.
    Checked(ControlFlow<()>),
}

/// What a schedule asks the runtime to do next.
#[derive(Clone, Copy, Debug, PartialEq, Eq)]
pub enum Action {
    /// Resume the coroutine of the preempted function.
    Resume,
    /// Run the checked function; the location is where the preempted function
    /// waits, or none when it has returned.
    RunCheck(Option<SourceLocation>),
    /// Unwind the coroutine, create the state anew and start the preempted
    /// function again in a fresh coroutine.
    Restart,
    /// The exploration is over.
    Stop,
}

/// The event of an atomic transition of the preempted function at `loc`.
pub open spec fn transition_event(loc: Option<SourceLocation>) -> Event {
    Event::Yielded(YieldData::AtomicTransition(loc))
}

/// The event of a check that lets the exploration go on.
pub open spec fn continue_event() -> Event {
    Event::Checked(ControlFlow::Continue(()))
}

/// Checks the checked function at each preemption point of the preempted
/// function, replaying the preempted function from a fresh state up to that
/// point each time.
pub struct RestartPairwise<S> {
    /// Runs the checked function.
    pub strategy_provider: S,
    /// How many preemption points have been checked: the next run checks at
    /// transition number `yields`.
    pub yields: usize,
    /// How many transitions the current run has replayed.
    pub current_yields: usize,
    /// Where the exploration stands.
    pub phase: Phase,
}

impl<S> RestartPairwise<S> {
    /// The state at the start of the run that checks preemption point `k`.
    pub open spec fn at_run_start(self, k: usize) -> bool {
        &&& self.phase == Phase::Running
        &&& self.current_yields == 0
        &&& self.yields == k
    }

    /// One step of the schedule: the next state and what the runtime must do.
    pub open spec fn next(self, event: Event) -> (Self, Result<Action, Fault>) {
        match self.phase {
            Phase::Running => match event {
                Event::Yielded(YieldData::AtomicTransition(loc)) => if self.current_yields
                    < self.yields {
                    (
                        RestartPairwise {
                            current_yields: (self.current_yields + 1) as usize,
                            ..self
                        },
                        Ok(Action::Resume),
                    )
                } else {
                    (
                        RestartPairwise { phase: Phase::CheckingTransition, ..self },
                        Ok(Action::RunCheck(loc)),
                    )
                },
                Event::Returned => (
                    RestartPairwise { phase: Phase::CheckingEnd, ..self },
                    Ok(Action::RunCheck(None)),
                ),
                _ => (self, Err(Fault::Unreachable)),
            },
            Phase::CheckingTransition => match event {
                Event::Checked(r) => if self.yields == usize::MAX {
                    (self, Err(Fault::CounterOverflow))
                } else {
                    match r {
                        ControlFlow::Continue(_) => (
                            RestartPairwise {
                                yields: (self.yields + 1) as usize,
                                current_yields: 0,
                                phase: Phase::Running,
                                ..self
                            },
                            Ok(Action::Restart),
                        ),
                        ControlFlow::Break(_) => (
                            RestartPairwise {
                                yields: (self.yields + 1) as usize,
                                phase: Phase::Done,
                                ..self
                            },
                            Ok(Action::Stop),
                        ),
                    }
                },
                _ => (self, Err(Fault::Unreachable)),
            },
            Phase::CheckingEnd => match event {
                Event::Checked(_) => (RestartPairwise { phase: Phase::Done, ..self }, Ok(Action::Stop)),
                _ => (self, Err(Fault::Unreachable)),
            },
            Phase::Done => (self, Err(Fault::Unreachable)),
        }
    }

    /// Feeds one run of a preempted function that emits the transitions at
    /// `locs` and then returns, as long as the schedule answers `Resume`.
    pub open spec fn drive(self, locs: Seq<Option<SourceLocation>>) -> (Self, Result<Action, Fault>)
        decreases locs.len(),
    {
        if locs.len() == 0 {
            self.next(Event::Returned)
        } else {
            let (s1, a) = self.next(transition_event(locs[0]));
            if a == Ok::<Action, Fault>(Action::Resume) {
                s1.drive(locs.drop_first())
            } else {
                (s1, a)
            }
        }
    }

    /// The locations at which the checked function runs during a whole
    /// exploration in which every run of the preempted function emits the
    /// transitions at `locs` and every check lets the exploration go on.
    pub open spec fn explored(self, locs: Seq<Option<SourceLocation>>, fuel: nat) -> Seq<
        Option<SourceLocation>,
    >
        decreases fuel,
    {
        let (s1, a) = self.drive(locs);
        match a {
            Ok(Action::RunCheck(l)) => {
                let (s2, a2) = s1.next(continue_event());
                if a2 == Ok::<Action, Fault>(Action::Restart) && fuel > 0 {
                    seq![l] + s2.explored(locs, (fuel - 1) as nat)
                } else {
                    seq![l]
                }
            },
            _ => Seq::empty(),
        }
    }


    /// Feeding the transitions `q` to a run that has replayed `current_yields`
    /// of the `yields` transitions it must skip.
    proof fn lemma_drive_from(self, q: Seq<Option<SourceLocation>>)
        requires
            self.phase == Phase::Running,
            self.current_yields <= self.yields,
        ensures
            self.yields - self.current_yields < q.len() ==> self.drive(q) == (
                RestartPairwise {
                    current_yields: self.yields,
                    phase: Phase::CheckingTransition,
                    ..self
                },
                Ok::<Action, Fault>(Action::RunCheck(q[self.yields - self.current_yields])),
            ),
            self.yields - self.current_yields >= q.len() ==> self.drive(q) == (
                RestartPairwise {
                    current_yields: (self.current_yields + q.len()) as usize,
                    phase: Phase::CheckingEnd,
                    ..self
                },
                Ok::<Action, Fault>(Action::RunCheck(None)),
            ),
        decreases q.len(),
    {
        if q.len() > 0 && self.current_yields < self.yields {
            let s1 = RestartPairwise { current_yields: (self.current_yields + 1) as usize, ..self };
            s1.lemma_drive_from(q.drop_first());
        }
    }

    /// Law: the run that starts after `k` checked preemption points replays the
    /// first `k` atomic transitions of the preempted function and runs the
    /// checked function right before transition number `k`; when the preempted
    /// function makes no more than `k` transitions, the check runs after it returns.
    pub proof fn lemma_restart_run_checks_point(self, k: usize, locs: Seq<Option<SourceLocation>>)
        requires
            self.at_run_start(k),
        ensures
            k < locs.len() ==> self.drive(locs) == (
                RestartPairwise { current_yields: k, phase: Phase::CheckingTransition, ..self },
                Ok::<Action, Fault>(Action::RunCheck(locs[k as int])),
            ),
            k >= locs.len() ==> self.drive(locs) == (
                RestartPairwise {
                    current_yields: locs.len() as usize,
                    phase: Phase::CheckingEnd,
                    ..self
                },
                Ok::<Action, Fault>(Action::RunCheck(None)),
            ),
    {
        self.lemma_drive_from(locs);
    }

    /// Law: when every check lets the exploration go on, the restart schedule
    /// runs the checked function before every atomic transition of the
    /// preempted function, in order, and once more after it returns; then it stops.
    pub proof fn lemma_restart_explores_every_point(self, locs: Seq<Option<SourceLocation>>)
        requires
            self.at_run_start(0),
            locs.len() < usize::MAX,
        ensures
            self.explored(locs, locs.len()) == locs.push(None),
    {
        self.lemma_explores_from(0, locs);
        assert(locs.subrange(0, locs.len() as int) =~= locs);
    }

    proof fn lemma_explores_from(self, k: usize, locs: Seq<Option<SourceLocation>>)
        requires
            self.at_run_start(k),
            k <= locs.len() < usize::MAX,
        ensures
            self.explored(locs, (locs.len() - k) as nat) == locs.subrange(k as int, locs.len() as int).push(None),
        decreases locs.len() - k,
    {
        self.lemma_restart_run_checks_point(k, locs);
        if k < locs.len() {
            let s1 = RestartPairwise { current_yields: k, phase: Phase::CheckingTransition, ..self };
            let s2 = RestartPairwise { yields: (k + 1) as usize, current_yields: 0, phase: Phase::Running, ..self };
            assert(s1.next(continue_event()) == (s2, Ok::<Action, Fault>(Action::Restart)));
            s2.lemma_explores_from((k + 1) as usize, locs);
            assert(seq![locs[k as int]] + locs.subrange(k + 1, locs.len() as int).push(None)
                =~= locs.subrange(k as int, locs.len() as int).push(None));
        } else {
            let s1 = RestartPairwise { current_yields: locs.len() as usize, phase: Phase::CheckingEnd, ..self };
            assert(s1.next(continue_event()).1 == Ok::<Action, Fault>(Action::Stop));
            assert(locs.subrange(k as int, locs.len() as int) =~= Seq::<Option<SourceLocation>>::empty());
            assert(seq![None::<SourceLocation>] =~= Seq::<Option<SourceLocation>>::empty().push(None));
        }
    }

    /// Law: a check that breaks, and the check after the preempted function
    /// returned, end the exploration; an ended exploration accepts no event.
    pub proof fn lemma_restart_stops(self, event: Event)
        ensures
            self.phase == Phase::CheckingTransition && self.yields < usize::MAX
                ==> self.next(Event::Checked(ControlFlow::Break(()))).1 == Ok::<Action, Fault>(Action::Stop)
                && self.next(Event::Checked(ControlFlow::Break(()))).0.phase == Phase::Done,
            self.phase == Phase::CheckingEnd ==> (event matches Event::Checked(_)
                ==> self.next(event) == (RestartPairwise { phase: Phase::Done, ..self }, Ok::<Action, Fault>(Action::Stop))),
            self.phase == Phase::Done ==> self.next(event) == (self, Err::<Action, Fault>(Fault::Unreachable)),
    {
    }

    /// A schedule that has checked no preemption point yet.
    pub fn new(strategy_provider: S) -> (r: Self)
        ensures
            r.at_run_start(0),
            r.strategy_provider == strategy_provider,
    {
        RestartPairwise { strategy_provider, yields: 0, current_yields: 0, phase: Phase::Running }
    }

    /// Takes one event of the runtime and answers with the next action.
    pub fn step(&mut self, event: Event) -> (r: Result<Action, Fault>)
        ensures
            (*final(self), r) == old(self).next(event),
    {
        match self.phase {
            Phase::Running => match event {
                Event::Yielded(YieldData::AtomicTransition(loc)) => {
                    if self.current_yields < self.yields {
                        self.current_yields = self.current_yields + 1;
                        Ok(Action::Resume)
                    } else {
                        self.phase = Phase::CheckingTransition;
                        Ok(Action::RunCheck(loc))
                    }
                },
                Event::Returned => {
                    self.phase = Phase::CheckingEnd;
                    Ok(Action::RunCheck(None))
                },
                _ => Err(Fault::Unreachable),
            },
            Phase::CheckingTransition => match event {
                Event::Checked(r) => {
                    if self.yields == usize::MAX {
                        Err(Fault::CounterOverflow)
                    } else {
                        self.yields = self.yields + 1;
                        match r {
                            ControlFlow::Continue(_) => {
                                self.current_yields = 0;
                                self.phase = Phase::Running;
                                Ok(Action::Restart)
                            },
                            ControlFlow::Break(_) => {
                                self.phase = Phase::Done;
                                Ok(Action::Stop)
                            },
                        }
                    }
                },
                _ => Err(Fault::Unreachable),
            },
            Phase::CheckingEnd => match event {
                Event::Checked(_) => {
                    self.phase = Phase::Done;
                    Ok(Action::Stop)
                },
                _ => Err(Fault::Unreachable),
            },
            Phase::Done => Err(Fault::Unreachable),
        }
    }
}

} // verus!

verus! {

/// Runs the preempted function once, and runs the checked function at each of
/// its preemption points on the state as it stands.
pub struct PersistentPairwise<S> {
    /// Runs the checked function.
    pub strategy_provider: S,
    /// Where the exploration stands.
    pub phase: Phase,
}

impl<S> PersistentPairwise<S> {
    /// One step of the schedule: the next state and what the runtime must do.
    pub open spec fn next(self, event: Event) -> (Self, Result<Action, Fault>) {
        match self.phase {
            Phase::Running => match event {
                Event::Yielded(YieldData::AtomicTransition(loc)) => (
                    PersistentPairwise { phase: Phase::CheckingTransition, ..self },
                    Ok(Action::RunCheck(loc)),
                ),
                Event::Returned => (
                    PersistentPairwise { phase: Phase::CheckingEnd, ..self },
                    Ok(Action::RunCheck(None)),
                ),
                _ => (self, Err(Fault::Unreachable)),
            },
            Phase::CheckingTransition => match event {
                Event::Checked(ControlFlow::Continue(_)) => (
                    PersistentPairwise { phase: Phase::Running, ..self },
                    Ok(Action::Resume),
                ),
                Event::Checked(ControlFlow::Break(_)) => (
                    PersistentPairwise { phase: Phase::Done, ..self },
                    Ok(Action::Stop),
                ),
                _ => (self, Err(Fault::Unreachable)),
            },
            Phase::CheckingEnd => match event {
                Event::Checked(_) => (
                    PersistentPairwise { phase: Phase::Done, ..self },
                    Ok(Action::Stop),
                ),
                _ => (self, Err(Fault::Unreachable)),
            },
            Phase::Done => (self, Err(Fault::Unreachable)),
        }
    }

    /// The locations at which the checked function runs while the preempted
    /// function emits the transitions at `locs` and then returns, when every
    /// check lets the exploration go on.
    pub open spec fn explored(self, locs: Seq<Option<SourceLocation>>) -> Seq<Option<SourceLocation>>
        decreases locs.len(),
    {
        if locs.len() == 0 {
            match self.next(Event::Returned).1 {
                Ok(Action::RunCheck(l)) => seq![l],
                _ => Seq::empty(),
            }
        } else {
            let (s1, a) = self.next(transition_event(locs[0]));
            match a {
                Ok(Action::RunCheck(l)) => {
                    let (s2, a2) = s1.next(continue_event());
                    if a2 == Ok::<Action, Fault>(Action::Resume) {
                        seq![l] + s2.explored(locs.drop_first())
                    } else {
                        seq![l]
                    }
                },
                _ => Seq::empty(),
            }
        }
    }

    /// Law: the persistent schedule never restarts the preempted function: it
    /// runs once, on one state.
    pub proof fn lemma_persistent_never_restarts(self, event: Event)
        ensures
            self.next(event).1 != Ok::<Action, Fault>(Action::Restart),
    {
    }

    /// Law: when every check lets the exploration go on, the persistent
    /// schedule runs the checked function before every atomic transition of the
    /// preempted function, in order, and once more after it returns.
    pub proof fn lemma_persistent_explores_every_point(self, locs: Seq<Option<SourceLocation>>)
        requires
            self.phase == Phase::Running,
        ensures
            self.explored(locs) == locs.push(None),
        decreases locs.len(),
    {
        if locs.len() > 0 {
            let s2 = PersistentPairwise { phase: Phase::Running, ..self };
            s2.lemma_persistent_explores_every_point(locs.drop_first());
            assert(seq![locs[0]] + locs.drop_first().push(None) =~= locs.push(None));
        } else {
            assert(seq![None::<SourceLocation>] =~= locs.push(None));
        }
    }

    /// Law: a check that breaks, and the check after the preempted function
    /// returned, end the exploration; an ended exploration accepts no event.
    pub proof fn lemma_persistent_stops(self, event: Event)
        ensures
            self.phase == Phase::CheckingTransition ==> self.next(
                Event::Checked(ControlFlow::Break(())),
            ) == (PersistentPairwise { phase: Phase::Done, ..self }, Ok::<Action, Fault>(Action::Stop)),
            self.phase == Phase::CheckingEnd ==> (event matches Event::Checked(_) ==> self.next(event)
                == (PersistentPairwise { phase: Phase::Done, ..self }, Ok::<Action, Fault>(Action::Stop))),
            self.phase == Phase::Done ==> self.next(event) == (self, Err::<Action, Fault>(Fault::Unreachable)),
    {
    }

    /// A schedule at the start of the preempted function.
    pub fn new(strategy_provider: S) -> (r: Self)
        ensures
            r.phase == Phase::Running,
            r.strategy_provider == strategy_provider,
    {
        PersistentPairwise { strategy_provider, phase: Phase::Running }
    }

    /// Takes one event of the runtime and answers with the next action.
    pub fn step(&mut self, event: Event) -> (r: Result<Action, Fault>)
        ensures
            (*final(self), r) == old(self).next(event),
    {
        match self.phase {
            Phase::Running => match event {
                Event::Yielded(YieldData::AtomicTransition(loc)) => {
                    self.phase = Phase::CheckingTransition;
                    Ok(Action::RunCheck(loc))
                },
                Event::Returned => {
                    self.phase = Phase::CheckingEnd;
                    Ok(Action::RunCheck(None))
                },
                _ => Err(Fault::Unreachable),
            },
            Phase::CheckingTransition => match event {
                Event::Checked(ControlFlow::Continue(_)) => {
                    self.phase = Phase::Running;
                    Ok(Action::Resume)
                },
                Event::Checked(ControlFlow::Break(_)) => {
                    self.phase = Phase::Done;
                    Ok(Action::Stop)
                },
                _ => Err(Fault::Unreachable),
            },
            Phase::CheckingEnd => match event {
                Event::Checked(_) => {
                    self.phase = Phase::Done;
                    Ok(Action::Stop)
                },
                _ => Err(Fault::Unreachable),
            },
            Phase::Done => Err(Fault::Unreachable),
        }
    }
}

} // verus!

verus! {

/// The budget under which a check with `steps` steps runs while the preempted
/// function waits at `loc`.
pub open spec fn check_budget(steps: usize, loc: Option<SourceLocation>) -> CheckedTaskHandle {
    CheckedTaskHandle { current_steps: 0, max_steps: steps, preempted_location: loc }
}

/// The task handle under which the checked function of `model` runs once,
/// while the preempted function waits at `loc` (or has returned, if `loc` is
/// none): a fresh budget of the model's steps that remembers the preemption point.
pub fn checked_handle<I, F, D, C>(model: &Model<I, F, D, C>, loc: Option<SourceLocation>) -> (r: CheckedTaskHandle)
    ensures
        r == check_budget(model.steps, loc),
{
    let mut state_checker = CheckedTaskHandle::new(model.steps);
    if let Some(l) = loc {
        state_checker = state_checker.with_preempted_loc(l);
    }
    state_checker
}

} // verus!

verus! {

/// Law: a check that blocks is caught at the point where it blocks. When the
/// checked function cannot finish within `steps` transitions while the
/// preempted function waits before its transition `k`, the restart schedule
/// reaches that point, runs the check there, and the budget of that check
/// refuses its next transition with a fault that names the preemption point
/// and the refused operation.
pub proof fn lemma_blocking_point_is_reported<S>(
    s: RestartPairwise<S>,
    k: usize,
    locs: Seq<Option<SourceLocation>>,
    steps: usize,
    n: nat,
    l: Option<SourceLocation>,
)
    requires
        s.at_run_start(k),
        k < locs.len(),
        n >= steps,
    ensures
        s.drive(locs).1 == Ok::<Action, Fault>(Action::RunCheck(locs[k as int])),
        check_budget(steps, locs[k as int]).after_steps(n).after_step(l).1 == Err::<(), Fault>(
            Fault::StepLimitExceeded {
                max_steps: steps,
                preempted_at: locs[k as int],
                evaluating: l,
            },
        ),
{
    s.lemma_restart_run_checks_point(k, locs);
    check_budget(steps, locs[k as int]).lemma_budget_admits_max_steps(n, l);
}

} // verus!
