use std::ops::ControlFlow;

use echeneis::rt::coroutine::CoroTaskHandle;
use echeneis::rt::thread::Turn;
use echeneis::rt::{CheckedTaskHandle, Fault, SourceLocation, YieldData};
use echeneis::schedule::linear_pairwise::{
    checked_handle, Action, Event, PersistentPairwise, Phase, RestartPairwise,
};
use echeneis::schedule::{CloneCheck, Retry, Shared};
use echeneis::sync::atomic::{AtomicBool, AtomicUsize, Ordering};
use echeneis::build_test::Model;
use echeneis::ModelBuilder;

fn loc(line: u32) -> SourceLocation {
    SourceLocation { file: "tests/basic.rs", line, column: 9 }
}

fn at(line: u32) -> Event {
    Event::Yielded(YieldData::AtomicTransition(Some(loc(line))))
}

const CONTINUE: Event = Event::Checked(ControlFlow::Continue(()));
const BREAK: Event = Event::Checked(ControlFlow::Break(()));

// The preempted function makes no atomic transition: the check runs once,
// after it returns, and the exploration stops.
#[test]
fn runs() {
    let prepared = ModelBuilder::new().check_pairwise(
        || {},
        |_: &()| {},
        |_: &()| ControlFlow::Continue(()),
    );
    let mut schedule = prepared.schedule;
    assert_eq!(schedule.step(Event::Returned), Ok(Action::RunCheck(None)));
    let handle = checked_handle(&prepared.model, None);
    assert_eq!(handle.max_steps, 100_000);
    assert_eq!(handle.preempted_location, None);
    let check: ControlFlow<()> = (prepared.model.checked_fn)(&());
    assert_eq!(schedule.step(Event::Checked(check)), Ok(Action::Stop));
    assert_eq!(schedule.phase, Phase::Done);
}

#[test]
fn builder_defaults_and_steps() {
    assert_eq!(ModelBuilder::new().max_steps(), 100_000);
    assert_eq!(ModelBuilder::default().max_steps(), 100_000);
    assert_eq!(ModelBuilder::new().with_steps(7).max_steps(), 7);
}

#[test]
fn builder_prepares_each_schedule() {
    let b = ModelBuilder::new().with_steps(12);
    let p = b.check_pairwise(|| 3u8, |_: &u8| {}, |_: &u8| ControlFlow::Continue(()));
    assert_eq!(p.model.steps, 12);
    assert_eq!((p.model.init_fn())(), 3);
    assert_eq!(p.schedule.yields, 0);
    assert_eq!(p.schedule.current_yields, 0);
    assert_eq!(p.schedule.phase, Phase::Running);
    assert_eq!(p.schedule.strategy_provider, Shared);

    let p = b.check_pairwise_clone(|| 4u8, |_: &u8| {}, |_: &u8| ControlFlow::Break(()));
    assert_eq!(p.model.steps, 12);
    assert_eq!((p.model.preemptible_fn())(&4), ());
    assert_eq!((p.model.checked_fn())(&4), ControlFlow::Break(()));
    assert_eq!(p.schedule.phase, Phase::Running);
    assert_eq!(p.schedule.strategy_provider, CloneCheck);

    let p = b.check_retry(|| 5u8, |_: &u8| {}, |_: &u8| ControlFlow::Continue(()));
    assert_eq!(p.schedule.strategy_provider, Retry { steps: 0, max_steps: 12 });
    assert_eq!(p.schedule.phase, Phase::Running);
}

#[test]
fn budget_admits_exactly_max_steps() {
    let mut h = CheckedTaskHandle::new(3).with_preempted_loc(loc(1));
    for _ in 0..3 {
        assert_eq!(h.yield_now(YieldData::AtomicTransition(Some(loc(2)))), Ok(()));
    }
    assert_eq!(h.current_steps, 3);
    assert_eq!(h.yield_now(YieldData::Complete), Ok(()));
    assert_eq!(
        h.yield_now(YieldData::AtomicTransition(Some(loc(2)))),
        Err(Fault::StepLimitExceeded {
            max_steps: 3,
            preempted_at: Some(loc(1)),
            evaluating: Some(loc(2)),
        })
    );
    assert_eq!(h.current_steps, 3);
}

#[test]
fn budget_refuses_terminated() {
    let mut h = CheckedTaskHandle::new(3);
    assert_eq!(h.yield_now(YieldData::Terminated), Err(Fault::Terminated));
    assert_eq!(h.current_steps, 0);
    assert_eq!(
        h.step(None),
        Ok(())
    );
    let mut z = CheckedTaskHandle::new(0);
    assert_eq!(
        z.step(None),
        Err(Fault::StepLimitExceeded { max_steps: 0, preempted_at: None, evaluating: None })
    );
}

// A check that spins forever exhausts the default budget of 100 000 steps.
#[test]
fn kills_spinning_check() {
    let mut h = CheckedTaskHandle::new(ModelBuilder::new().max_steps());
    let mut accepted = 0usize;
    loop {
        match h.yield_now(YieldData::AtomicTransition(Some(loc(60)))) {
            Ok(()) => accepted += 1,
            Err(f) => {
                assert_eq!(
                    f,
                    Fault::StepLimitExceeded {
                        max_steps: 100_000,
                        preempted_at: None,
                        evaluating: Some(loc(60)),
                    }
                );
                break;
            }
        }
    }
    assert_eq!(accepted, 100_000);
}

#[test]
fn retry_budget_is_shared_by_checks() {
    let retry = Retry { steps: 0, max_steps: 3 };
    let first = retry.handle(Some(loc(1)));
    let second = retry.handle(Some(loc(2)));
    let mut steps = 0usize;
    assert_eq!(first.yield_now(&mut steps, YieldData::AtomicTransition(None)), Ok(()));
    assert_eq!(first.yield_now(&mut steps, YieldData::AtomicTransition(None)), Ok(()));
    assert_eq!(second.yield_now(&mut steps, YieldData::Complete), Ok(()));
    assert_eq!(second.yield_now(&mut steps, YieldData::AtomicTransition(None)), Ok(()));
    assert_eq!(steps, 3);
    assert_eq!(
        second.yield_now(&mut steps, YieldData::AtomicTransition(Some(loc(9)))),
        Err(Fault::StepLimitExceeded {
            max_steps: 3,
            preempted_at: Some(loc(2)),
            evaluating: Some(loc(9)),
        })
    );
    assert_eq!(second.yield_now(&mut steps, YieldData::Terminated), Err(Fault::Terminated));
    assert_eq!(steps, 3);
}

#[test]
fn checked_handle_remembers_preemption_point() {
    let p = ModelBuilder::new().with_steps(5).check_pairwise(
        || (),
        |_: &()| {},
        |_: &()| ControlFlow::Continue(()),
    );
    let h = checked_handle(&p.model, Some(loc(4)));
    assert_eq!(h, CheckedTaskHandle { current_steps: 0, max_steps: 5, preempted_location: Some(loc(4)) });
}

// With three transitions in the preempted function, the restart schedule
// checks before each of them, one run per point, and once after it returns.
#[test]
fn restart_checks_every_point() {
    let mut s = RestartPairwise::new(Shared);
    let mut checked = Vec::new();
    let mut restarts = 0;
    'runs: loop {
        let mut pending = vec![at(10), at(11), at(12), Event::Returned];
        pending.reverse();
        loop {
            let ev = pending.pop().unwrap();
            match s.step(ev).unwrap() {
                Action::Resume => continue,
                Action::RunCheck(l) => {
                    checked.push(l);
                    match s.step(CONTINUE).unwrap() {
                        Action::Restart => {
                            restarts += 1;
                            continue 'runs;
                        }
                        Action::Stop => break 'runs,
                        other => panic!("unexpected {:?}", other),
                    }
                }
                other => panic!("unexpected {:?}", other),
            }
        }
    }
    assert_eq!(checked, vec![Some(loc(10)), Some(loc(11)), Some(loc(12)), None]);
    assert_eq!(restarts, 3);
    assert_eq!(s.phase, Phase::Done);
    assert_eq!(s.yields, 3);
    assert_eq!(s.step(Event::Returned), Err(Fault::Unreachable));
}

#[test]
fn restart_stops_on_break() {
    let mut s = RestartPairwise::new(CloneCheck);
    assert_eq!(s.step(at(1)), Ok(Action::RunCheck(Some(loc(1)))));
    assert_eq!(s.step(CONTINUE), Ok(Action::Restart));
    assert_eq!(s.step(at(1)), Ok(Action::Resume));
    assert_eq!(s.step(at(2)), Ok(Action::RunCheck(Some(loc(2)))));
    assert_eq!(s.step(BREAK), Ok(Action::Stop));
    assert_eq!(s.yields, 2);
    assert_eq!(s.phase, Phase::Done);
}

#[test]
fn restart_refuses_unexpected_events() {
    let mut s = RestartPairwise::new(Shared);
    assert_eq!(s.step(Event::Yielded(YieldData::Complete)), Err(Fault::Unreachable));
    assert_eq!(s.step(Event::Yielded(YieldData::Terminated)), Err(Fault::Unreachable));
    assert_eq!(s.step(CONTINUE), Err(Fault::Unreachable));
    assert_eq!(s.phase, Phase::Running);
    assert_eq!(s.step(Event::Returned), Ok(Action::RunCheck(None)));
    assert_eq!(s.step(Event::Returned), Err(Fault::Unreachable));
    assert_eq!(s.step(BREAK), Ok(Action::Stop));
}

#[test]
fn restart_counter_overflow() {
    let mut s = RestartPairwise::new(Shared);
    s.yields = usize::MAX;
    s.current_yields = usize::MAX;
    assert_eq!(s.step(at(3)), Ok(Action::RunCheck(Some(loc(3)))));
    assert_eq!(s.step(CONTINUE), Err(Fault::CounterOverflow));
}

#[test]
fn persistent_checks_every_point_once() {
    let mut s = PersistentPairwise::new(Retry { steps: 0, max_steps: 4 });
    let mut checked = Vec::new();
    for ev in [at(20), at(21), Event::Returned] {
        match s.step(ev).unwrap() {
            Action::RunCheck(l) => checked.push(l),
            other => panic!("unexpected {:?}", other),
        }
        let next = s.step(CONTINUE).unwrap();
        assert!(next == Action::Resume || next == Action::Stop);
    }
    assert_eq!(checked, vec![Some(loc(20)), Some(loc(21)), None]);
    assert_eq!(s.phase, Phase::Done);
    assert_eq!(s.step(at(1)), Err(Fault::Unreachable));
}

#[test]
fn persistent_stops_on_break() {
    let mut s = PersistentPairwise::new(Shared);
    assert_eq!(s.step(at(5)), Ok(Action::RunCheck(Some(loc(5)))));
    assert_eq!(s.step(BREAK), Ok(Action::Stop));
    assert_eq!(s.phase, Phase::Done);
    let mut t = PersistentPairwise::new(Shared);
    assert_eq!(t.step(Event::Yielded(YieldData::Complete)), Err(Fault::Unreachable));
}

// The scenario of the blocking example: the preempted function bumps a counter
// three times and, when it reaches two, clears and sets a flag; the check spins
// until the flag is set. Preempted between the two stores, the check cannot
// make progress and exhausts its budget.
#[test]
fn blocking_store_pair_is_caught() {
    let model: Model<(), (), (), ()> = Model::new((), (), (), 50);
    let mut s = RestartPairwise::new(Shared);
    let mut found = None;
    'runs: loop {
        // Fresh state for each run.
        let v = AtomicUsize::new(0);
        let b = AtomicBool::new(true);
        let v_ref = &v;
        let b_ref = &b;
        let total_iterations = 3;
        let mut iteration = 0;
        let mut in_store_pair = 0;
        loop {
            // Decide the next transition of the preempted function.
            let event = if iteration == total_iterations && in_store_pair == 0 {
                Event::Returned
            } else if in_store_pair == 0 {
                at(100)
            } else if in_store_pair == 1 {
                at(101)
            } else {
                at(102)
            };
            let action = s.step(event).unwrap();
            match action {
                Action::Resume => {}
                Action::RunCheck(l) => {
                    let mut h = checked_handle(&model, l);
                    let mut outcome;
                    loop {
                        outcome = h.yield_now(YieldData::AtomicTransition(Some(loc(200))));
                        if outcome.is_err() || b_ref.load(Ordering::Acquire) {
                            break;
                        }
                    }
                    if let Err(f) = outcome {
                        found = Some(f);
                        break 'runs;
                    }
                    match s.step(CONTINUE).unwrap() {
                        Action::Restart => continue 'runs,
                        Action::Stop => break 'runs,
                        other => panic!("unexpected {:?}", other),
                    }
                }
                other => panic!("unexpected {:?}", other),
            }
            // Perform the transition that the schedule let through.
            if in_store_pair == 0 {
                if v_ref.fetch_add(1, Ordering::AcqRel) == 2 {
                    in_store_pair = 1;
                } else {
                    iteration += 1;
                }
            } else if in_store_pair == 1 {
                b_ref.store(false, Ordering::Release);
                in_store_pair = 2;
            } else {
                b_ref.store(true, Ordering::Release);
                in_store_pair = 0;
                iteration += 1;
            }
        }
    }
    assert_eq!(
        found,
        Some(Fault::StepLimitExceeded {
            max_steps: 50,
            preempted_at: Some(loc(102)),
            evaluating: Some(loc(200)),
        })
    );
    assert_eq!(s.yields, 4);
}

#[test]
fn coroutine_handle_replays_target() {
    let mut h = CoroTaskHandle::new(2);
    assert!(!h.should_suspend(false));
    assert_eq!(h.record_yield(None), Ok(()));
    assert!(!h.should_suspend(false));
    assert_eq!(h.record_yield(None), Ok(()));
    assert!(h.should_suspend(false));
    assert!(!h.should_suspend(true));
    assert_eq!(h.record_yield(Some(5)), Ok(()));
    assert_eq!(h, CoroTaskHandle { local_yield_count: 3, target_yield_count: 5 });
    assert!(!h.should_suspend(false));
    let mut full = CoroTaskHandle { local_yield_count: usize::MAX, target_yield_count: 0 };
    assert_eq!(full.record_yield(None), Err(Fault::CounterOverflow));
}

#[test]
fn turn_passes_to_scheduler() {
    let mut t = Turn::Task;
    assert!(t.is_task());
    t.hand_to_scheduler(YieldData::Complete);
    assert_eq!(t, Turn::Scheduler(YieldData::Complete));
    assert!(!t.is_task());
}

#[test]
fn atomic_bool_operations() {
    let a = AtomicBool::new(true);
    assert!(a.load(Ordering::SeqCst));
    a.store(false, Ordering::SeqCst);
    assert!(!a.swap(true, Ordering::SeqCst));
    assert_eq!(a.compare_exchange(false, false, Ordering::SeqCst, Ordering::SeqCst), Err(true));
    assert_eq!(a.compare_exchange(true, false, Ordering::SeqCst, Ordering::SeqCst), Ok(true));
    assert_eq!(a.compare_exchange_weak(true, true, Ordering::SeqCst, Ordering::Relaxed), Err(false));
    assert_eq!(a.compare_exchange_weak(false, true, Ordering::SeqCst, Ordering::Relaxed), Ok(false));
    assert!(a.compare_and_swap(true, false, Ordering::SeqCst));
    assert!(!a.fetch_or(true, Ordering::SeqCst));
    assert!(a.fetch_and(false, Ordering::SeqCst));
    assert!(!a.fetch_nand(true, Ordering::SeqCst));
    assert!(a.fetch_xor(true, Ordering::SeqCst));
    assert_eq!(a.fetch_update(Ordering::SeqCst, Ordering::SeqCst, |x| Some(!x)), Ok(false));
    assert_eq!(a.fetch_update(Ordering::SeqCst, Ordering::SeqCst, |_| None), Err(true));
    let mut a = a;
    *a.get_mut() = false;
    assert!(!a.into_inner());
    assert!(!AtomicBool::default().into_inner());
    assert!(AtomicBool::from(true).into_inner());
}

#[test]
fn atomic_usize_operations() {
    let a = AtomicUsize::new(5);
    assert_eq!(a.fetch_add(3, Ordering::SeqCst), 5);
    assert_eq!(a.fetch_sub(2, Ordering::SeqCst), 8);
    assert_eq!(a.fetch_max(10, Ordering::SeqCst), 6);
    assert_eq!(a.fetch_min(4, Ordering::SeqCst), 10);
    assert_eq!(a.fetch_and(6, Ordering::SeqCst), 4);
    assert_eq!(a.fetch_or(1, Ordering::SeqCst), 4);
    assert_eq!(a.fetch_xor(7, Ordering::SeqCst), 5);
    assert_eq!(a.fetch_nand(3, Ordering::SeqCst), 2);
    assert_eq!(a.load(Ordering::SeqCst), !2usize);
    a.store(1, Ordering::SeqCst);
    assert_eq!(a.swap(9, Ordering::SeqCst), 1);
    assert_eq!(a.compare_exchange(1, 2, Ordering::SeqCst, Ordering::SeqCst), Err(9));
    assert_eq!(a.compare_exchange_weak(9, 2, Ordering::SeqCst, Ordering::SeqCst), Ok(9));
    assert_eq!(a.compare_and_swap(2, 3, Ordering::SeqCst), 2);
    assert_eq!(a.fetch_update(Ordering::SeqCst, Ordering::SeqCst, |x| x.checked_mul(2)), Ok(3));
    let mut a = a;
    *a.get_mut() += 1;
    assert_eq!(a.into_inner(), 7);
    assert_eq!(AtomicUsize::default().into_inner(), 0);
    assert_eq!(AtomicUsize::from(4).into_inner(), 4);
}

#[test]
fn clone_check_runs_on_a_copy() {
    let original = vec![1u8, 2, 3];
    let mut copy = CloneCheck.check_state(&original);
    assert_eq!(copy, original);
    copy.push(4);
    assert_eq!(original, vec![1u8, 2, 3]);
    assert_eq!(copy, vec![1u8, 2, 3, 4]);
}

#[test]
fn retry_records_shared_counter() {
    let mut retry = Retry { steps: 0, max_steps: 5 };
    let handle = retry.handle(None);
    let mut steps = retry.steps;
    assert_eq!(handle.yield_now(&mut steps, YieldData::AtomicTransition(None)), Ok(()));
    assert_eq!(handle.yield_now(&mut steps, YieldData::AtomicTransition(None)), Ok(()));
    retry.record_steps(steps);
    assert_eq!(retry, Retry { steps: 2, max_steps: 5 });
}
