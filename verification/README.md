# echeneis

A controlled model checker for blocking in concurrent Rust code: it runs a
*checked* function at every preemption point of a *preempted* function and
reports a check that cannot make progress within its step budget.

Layout:

- `src/` — the verified library: step budgets (`rt`), the replay bookkeeping
  of the coroutine that runs the preempted function (`rt::coroutine`), the
  turn-taking protocol of thread-based tasks (`rt::thread`), the restart and
  persistent exploration schedules as state machines with their laws
  (`schedule::linear_pairwise`), the check strategies (`schedule`), the model
  builder (`build_test`) and the atomic shims (`sync::atomic`).
- `app/` — the runtime: coroutines, the thread's current task, preemption
  points on every atomic access, the entry points `check_pairwise`,
  `check_pairwise_clone` and `check_retry`.
- `tests/` — scenarios on concrete values.
