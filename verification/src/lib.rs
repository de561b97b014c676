//! Echeneis: a controlled model checker that looks for code in which one
//! thread can block another.
//!
//! The library holds the decisions of the checker: the step budgets that
//! bound a check, the replay bookkeeping of a preempted coroutine, the two
//! exploration schedules (restart and persistent) as state machines, the
//! model builder and the atomic shims. A runtime around it runs the
//! coroutines and the user's closures, reports what happened as events, and
//! performs the actions that the schedules answer.

pub mod build_test;
pub mod rt;
pub mod schedule;
pub mod sync;

pub use build_test::ModelBuilder;

