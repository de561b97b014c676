//! The turn-taking protocol between a task that runs in a thread of its own
//! and its scheduler.
use vstd::prelude::*;

use crate::rt::YieldData;

verus! {

/// Whose turn it is.
#[derive(Clone, Copy, Debug, PartialEq, Eq)]
pub enum Turn {
    /// The scheduler runs; the task yielded with this payload.
    Scheduler(YieldData),
    /// The task runs.
    Task,
}

impl Turn {
    /// Whether the task may run.
    pub fn is_task(&self) -> (r: bool)
        ensures
            r == (*self is Task),
    {
        match self {
            Turn::Task => true,
            Turn::Scheduler(_) => false,
        }
    }

    /// The task yields with `payload`: the turn passes to the scheduler. Only
    /// the task that holds the turn may yield.
    pub fn hand_to_scheduler(&mut self, payload: YieldData)
        requires
            *old(self) is Task,
        ensures
            *final(self) == Turn::Scheduler(payload),
    {
        *self = Turn::Scheduler(payload);
    }
}

} // verus!
