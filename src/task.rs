//! Task records and their states.
use vstd::prelude::*;
use crate::event::TaskPriority;

verus! {

/// Where a task stands in its lifecycle.
#[derive(Clone, Copy, PartialEq, Eq, Structural, Debug)]
pub enum TaskState {
    /// Eligible to run.
    Ready,
    /// Currently dispatched; at most one task is in this state.
    Running,
    /// Blocked until an event with this id is dispatched.
    WaitingForEvent(u32),
    /// Blocked until the monotonic tick reaches this deadline.
    Sleeping(u32),
    /// Terminal; the slot stays reserved until it is freed.
    Completed,
}

/// A task record as the scheduler keeps it in its table.
#[derive(Clone, Copy, Debug)]
pub struct Task {
    pub id: usize,
    pub priority: TaskPriority,
    pub state: TaskState,
    /// Copy of the awaited event id while the task waits for an event.
    pub waiting_event: Option<u32>,
    /// How many times the task was moved from a blocked state (waiting or
    /// sleeping) to `Ready`; wraps around after `u32::MAX`.
    pub wake_count: u32,
}

/// `t` as it is when it has just been released from a blocked state.
pub open spec fn woken(t: Task) -> Task {
    Task {
        state: TaskState::Ready,
        waiting_event: None,
        wake_count: t.wake_count.wrapping_add(1),
        ..t
    }
}

impl Task {
    /// A ready task of `Normal` priority.
    pub fn new(id: usize) -> (r: Task)
        ensures
            r.id == id,
            r.priority == TaskPriority::Normal,
            r.state == TaskState::Ready,
            r.waiting_event is None,
            r.wake_count == 0,
    {
        Task::with_priority(id, TaskPriority::Normal)
    }

    /// A ready task of the given priority.
    pub fn with_priority(id: usize, priority: TaskPriority) -> (r: Task)
        ensures
            r.id == id,
            r.priority == priority,
            r.state == TaskState::Ready,
            r.waiting_event is None,
            r.wake_count == 0,
    {
        Task { id, priority, state: TaskState::Ready, waiting_event: None, wake_count: 0 }
    }

    /// Whether the task is eligible to run.
    pub fn is_ready(&self) -> (r: bool)
        ensures
            r == (self.state == TaskState::Ready),
    {
        matches!(self.state, TaskState::Ready)
    }
}

/// A task record that also counts its wake-ups, for callers that drive a task
/// themselves.
#[derive(Clone, Copy, Debug)]
pub struct AsyncTask {
    pub id: usize,
    pub priority: TaskPriority,
    pub state: TaskState,
    pub waiting_event: Option<u32>,
    pub wake_count: u32,
}

impl AsyncTask {
    /// A ready task that has not been woken yet.
    pub fn new(id: usize, priority: TaskPriority) -> (r: AsyncTask)
        ensures
            r.id == id,
            r.priority == priority,
            r.state == TaskState::Ready,
            r.waiting_event is None,
            r.wake_count == 0,
    {
        AsyncTask { id, priority, state: TaskState::Ready, waiting_event: None, wake_count: 0 }
    }

    /// Whether the task is eligible to run.
    pub fn is_ready(&self) -> (r: bool)
        ensures
            r == (self.state == TaskState::Ready),
    {
        matches!(self.state, TaskState::Ready)
    }

    /// Records one wake-up; the counter wraps around after `u32::MAX`.
    pub fn wake(&mut self)
        ensures
            final(self).wake_count == old(self).wake_count.wrapping_add(1),
            final(self).id == old(self).id,
            final(self).priority == old(self).priority,
            final(self).state == old(self).state,
            final(self).waiting_event == old(self).waiting_event,
    {
        self.wake_count = self.wake_count.wrapping_add(1);
    }
}

} // verus!
