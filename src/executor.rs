//! Four schedulers side by side, one per task priority, served strictly in
//! priority order.
use vstd::prelude::*;
use crate::event::{Event, EventPriority, TaskPriority};
use crate::model::{posted, scheduled, spawned};
use crate::scheduler::AsyncScheduler;
use crate::task::Task;

verus! {

/// Runs a separate scheduler for each task priority; a cycle runs the highest
/// level that has something to run.
pub struct MultiPriorityExecutor {
    critical_scheduler: AsyncScheduler,
    high_scheduler: AsyncScheduler,
    normal_scheduler: AsyncScheduler,
    low_scheduler: AsyncScheduler,
    current_priority: TaskPriority,
}

/// The level whose tasks and events have rank `r`.
pub open spec fn level_of_rank(r: nat) -> TaskPriority {
    if r == 0 {
        TaskPriority::Critical
    } else if r == 1 {
        TaskPriority::High
    } else if r == 2 {
        TaskPriority::Normal
    } else {
        TaskPriority::Low
    }
}

/// How one `run_cycle` changes the executor from `pre` to `post` and what it
/// returns: each level from Critical down is scheduled until one picks a task.
pub open spec fn cycled(pre: MultiPriorityExecutor, post: MultiPriorityExecutor, r: Option<Task>) -> bool {
    let c = scheduled(pre.level(TaskPriority::Critical)@);
    let h = scheduled(pre.level(TaskPriority::High)@);
    let n = scheduled(pre.level(TaskPriority::Normal)@);
    let l = scheduled(pre.level(TaskPriority::Low)@);
    &&& post.level(TaskPriority::Critical)@ == c.0
    &&& c.1 matches Some(s) ==> {
        &&& r == c.0.slots[s as int]
        &&& post.running_level() == TaskPriority::Critical
        &&& post.level(TaskPriority::High) == pre.level(TaskPriority::High)
        &&& post.level(TaskPriority::Normal) == pre.level(TaskPriority::Normal)
        &&& post.level(TaskPriority::Low) == pre.level(TaskPriority::Low)
    }
    &&& c.1 is None ==> post.level(TaskPriority::High)@ == h.0
    &&& c.1 is None ==> (h.1 matches Some(s) ==> {
        &&& r == h.0.slots[s as int]
        &&& post.running_level() == TaskPriority::High
        &&& post.level(TaskPriority::Normal) == pre.level(TaskPriority::Normal)
        &&& post.level(TaskPriority::Low) == pre.level(TaskPriority::Low)
    })
    &&& c.1 is None && h.1 is None ==> post.level(TaskPriority::Normal)@ == n.0
    &&& c.1 is None && h.1 is None ==> (n.1 matches Some(s) ==> {
        &&& r == n.0.slots[s as int]
        &&& post.running_level() == TaskPriority::Normal
        &&& post.level(TaskPriority::Low) == pre.level(TaskPriority::Low)
    })
    &&& c.1 is None && h.1 is None && n.1 is None ==> post.level(TaskPriority::Low)@ == l.0
    &&& c.1 is None && h.1 is None && n.1 is None ==> (l.1 matches Some(s) ==> {
        &&& r == l.0.slots[s as int]
        &&& post.running_level() == TaskPriority::Low
    })
    &&& c.1 is None && h.1 is None && n.1 is None && l.1 is None ==> {
        &&& r is None
        &&& post.running_level() == pre.running_level()
    }
}

/// How `spawn_task` changes the executor: only the level of the task's priority.
pub open spec fn spawned_at_level(
    pre: MultiPriorityExecutor,
    post: MultiPriorityExecutor,
    task: Task,
    r: Result<usize, ()>,
) -> bool {
    &&& (post.level(task.priority)@, r) == spawned(pre.level(task.priority)@, task)
    &&& forall|p: TaskPriority| p != task.priority ==> #[trigger] post.level(p) == pre.level(p)
    &&& post.running_level() == pre.running_level()
}

/// How `post_event` changes the executor: only the level of the event's priority.
pub open spec fn posted_to_level(
    pre: MultiPriorityExecutor,
    post: MultiPriorityExecutor,
    event: Event,
    r: bool,
) -> bool {
    let p = level_of_rank(event.priority.rank());
    &&& post.level(p)@ == posted(pre.level(p)@, event).0
    &&& r == posted(pre.level(p)@, event).1 is Ok
    &&& forall|q: TaskPriority| q != p ==> #[trigger] post.level(q) == pre.level(q)
    &&& post.running_level() == pre.running_level()
}

impl MultiPriorityExecutor {
    /// The scheduler that serves priority `p`.
    pub closed spec fn level(&self, p: TaskPriority) -> AsyncScheduler {
        match p {
            TaskPriority::Critical => self.critical_scheduler,
            TaskPriority::High => self.high_scheduler,
            TaskPriority::Normal => self.normal_scheduler,
            TaskPriority::Low => self.low_scheduler,
        }
    }

    /// The level that ran last.
    pub closed spec fn running_level(&self) -> TaskPriority {
        self.current_priority
    }

    pub open spec fn wf(&self) -> bool {
        &&& self.level(TaskPriority::Critical).wf()
        &&& self.level(TaskPriority::High).wf()
        &&& self.level(TaskPriority::Normal).wf()
        &&& self.level(TaskPriority::Low).wf()
    }

    /// Four empty default-sized schedulers; the last level run reads `Low`.
    pub fn new() -> (r: MultiPriorityExecutor)
        ensures
            r.wf(),
            r.running_level() == TaskPriority::Low,
            forall|p: TaskPriority|
                (#[trigger] r.level(p))@.is_initial(
                    crate::scheduler::MAX_TASKS as nat,
                    crate::scheduler::MAX_EVENTS_PER_PRIORITY as nat,
                ),
    {
        MultiPriorityExecutor {
            critical_scheduler: AsyncScheduler::new(),
            high_scheduler: AsyncScheduler::new(),
            normal_scheduler: AsyncScheduler::new(),
            low_scheduler: AsyncScheduler::new(),
            current_priority: TaskPriority::Low,
        }
    }

    /// Spawns `task` on the scheduler of its priority; the others are untouched.
    pub fn spawn_task(&mut self, task: Task) -> (r: Result<usize, ()>)
        requires
            old(self).wf(),
        ensures
            final(self).wf(),
            spawned_at_level(*old(self), *final(self), task, r),
    {
        match task.priority {
            TaskPriority::Critical => self.critical_scheduler.spawn_task(task),
            TaskPriority::High => self.high_scheduler.spawn_task(task),
            TaskPriority::Normal => self.normal_scheduler.spawn_task(task),
            TaskPriority::Low => self.low_scheduler.spawn_task(task),
        }
    }

    /// Posts `event` to the scheduler of the same priority; false when its ring
    /// for that priority is full.
    pub fn post_event(&mut self, event: Event) -> (r: bool)
        requires
            old(self).wf(),
        ensures
            final(self).wf(),
            posted_to_level(*old(self), *final(self), event, r),
    {
        let r = match event.priority {
            EventPriority::Critical => self.critical_scheduler.post_event(event),
            EventPriority::High => self.high_scheduler.post_event(event),
            EventPriority::Normal => self.normal_scheduler.post_event(event),
            EventPriority::Low => self.low_scheduler.post_event(event),
        };
        r.is_ok()
    }

    /// Runs `schedule` on each level from Critical down and stops at the first
    /// that picks a task; returns that task's record and remembers its level.
    pub fn run_cycle(&mut self) -> (r: Option<Task>)
        requires
            old(self).wf(),
        ensures
            final(self).wf(),
            cycled(*old(self), *final(self), r),
    {
        if let Some(s) = self.critical_scheduler.schedule() {
            self.current_priority = TaskPriority::Critical;
            return self.critical_scheduler.task(s);
        }
        if let Some(s) = self.high_scheduler.schedule() {
            self.current_priority = TaskPriority::High;
            return self.high_scheduler.task(s);
        }
        if let Some(s) = self.normal_scheduler.schedule() {
            self.current_priority = TaskPriority::Normal;
            return self.normal_scheduler.task(s);
        }
        if let Some(s) = self.low_scheduler.schedule() {
            self.current_priority = TaskPriority::Low;
            return self.low_scheduler.task(s);
        }
        None
    }

    /// Whether any level holds a task, whatever its state.
    pub fn has_ready_tasks(&self) -> (r: bool)
        requires
            self.wf(),
        ensures
            r == (self.level(TaskPriority::Critical)@.active() > 0 || self.level(
                TaskPriority::High,
            )@.active() > 0 || self.level(TaskPriority::Normal)@.active() > 0 || self.level(
                TaskPriority::Low,
            )@.active() > 0),
    {
        self.critical_scheduler.has_active_tasks() || self.high_scheduler.has_active_tasks()
            || self.normal_scheduler.has_active_tasks() || self.low_scheduler.has_active_tasks()
    }

    /// The level whose task ran last.
    pub fn current_priority(&self) -> (r: TaskPriority)
        ensures
            r == self.running_level(),
    {
        self.current_priority
    }
}

} // verus!
