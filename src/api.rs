//! The kernel's entry points. Each one runs inside a critical section: it masks
//! interrupts, works on the scheduler, and restores the prior interrupt state.
use vstd::prelude::*;
use crate::arch::{InterruptState, mask_interrupts, unmask_interrupts};
use crate::event::{Event, EventPriority, TaskPriority};
use crate::executor::{MultiPriorityExecutor, cycled, posted_to_level, spawned_at_level};
use crate::model::{blocked, posted, scheduled, slept, spawned, ticked};
use crate::scheduler::{AsyncScheduler, MAX_EVENTS_PER_PRIORITY, MAX_TASKS};
use crate::task::Task;

verus! {

/// The kernel's single shared state: the scheduler, the per-priority executor
/// and the interrupt mask that guards both.
pub struct Kernel {
    scheduler: AsyncScheduler,
    executor: MultiPriorityExecutor,
    irq: InterruptState,
}

impl Kernel {
    pub closed spec fn sched(&self) -> AsyncScheduler {
        self.scheduler
    }

    pub closed spec fn exec(&self) -> MultiPriorityExecutor {
        self.executor
    }

    /// Whether interrupts are enabled outside the kernel's critical sections.
    pub closed spec fn irq_on(&self) -> bool {
        self.irq.is_enabled()
    }

    pub open spec fn wf(&self) -> bool {
        self.sched().wf() && self.exec().wf()
    }

    /// A kernel with default-sized schedulers and interrupts enabled.
    pub fn new() -> (r: Kernel)
        ensures
            r.wf(),
            r.irq_on(),
            r.sched()@.is_initial(MAX_TASKS as nat, MAX_EVENTS_PER_PRIORITY as nat),
            forall|p: TaskPriority|
                (#[trigger] r.exec().level(p))@.is_initial(
                    MAX_TASKS as nat,
                    MAX_EVENTS_PER_PRIORITY as nat,
                ),
            r.exec().running_level() == TaskPriority::Low,
    {
        Kernel {
            scheduler: AsyncScheduler::new(),
            executor: MultiPriorityExecutor::new(),
            irq: InterruptState::new(),
        }
    }

    /// A kernel whose main scheduler has `max_tasks` slots and rings of
    /// `max_events` events.
    pub fn with_capacity(max_tasks: usize, max_events: usize) -> (r: Kernel)
        requires
            0 < max_tasks <= u32::MAX,
            max_events > 0,
        ensures
            r.wf(),
            r.irq_on(),
            r.sched()@.is_initial(max_tasks as nat, max_events as nat),
            forall|p: TaskPriority|
                (#[trigger] r.exec().level(p))@.is_initial(
                    MAX_TASKS as nat,
                    MAX_EVENTS_PER_PRIORITY as nat,
                ),
            r.exec().running_level() == TaskPriority::Low,
    {
        Kernel {
            scheduler: AsyncScheduler::with_capacity(max_tasks, max_events),
            executor: MultiPriorityExecutor::new(),
            irq: InterruptState::new(),
        }
    }

    /// The record in `slot` of the main scheduler.
    pub fn task(&self, slot: usize) -> (r: Option<Task>)
        requires
            self.wf(),
        ensures
            slot < self.sched()@.slots.len() ==> r == self.sched()@.slots[slot as int],
            slot >= self.sched()@.slots.len() ==> r is None,
    {
        self.scheduler.task(slot)
    }
}

/// Spawns `task` on the main scheduler.
pub fn add_task(k: &mut Kernel, task: Task) -> (r: Result<usize, ()>)
    requires
        old(k).wf(),
    ensures
        final(k).wf(),
        final(k).irq_on() == old(k).irq_on(),
        (final(k).sched()@, r) == spawned(old(k).sched()@, task),
        final(k).exec() == old(k).exec(),
{
    let prior = mask_interrupts(&mut k.irq);
    let r = k.scheduler.spawn_task(task);
    unmask_interrupts(&mut k.irq, prior);
    r
}

/// Spawns `task` on the executor level of its priority.
pub fn add_priority_task(k: &mut Kernel, task: Task) -> (r: Result<usize, ()>)
    requires
        old(k).wf(),
    ensures
        final(k).wf(),
        final(k).irq_on() == old(k).irq_on(),
        spawned_at_level(old(k).exec(), final(k).exec(), task, r),
        final(k).sched() == old(k).sched(),
{
    let prior = mask_interrupts(&mut k.irq);
    let r = k.executor.spawn_task(task);
    unmask_interrupts(&mut k.irq, prior);
    r
}

/// Posts `event` to the main scheduler; hands it back when the ring of its
/// priority is full, leaving the scheduler as it was.
pub fn post(k: &mut Kernel, event: Event) -> (r: Result<(), Event>)
    requires
        old(k).wf(),
    ensures
        final(k).wf(),
        final(k).irq_on() == old(k).irq_on(),
        (final(k).sched()@, r) == posted(old(k).sched()@, event),
        final(k).exec() == old(k).exec(),
{
    let prior = mask_interrupts(&mut k.irq);
    let r = k.scheduler.post_event(event);
    unmask_interrupts(&mut k.irq, prior);
    r
}

/// Posts an event with id `id` and an empty payload to the main scheduler;
/// false when the ring of `priority` is full.
pub fn post_event_with_priority(k: &mut Kernel, id: u32, priority: EventPriority) -> (r: bool)
    requires
        old(k).wf(),
    ensures
        final(k).wf(),
        final(k).irq_on() == old(k).irq_on(),
        final(k).sched()@ == posted(old(k).sched()@, Event { id, priority, data: 0 }).0,
        r == posted(old(k).sched()@, Event { id, priority, data: 0 }).1 is Ok,
        final(k).exec() == old(k).exec(),
{
    let event = Event::new(id, priority);
    let prior = mask_interrupts(&mut k.irq);
    let r = k.scheduler.post_event(event);
    unmask_interrupts(&mut k.irq, prior);
    r.is_ok()
}

/// Posts an event with id `id` and an empty payload to the executor;
/// false when the ring it goes to is full.
pub fn post_priority_event(k: &mut Kernel, id: u32, priority: EventPriority) -> (r: bool)
    requires
        old(k).wf(),
    ensures
        final(k).wf(),
        final(k).irq_on() == old(k).irq_on(),
        posted_to_level(old(k).exec(), final(k).exec(), Event { id, priority, data: 0 }, r),
        final(k).sched() == old(k).sched(),
{
    let event = Event::new(id, priority);
    let prior = mask_interrupts(&mut k.irq);
    let r = k.executor.post_event(event);
    unmask_interrupts(&mut k.irq, prior);
    r
}

/// Posts a `Normal` event with id `event_id` to the main scheduler; an event
/// that finds its ring full is dropped.
pub fn post_event(k: &mut Kernel, event_id: u32)
    requires
        old(k).wf(),
    ensures
        final(k).wf(),
        final(k).irq_on() == old(k).irq_on(),
        final(k).sched()@ == posted(
            old(k).sched()@,
            Event { id: event_id, priority: EventPriority::Normal, data: 0 },
        ).0,
        final(k).exec() == old(k).exec(),
{
    let _ = post_event_with_priority(k, event_id, EventPriority::Normal);
}

/// Posts a `Critical` event with id `event_id` to the main scheduler, as an
/// interrupt handler does; dropped when the ring is full.
pub fn interrupt_event(k: &mut Kernel, event_id: u32)
    requires
        old(k).wf(),
    ensures
        final(k).wf(),
        final(k).irq_on() == old(k).irq_on(),
        final(k).sched()@ == posted(
            old(k).sched()@,
            Event { id: event_id, priority: EventPriority::Critical, data: 0 },
        ).0,
        final(k).exec() == old(k).exec(),
{
    let _ = post_event_with_priority(k, event_id, EventPriority::Critical);
}

/// Posts a `Critical` event with id `event_id` to the executor; dropped when the
/// ring is full.
pub fn interrupt_priority_event(k: &mut Kernel, event_id: u32)
    requires
        old(k).wf(),
    ensures
        final(k).wf(),
        final(k).irq_on() == old(k).irq_on(),
        exists|r: bool|
            posted_to_level(
                old(k).exec(),
                final(k).exec(),
                Event { id: event_id, priority: EventPriority::Critical, data: 0 },
                r,
            ),
        final(k).sched() == old(k).sched(),
{
    let _ = post_priority_event(k, event_id, EventPriority::Critical);
}

/// The running task of the main scheduler blocks on `event_id`.
pub fn block_current(k: &mut Kernel, event_id: u32)
    requires
        old(k).wf(),
    ensures
        final(k).wf(),
        final(k).irq_on() == old(k).irq_on(),
        final(k).sched()@ == blocked(old(k).sched()@, event_id),
        final(k).exec() == old(k).exec(),
{
    let prior = mask_interrupts(&mut k.irq);
    k.scheduler.block_current_task(event_id);
    unmask_interrupts(&mut k.irq, prior);
}

/// The running task of the main scheduler sleeps for `duration` ticks.
pub fn sleep_current(k: &mut Kernel, duration: u32)
    requires
        old(k).wf(),
    ensures
        final(k).wf(),
        final(k).irq_on() == old(k).irq_on(),
        final(k).sched()@ == slept(old(k).sched()@, duration),
        final(k).exec() == old(k).exec(),
{
    let prior = mask_interrupts(&mut k.irq);
    k.scheduler.sleep_current_task(duration);
    unmask_interrupts(&mut k.irq, prior);
}

/// Advances the main scheduler's clock to `current_time`, waking expired sleepers.
pub fn update_global_timer(k: &mut Kernel, current_time: u32)
    requires
        old(k).wf(),
    ensures
        final(k).wf(),
        final(k).irq_on() == old(k).irq_on(),
        final(k).sched()@ == ticked(old(k).sched()@, current_time),
        final(k).exec() == old(k).exec(),
{
    let prior = mask_interrupts(&mut k.irq);
    k.scheduler.update_timer(current_time);
    unmask_interrupts(&mut k.irq, prior);
}

/// Runs the main scheduler's decision and returns the record of the task to run.
pub fn schedule(k: &mut Kernel) -> (r: Option<Task>)
    requires
        old(k).wf(),
    ensures
        final(k).wf(),
        final(k).irq_on() == old(k).irq_on(),
        final(k).sched()@ == scheduled(old(k).sched()@).0,
        scheduled(old(k).sched()@).1 matches Some(s) ==> r == final(k).sched()@.slots[s as int],
        scheduled(old(k).sched()@).1 is None ==> r is None,
        final(k).exec() == old(k).exec(),
{
    let prior = mask_interrupts(&mut k.irq);
    let r = match k.scheduler.schedule() {
        Some(s) => k.scheduler.task(s),
        None => None,
    };
    unmask_interrupts(&mut k.irq, prior);
    r
}

/// Runs one executor cycle and returns the record of the task to run.
pub fn schedule_with_priority(k: &mut Kernel) -> (r: Option<Task>)
    requires
        old(k).wf(),
    ensures
        final(k).wf(),
        final(k).irq_on() == old(k).irq_on(),
        cycled(old(k).exec(), final(k).exec(), r),
        final(k).sched() == old(k).sched(),
{
    let prior = mask_interrupts(&mut k.irq);
    let r = k.executor.run_cycle();
    unmask_interrupts(&mut k.irq, prior);
    r
}

/// The running task of the main scheduler, if any.
pub fn current_task(k: &Kernel) -> (r: Option<Task>)
    requires
        k.wf(),
    ensures
        k.sched()@.current matches Some(c) ==> r == k.sched()@.slots[c as int],
        k.sched()@.current is None ==> r is None,
{
    k.scheduler.current_task()
}

/// `(occupied slots, successful posts, current tick)` of the main scheduler.
pub fn scheduler_stats(k: &Kernel) -> (r: (u32, u32, u32))
    requires
        k.wf(),
    ensures
        r.0 as nat == k.sched()@.active(),
        r.1 == k.sched()@.events_total,
        r.2 == k.sched()@.tick,
{
    k.scheduler.stats()
}

/// Whether any executor level holds a task.
pub fn has_ready_work(k: &Kernel) -> (r: bool)
    requires
        k.wf(),
    ensures
        r == (k.exec().level(TaskPriority::Critical)@.active() > 0 || k.exec().level(
            TaskPriority::High,
        )@.active() > 0 || k.exec().level(TaskPriority::Normal)@.active() > 0 || k.exec().level(
            TaskPriority::Low,
        )@.active() > 0),
{
    k.executor.has_ready_tasks()
}

/// The executor level whose task ran last.
pub fn current_priority_level(k: &Kernel) -> (r: TaskPriority)
    ensures
        r == k.exec().running_level(),
{
    k.executor.current_priority()
}

} // verus!
