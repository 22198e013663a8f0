//! The priority scheduler: task table, event rings, hot slot and sleep service.
use vstd::prelude::*;
use crate::event::{Event, EventPriority};
use crate::model::{
    SchedModel, best_step, blocked, count_some, delivered, demoted, dispatch_popped,
    dispatch_step, dispatched, finished, first_free_below, first_waiter_below, freed, is_ready,
    is_running, lemma_best_step, lemma_count_bound, lemma_count_update, lemma_first_free_grows,
    lemma_first_waiter_grows, lemma_pop_keeps_wf, posted, prio, promoted, rescheduled, rr_slot,
    scheduled, sleep_expired, slept, spawned, ticked, wake_sleepers, with_state,
};
use crate::ring::EventRing;
use crate::task::{Task, TaskState, woken};

verus! {

/// Default number of task slots.
pub const MAX_TASKS: usize = 8;

/// Default capacity of each event ring.
pub const MAX_EVENTS_PER_PRIORITY: usize = 16;

/// Priority-based, event-driven cooperative scheduler.
pub struct AsyncScheduler {
    tasks: Vec<Option<Task>>,
    current_task: Option<usize>,
    /// Hot slot: the most recently woken task, tried first by `schedule`.
    next_task: Option<usize>,
    critical_events: EventRing,
    high_events: EventRing,
    normal_events: EventRing,
    low_events: EventRing,
    needs_reschedule: bool,
    active_tasks: u32,
    event_counter: u32,
    timer_base: u32,
}

impl AsyncScheduler {
    pub closed spec fn view(&self) -> SchedModel {
        SchedModel {
            slots: self.tasks@,
            current: self.current_task,
            hot: self.next_task,
            rings: seq![
                self.critical_events@,
                self.high_events@,
                self.normal_events@,
                self.low_events@,
            ],
            ring_capacity: self.critical_events.capacity(),
            needs_reschedule: self.needs_reschedule,
            events_total: self.event_counter,
            tick: self.timer_base,
        }
    }

    /// The count of occupied slots that `stats` reports.
    pub closed spec fn active_count(&self) -> u32 {
        self.active_tasks
    }

    pub closed spec fn wf(&self) -> bool {
        &&& self@.wf()
        &&& self.critical_events.wf()
        &&& self.high_events.wf()
        &&& self.normal_events.wf()
        &&& self.low_events.wf()
        &&& self.high_events.capacity() == self.critical_events.capacity()
        &&& self.normal_events.capacity() == self.critical_events.capacity()
        &&& self.low_events.capacity() == self.critical_events.capacity()
        &&& self.active_tasks as nat == self@.active()
    }

    /// A well-formed scheduler has a well-formed model.
    pub proof fn lemma_model_wf(&self)
        requires
            self.wf(),
        ensures
            self@.wf(),
    {
    }

    /// A scheduler with `MAX_TASKS` slots and rings of `MAX_EVENTS_PER_PRIORITY` events.
    pub fn new() -> (r: AsyncScheduler)
        ensures
            r.wf(),
            r@.is_initial(MAX_TASKS as nat, MAX_EVENTS_PER_PRIORITY as nat),
    {
        AsyncScheduler::with_capacity(MAX_TASKS, MAX_EVENTS_PER_PRIORITY)
    }

    /// A scheduler with `max_tasks` empty slots and four empty rings of
    /// `max_events` events each.
    pub fn with_capacity(max_tasks: usize, max_events: usize) -> (r: AsyncScheduler)
        requires
            0 < max_tasks <= u32::MAX,
            max_events > 0,
        ensures
            r.wf(),
            r@.is_initial(max_tasks as nat, max_events as nat),
    {
        let mut tasks: Vec<Option<Task>> = Vec::new();
        let mut i: usize = 0;
        while i < max_tasks
            invariant
                i <= max_tasks,
                tasks@ == Seq::new(i as nat, |j: int| None::<Task>),
            decreases max_tasks - i,
        {
            tasks.push(None);
            i = i + 1;
            assert(tasks@ =~= Seq::new(i as nat, |j: int| None::<Task>));
        }
        let r = AsyncScheduler {
            tasks,
            current_task: None,
            next_task: None,
            critical_events: EventRing::new(max_events),
            high_events: EventRing::new(max_events),
            normal_events: EventRing::new(max_events),
            low_events: EventRing::new(max_events),
            needs_reschedule: false,
            active_tasks: 0,
            event_counter: 0,
            timer_base: 0,
        };
        proof {
            lemma_count_none(r.tasks@);
        }
        r
    }

    /// Puts `task` into the first free slot, `Ready`, and returns the slot;
    /// fails when every slot is taken.
    pub fn spawn_task(&mut self, task: Task) -> (r: Result<usize, ()>)
        requires
            old(self).wf(),
        ensures
            final(self).wf(),
            (final(self)@, r) == spawned(old(self)@, task),
    {
        let n = self.tasks.len();
        let mut i: usize = 0;
        while i < n
            invariant
                self.wf(),
                *self == *old(self),
                n == self.tasks@.len(),
                i <= n,
                first_free_below(self.tasks@, i as int) is None,
            decreases n - i,
        {
            if self.tasks[i].is_none() {
                let fresh = Task { state: TaskState::Ready, waiting_event: None, ..task };
                proof {
                    lemma_first_free_grows(self.tasks@, i + 1, n as int);
                    lemma_count_update(self.tasks@, i as int, Some(fresh));
                    lemma_count_bound(self.tasks@.update(i as int, Some(fresh)));
                }
                self.tasks.set(i, Some(fresh));
                self.active_tasks = self.active_tasks + 1;
                self.needs_reschedule = true;
                return Ok(i);
            }
            i = i + 1;
        }
        Err(())
    }

    /// Enqueues `event` on the ring of its priority; hands it back when that ring
    /// is full. Waiters are released later, by the next dispatch pass.
    pub fn post_event(&mut self, event: Event) -> (r: Result<(), Event>)
        requires
            old(self).wf(),
        ensures
            final(self).wf(),
            (final(self)@, r) == posted(old(self)@, event),
    {
        let r = match event.priority {
            EventPriority::Critical => self.critical_events.push(event),
            EventPriority::High => self.high_events.push(event),
            EventPriority::Normal => self.normal_events.push(event),
            EventPriority::Low => self.low_events.push(event),
        };
        if r.is_ok() {
            self.event_counter = self.event_counter.wrapping_add(1);
            self.needs_reschedule = true;
        }
        proof {
            let rk = event.priority.rank() as int;
            assert(old(self)@.rings[rk].len() < old(self)@.ring_capacity <==> r is Ok);
            if r.is_ok() {
                assert(self@.rings =~= old(self)@.rings.update(rk, old(self)@.rings[rk].push(event)));
            } else {
                assert(self@.rings =~= old(self)@.rings);
            }
        }
        r
    }

    /// Hands a popped event to the task table: the lowest-slot task waiting for
    /// its id becomes `Ready`, counts one wake-up and takes the hot slot.
    fn handle_event(&mut self, event: Event)
        requires
            old(self).wf(),
        ensures
            final(self).wf(),
            final(self)@ == delivered(old(self)@, event),
    {
        let n = self.tasks.len();
        let mut i: usize = 0;
        while i < n
            invariant
                self.wf(),
                *self == *old(self),
                n == self.tasks@.len(),
                i <= n,
                first_waiter_below(self.tasks@, event.id, i as int) is None,
            decreases n - i,
        {
            if let Some(t) = self.tasks[i] {
                if t.state == TaskState::WaitingForEvent(event.id) {
                    proof {
                        lemma_first_waiter_grows(self.tasks@, event.id, i + 1, n as int);
                        lemma_count_update(self.tasks@, i as int, Some(woken(t)));
                    }
                    let w = Task {
                        state: TaskState::Ready,
                        waiting_event: None,
                        wake_count: t.wake_count.wrapping_add(1),
                        ..t
                    };
                    self.tasks.set(i, Some(w));
                    self.next_task = Some(i);
                    self.needs_reschedule = true;
                    return;
                }
            }
            i = i + 1;
        }
    }

    /// One dispatch pass: pops one event from each non-empty ring, Critical,
    /// High, Normal then Low, delivers each, and returns them in that order.
    #[verifier::rlimit(40)]
    pub fn dispatch_once(&mut self) -> (r: Vec<Event>)
        requires
            old(self).wf(),
        ensures
            final(self).wf(),
            final(self)@ == dispatched(old(self)@),
            r@ == dispatch_popped(old(self)@),
    {
        let ghost m0 = self@;
        let mut popped: Vec<Event> = Vec::new();
        if let Some(e) = self.critical_events.pop() {
            proof {
                assert(self@.rings =~= m0.rings.update(0, m0.rings[0].drop_first()));
                lemma_pop_keeps_wf(m0, 0);
            }
            self.handle_event(e);
            popped.push(e);
        } else {
            assert(self@.rings =~= m0.rings);
        }
        let ghost m1 = self@;
        assert(m1 == dispatch_step(m0, 0));
        if let Some(e) = self.high_events.pop() {
            proof {
                assert(self@.rings =~= m1.rings.update(1, m1.rings[1].drop_first()));
                lemma_pop_keeps_wf(m1, 1);
            }
            self.handle_event(e);
            popped.push(e);
        } else {
            assert(self@.rings =~= m1.rings);
        }
        let ghost m2 = self@;
        assert(m2 == dispatch_step(m1, 1));
        if let Some(e) = self.normal_events.pop() {
            proof {
                assert(self@.rings =~= m2.rings.update(2, m2.rings[2].drop_first()));
                lemma_pop_keeps_wf(m2, 2);
            }
            self.handle_event(e);
            popped.push(e);
        } else {
            assert(self@.rings =~= m2.rings);
        }
        let ghost m3 = self@;
        assert(m3 == dispatch_step(m2, 2));
        if let Some(e) = self.low_events.pop() {
            proof {
                assert(self@.rings =~= m3.rings.update(3, m3.rings[3].drop_first()));
                lemma_pop_keeps_wf(m3, 3);
            }
            self.handle_event(e);
            popped.push(e);
        } else {
            assert(self@.rings =~= m3.rings);
        }
        assert(popped@ =~= dispatch_popped(m0));
        popped
    }

    /// Runs one dispatch pass and returns how many events it consumed (0 to 4).
    pub fn process_events(&mut self) -> (r: u32)
        requires
            old(self).wf(),
        ensures
            final(self).wf(),
            final(self)@ == dispatched(old(self)@),
            r == dispatch_popped(old(self)@).len(),
    {
        let popped = self.dispatch_once();
        popped.len() as u32
    }

    /// Puts the running task, if any, back to `Ready`.
    fn demote_current(&mut self)
        requires
            old(self).wf(),
        ensures
            final(self)@ == demoted(old(self)@),
            final(self).critical_events == old(self).critical_events,
            final(self).high_events == old(self).high_events,
            final(self).normal_events == old(self).normal_events,
            final(self).low_events == old(self).low_events,
            final(self).active_tasks == old(self).active_tasks,
            final(self).active_tasks as nat == final(self)@.active(),
            forall|i: int|
                0 <= i < final(self)@.slots.len() ==> !#[trigger] is_running(final(self)@.slots[i]),
    {
        if let Some(c) = self.current_task {
            if let Some(t) = self.tasks[c] {
                if t.state == TaskState::Running {
                    proof {
                        lemma_count_update(self.tasks@, c as int, Some(with_state(t, TaskState::Ready)));
                    }
                    self.tasks.set(c, Some(Task { state: TaskState::Ready, ..t }));
                }
            }
        }
    }

    /// Full rescan: the running task goes back to `Ready`, then the ready task of
    /// best priority becomes the running one, ties going to the first met walking
    /// the table from just after the old running slot.
    fn reschedule(&mut self) -> (r: Option<usize>)
        requires
            old(self).wf(),
            old(self)@.hot is None,
        ensures
            final(self).wf(),
            (final(self)@, r) == rescheduled(old(self)@),
    {
        let n = self.tasks.len();
        let start: usize = match self.current_task {
            Some(c) => if c + 1 < n {
                c + 1
            } else {
                0
            },
            None => 0,
        };
        self.demote_current();
        let ghost d = self@;
        let ghost snap = *self;
        let mut best: Option<usize> = None;
        let mut best_slot: usize = 0;
        let mut best_rank: u8 = 0;
        let mut k: usize = 0;
        while k < n
            invariant
                *self == snap,
                self@ == d,
                n == d.slots.len(),
                start < n,
                k <= n,
                best is None <==> best_step(d.slots, start as int, k as int) is None,
                best matches Some(b) ==> best_step(d.slots, start as int, k as int) == Some(b as int)
                    && best_slot == rr_slot(start as int, b as int, n as int) && best_rank as nat
                    == prio(d.slots, best_slot as int),
            decreases n - k,
        {
            let idx = if start < n - k {
                start + k
            } else {
                start - (n - k)
            };
            if let Some(t) = self.tasks[idx] {
                if t.state == TaskState::Ready && (best.is_none() || t.priority.level()
                    < best_rank) {
                    best = Some(k);
                    best_slot = idx;
                    best_rank = t.priority.level();
                }
            }
            k = k + 1;
        }
        self.needs_reschedule = false;
        match best {
            Some(b) => {
                proof {
                    lemma_best_step(d.slots, start as int, n as int);
                }
                let t = self.tasks[best_slot].unwrap();
                proof {
                    lemma_count_update(self.tasks@, best_slot as int, Some(with_state(t, TaskState::Running)));
                }
                self.tasks.set(best_slot, Some(Task { state: TaskState::Running, ..t }));
                self.current_task = Some(best_slot);
                assert forall|i: int|
                    0 <= i < self@.slots.len() && #[trigger] is_running(self@.slots[i]) implies i
                        == best_slot as int by {
                    if i != best_slot as int {
                        assert(self@.slots[i] == d.slots[i]);
                    }
                }
                Some(best_slot)
            },
            None => {
                self.current_task = None;
                None
            },
        }
    }

    /// Picks the task to run next: after a dispatch pass, the hot slot if its task
    /// is ready; otherwise a full rescan when one is due or nothing runs;
    /// otherwise the running task goes on. Returns the running slot, if any.
    pub fn schedule(&mut self) -> (r: Option<usize>)
        requires
            old(self).wf(),
        ensures
            final(self).wf(),
            (final(self)@, r) == scheduled(old(self)@),
            r matches Some(s) ==> s < final(self)@.slots.len() && final(self)@.current == Some(s)
                && is_running(final(self)@.slots[s as int]),
            r is None ==> final(self)@.current is None,
    {
        self.dispatch_once();
        let ghost d = self@;
        let hot = self.next_task.take();
        if let Some(h) = hot {
            if let Some(t) = self.tasks[h] {
                if t.state == TaskState::Ready {
                    self.demote_current();
                    let t2 = self.tasks[h].unwrap();
                    proof {
                        lemma_count_update(self.tasks@, h as int, Some(with_state(t2, TaskState::Running)));
                    }
                    self.tasks.set(h, Some(Task { state: TaskState::Running, ..t2 }));
                    self.current_task = Some(h);
                    self.needs_reschedule = false;
                    assert forall|i: int|
                        0 <= i < self@.slots.len() && #[trigger] is_running(self@.slots[i]) implies i
                            == h as int by {
                        if i != h as int {
                            assert(self@.slots[i] == demoted(d).slots[i]);
                        }
                    }
                    assert(self@ == promoted(SchedModel { hot: None, ..demoted(d) }, h as int));
                    return Some(h);
                }
            }
        }
        if self.needs_reschedule || self.current_task.is_none() {
            return self.reschedule();
        }
        self.current_task
    }

    /// The running task blocks until an event with id `event_id` is dispatched;
    /// nothing runs afterwards. Without a running task nothing changes.
    pub fn block_current_task(&mut self, event_id: u32)
        requires
            old(self).wf(),
        ensures
            final(self).wf(),
            final(self)@ == blocked(old(self)@, event_id),
    {
        if let Some(c) = self.current_task {
            let t = self.tasks[c].unwrap();
            let b = Task {
                state: TaskState::WaitingForEvent(event_id),
                waiting_event: Some(event_id),
                ..t
            };
            proof {
                lemma_count_update(self.tasks@, c as int, Some(b));
            }
            self.tasks.set(c, Some(b));
            self.current_task = None;
            self.needs_reschedule = true;
            assert forall|i: int|
                0 <= i < self@.slots.len() && #[trigger] is_running(self@.slots[i]) implies false by {
                if i != c as int {
                    assert(self@.slots[i] == old(self)@.slots[i]);
                }
            }
        }
    }

    /// The running task sleeps until the tick reaches the current tick plus
    /// `duration` (wrapping); nothing runs afterwards. Without a running task
    /// nothing changes.
    pub fn sleep_current_task(&mut self, duration: u32)
        requires
            old(self).wf(),
        ensures
            final(self).wf(),
            final(self)@ == slept(old(self)@, duration),
    {
        if let Some(c) = self.current_task {
            let t = self.tasks[c].unwrap();
            let deadline = self.timer_base.wrapping_add(duration);
            let b = Task { state: TaskState::Sleeping(deadline), ..t };
            proof {
                lemma_count_update(self.tasks@, c as int, Some(b));
            }
            self.tasks.set(c, Some(b));
            self.current_task = None;
            self.needs_reschedule = true;
            assert forall|i: int|
                0 <= i < self@.slots.len() && #[trigger] is_running(self@.slots[i]) implies false by {
                if i != c as int {
                    assert(self@.slots[i] == old(self)@.slots[i]);
                }
            }
        }
    }

    /// Sets the tick to `current_time` and makes every sleeping task whose
    /// deadline has passed `Ready`, counting one wake-up for each; a rescan is
    /// due if any woke. The hot slot is left alone.
    pub fn update_timer(&mut self, current_time: u32)
        requires
            old(self).wf(),
        ensures
            final(self).wf(),
            final(self)@ == ticked(old(self)@, current_time),
    {
        self.timer_base = current_time;
        let n = self.tasks.len();
        let mut i: usize = 0;
        while i < n
            invariant
                n == self.tasks@.len(),
                n == old(self).tasks@.len(),
                i <= n,
                self.timer_base == current_time,
                self.current_task == old(self).current_task,
                self.next_task == old(self).next_task,
                self.critical_events == old(self).critical_events,
                self.high_events == old(self).high_events,
                self.normal_events == old(self).normal_events,
                self.low_events == old(self).low_events,
                self.event_counter == old(self).event_counter,
                self.active_tasks == old(self).active_tasks,
                self.active_tasks as nat == count_some(self.tasks@),
                forall|j: int|
                    0 <= j < i ==> #[trigger] self.tasks@[j] == wake_sleepers(
                        old(self).tasks@,
                        current_time,
                    )[j],
                forall|j: int| i <= j < n ==> #[trigger] self.tasks@[j] == old(self).tasks@[j],
                self.needs_reschedule == (old(self).needs_reschedule || exists|j: int|
                    0 <= j < i && #[trigger] sleep_expired(old(self).tasks@[j], current_time)),
            decreases n - i,
        {
            proof {
                assert(self.tasks@[i as int] == old(self).tasks@[i as int]);
                if sleep_expired(old(self).tasks@[i as int], current_time) {
                    assert(exists|j: int|
                        0 <= j < i + 1 && #[trigger] sleep_expired(old(self).tasks@[j], current_time));
                }
            }
            if let Some(t) = self.tasks[i] {
                if let TaskState::Sleeping(deadline) = t.state {
                    let diff = deadline.wrapping_sub(current_time);
                    if diff == 0 || diff >= 0x8000_0000 {
                        let w = Task {
                            state: TaskState::Ready,
                            waiting_event: None,
                            wake_count: t.wake_count.wrapping_add(1),
                            ..t
                        };
                        proof {
                            lemma_count_update(self.tasks@, i as int, Some(w));
                        }
                        self.tasks.set(i, Some(w));
                        self.needs_reschedule = true;
                    }
                }
            }
            i = i + 1;
        }
        proof {
            assert(self.tasks@ =~= wake_sleepers(old(self).tasks@, current_time));
            assert forall|j: int|
                0 <= j < n && #[trigger] is_running(self@.slots[j]) implies is_running(
                old(self)@.slots[j],
            ) by {
                assert(self.tasks@[j] == wake_sleepers(old(self).tasks@, current_time)[j]);
            }
        }
    }

    /// Asks for a full rescan at the next `schedule`: the running task yields to
    /// the next ready task of its priority, walking the table from just after it.
    pub fn yield_current_task(&mut self)
        requires
            old(self).wf(),
        ensures
            final(self).wf(),
            final(self)@ == (SchedModel { needs_reschedule: true, ..old(self)@ }),
    {
        self.needs_reschedule = true;
    }

    /// Marks the task in `slot` `Completed`; it stops running and leaves the hot
    /// slot. An empty or out-of-range slot changes nothing.
    pub fn finish_task(&mut self, slot: usize)
        requires
            old(self).wf(),
        ensures
            final(self).wf(),
            final(self)@ == finished(old(self)@, slot),
    {
        if slot < self.tasks.len() {
            if let Some(t) = self.tasks[slot] {
                let c = Task { state: TaskState::Completed, waiting_event: None, ..t };
                proof {
                    lemma_count_update(self.tasks@, slot as int, Some(c));
                }
                self.tasks.set(slot, Some(c));
                if self.current_task == Some(slot) {
                    self.current_task = None;
                }
                if self.next_task == Some(slot) {
                    self.next_task = None;
                }
                self.needs_reschedule = true;
                assert forall|i: int|
                    0 <= i < self@.slots.len() && #[trigger] is_running(self@.slots[i]) implies self@.current
                    == Some(i as usize) by {
                    assert(self@.slots[i] == old(self)@.slots[i]);
                }
            }
        }
    }

    /// Releases `slot`, which then counts as free; an empty or out-of-range slot
    /// changes nothing.
    pub fn free_task(&mut self, slot: usize)
        requires
            old(self).wf(),
        ensures
            final(self).wf(),
            final(self)@ == freed(old(self)@, slot),
    {
        if slot < self.tasks.len() {
            if self.tasks[slot].is_some() {
                proof {
                    lemma_count_update(self.tasks@, slot as int, None);
                }
                self.tasks.set(slot, None);
                self.active_tasks = self.active_tasks - 1;
                if self.current_task == Some(slot) {
                    self.current_task = None;
                }
                if self.next_task == Some(slot) {
                    self.next_task = None;
                }
                self.needs_reschedule = true;
                assert forall|i: int|
                    0 <= i < self@.slots.len() && #[trigger] is_running(self@.slots[i]) implies self@.current
                    == Some(i as usize) by {
                    assert(self@.slots[i] == old(self)@.slots[i]);
                }
            }
        }
    }

    /// The task record in `slot`, if the slot is occupied.
    pub fn task(&self, slot: usize) -> (r: Option<Task>)
        requires
            self.wf(),
        ensures
            slot < self@.slots.len() ==> r == self@.slots[slot as int],
            slot >= self@.slots.len() ==> r is None,
    {
        if slot < self.tasks.len() {
            self.tasks[slot]
        } else {
            None
        }
    }

    /// Number of task slots.
    pub fn max_tasks(&self) -> (r: usize)
        requires
            self.wf(),
        ensures
            r == self@.slots.len(),
    {
        self.tasks.len()
    }

    /// The running task, if any.
    pub fn current_task(&self) -> (r: Option<Task>)
        requires
            self.wf(),
        ensures
            self@.current matches Some(c) ==> r == self@.slots[c as int],
            self@.current is None ==> r is None,
    {
        match self.current_task {
            Some(c) => self.tasks[c],
            None => None,
        }
    }

    /// Whether any slot is occupied.
    pub fn has_active_tasks(&self) -> (r: bool)
        requires
            self.wf(),
        ensures
            r == (self@.active() > 0),
    {
        self.active_tasks > 0
    }

    /// Whether some task is `Ready`.
    pub fn has_ready_tasks(&self) -> (r: bool)
        requires
            self.wf(),
        ensures
            r == exists|i: int| 0 <= i < self@.slots.len() && #[trigger] is_ready(self@.slots[i]),
    {
        let n = self.tasks.len();
        let mut i: usize = 0;
        while i < n
            invariant
                n == self@.slots.len(),
                i <= n,
                forall|j: int| 0 <= j < i ==> !#[trigger] is_ready(self@.slots[j]),
            decreases n - i,
        {
            if let Some(t) = self.tasks[i] {
                if t.is_ready() {
                    assert(is_ready(self@.slots[i as int]));
                    return true;
                }
            }
            i = i + 1;
        }
        false
    }

    /// `(occupied slots, successful posts, current tick)`; the post count wraps.
    pub fn stats(&self) -> (r: (u32, u32, u32))
        requires
            self.wf(),
        ensures
            r.0 as nat == self@.active(),
            r.1 == self@.events_total,
            r.2 == self@.tick,
    {
        (self.active_tasks, self.event_counter, self.timer_base)
    }
}

proof fn lemma_count_none(s: Seq<Option<Task>>)
    requires
        forall|i: int| 0 <= i < s.len() ==> #[trigger] s[i] is None,
    ensures
        count_some(s) == 0,
    decreases s.len(),
{
    if s.len() > 0 {
        lemma_count_none(s.drop_last());
    }
}

} // verus!
