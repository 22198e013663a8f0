//! Mathematical model of the scheduler: its state as plain values and each
//! operation as a function from state to state.
use vstd::prelude::*;
use crate::event::{Event, EventPriority};
use crate::task::{Task, TaskState, woken};

verus! {

/// The scheduler's state: the task table, the running and hot slots, the four
/// event rings indexed by priority rank, and the counters.
pub struct SchedModel {
    pub slots: Seq<Option<Task>>,
    pub current: Option<usize>,
    pub hot: Option<usize>,
    pub rings: Seq<Seq<Event>>,
    pub ring_capacity: nat,
    pub needs_reschedule: bool,
    pub events_total: u32,
    pub tick: u32,
}

pub open spec fn is_ready(slot: Option<Task>) -> bool {
    slot is Some && slot.unwrap().state == TaskState::Ready
}

pub open spec fn is_running(slot: Option<Task>) -> bool {
    slot is Some && slot.unwrap().state == TaskState::Running
}

pub open spec fn waits_for(slot: Option<Task>, id: u32) -> bool {
    slot is Some && slot.unwrap().state == TaskState::WaitingForEvent(id)
}

/// Whether a deadline has passed at `tick`: the wrapped difference
/// `deadline - tick`, read as a signed 32-bit number, is not positive.
pub open spec fn expired(deadline: u32, tick: u32) -> bool {
    let diff = deadline.wrapping_sub(tick);
    diff == 0 || diff >= 0x8000_0000
}

pub open spec fn sleep_expired(slot: Option<Task>, tick: u32) -> bool {
    slot is Some && match slot.unwrap().state {
        TaskState::Sleeping(d) => expired(d, tick),
        _ => false,
    }
}

/// Number of occupied slots.
pub open spec fn count_some(s: Seq<Option<Task>>) -> nat
    decreases s.len(),
{
    if s.len() == 0 {
        0
    } else {
        count_some(s.drop_last()) + if s.last() is Some {
            1nat
        } else {
            0nat
        }
    }
}

/// Lowest slot below `n` whose task waits for event `id`.
pub open spec fn first_waiter_below(slots: Seq<Option<Task>>, id: u32, n: int) -> Option<int>
    decreases n,
{
    if n <= 0 {
        None
    } else {
        match first_waiter_below(slots, id, n - 1) {
            Some(i) => Some(i),
            None => if waits_for(slots[n - 1], id) {
                Some(n - 1)
            } else {
                None
            },
        }
    }
}

pub open spec fn first_waiter(slots: Seq<Option<Task>>, id: u32) -> Option<int> {
    first_waiter_below(slots, id, slots.len() as int)
}

/// Lowest free slot below `n`.
pub open spec fn first_free_below(slots: Seq<Option<Task>>, n: int) -> Option<int>
    decreases n,
{
    if n <= 0 {
        None
    } else {
        match first_free_below(slots, n - 1) {
            Some(i) => Some(i),
            None => if slots[n - 1] is None {
                Some(n - 1)
            } else {
                None
            },
        }
    }
}

pub open spec fn first_free(slots: Seq<Option<Task>>) -> Option<int> {
    first_free_below(slots, slots.len() as int)
}

/// The slot reached `k` steps after `start` when walking the table cyclically.
pub open spec fn rr_slot(start: int, k: int, n: int) -> int {
    if start + k < n {
        start + k
    } else {
        start + k - n
    }
}

pub open spec fn prio(slots: Seq<Option<Task>>, i: int) -> nat {
    slots[i].unwrap().priority.rank()
}

/// Among the first `k` slots of the cyclic walk from `start`, the step at which
/// the walk meets the ready task of best priority, earliest on ties.
pub open spec fn best_step(slots: Seq<Option<Task>>, start: int, k: int) -> Option<int>
    decreases k,
{
    if k <= 0 {
        None
    } else {
        let prev = best_step(slots, start, k - 1);
        let idx = rr_slot(start, k - 1, slots.len() as int);
        if is_ready(slots[idx]) && (prev is None || prio(slots, idx) < prio(
            slots,
            rr_slot(start, prev.unwrap(), slots.len() as int),
        )) {
            Some(k - 1)
        } else {
            prev
        }
    }
}

/// The slot where the round-robin walk starts: just after the running slot.
pub open spec fn rr_start(m: SchedModel) -> int {
    match m.current {
        Some(c) => if c + 1 < m.slots.len() {
            c + 1
        } else {
            0
        },
        None => 0,
    }
}

pub open spec fn with_state(t: Task, s: TaskState) -> Task {
    Task { state: s, ..t }
}

impl SchedModel {
    pub open spec fn wf(self) -> bool {
        &&& 0 < self.slots.len() <= u32::MAX
        &&& self.rings.len() == 4
        &&& self.ring_capacity > 0
        &&& forall|r: int| 0 <= r < 4 ==> #[trigger] self.rings[r].len() <= self.ring_capacity
        &&& forall|r: int, k: int|
            0 <= r < 4 && 0 <= k < self.rings[r].len() ==> (#[trigger] self.rings[r][k]).priority.rank()
                == r
        &&& self.current is Some ==> self.current.unwrap() < self.slots.len() && is_running(
            self.slots[self.current.unwrap() as int],
        )
        &&& forall|i: int|
            0 <= i < self.slots.len() && #[trigger] is_running(self.slots[i]) ==> self.current
                == Some(i as usize)
        &&& self.hot is Some ==> self.hot.unwrap() < self.slots.len() && is_ready(
            self.slots[self.hot.unwrap() as int],
        )
    }

    /// The state of a fresh scheduler: `max_tasks` empty slots, nothing running
    /// or hot, four empty rings of `capacity` events, no rescan due, counters and
    /// clock at zero.
    pub open spec fn is_initial(self, max_tasks: nat, capacity: nat) -> bool {
        &&& self.slots == Seq::new(max_tasks, |i: int| None::<Task>)
        &&& self.current is None
        &&& self.hot is None
        &&& self.rings.len() == 4
        &&& forall|q: int| 0 <= q < 4 ==> #[trigger] self.rings[q].len() == 0
        &&& self.ring_capacity == capacity
        &&& !self.needs_reschedule
        &&& self.events_total == 0
        &&& self.tick == 0
    }

    /// The ring of priority `p`.
    pub open spec fn ring(self, p: EventPriority) -> Seq<Event> {
        self.rings[p.rank() as int]
    }

    pub open spec fn active(self) -> nat {
        count_some(self.slots)
    }
}

/// Table after `spawn`: the task occupies the first free slot, `Ready` and waiting
/// for nothing; on a full table nothing changes.
pub open spec fn spawned(m: SchedModel, task: Task) -> (SchedModel, Result<usize, ()>) {
    match first_free(m.slots) {
        Some(i) => (
            SchedModel {
                slots: m.slots.update(
                    i,
                    Some(Task { state: TaskState::Ready, waiting_event: None, ..task }),
                ),
                needs_reschedule: true,
                ..m
            },
            Ok(i as usize),
        ),
        None => (m, Err(())),
    }
}

/// State after `post`: the event joins the tail of its priority's ring, or comes
/// back when that ring is full, leaving the state as it was.
pub open spec fn posted(m: SchedModel, e: Event) -> (SchedModel, Result<(), Event>) {
    let r = e.priority.rank() as int;
    if m.rings[r].len() < m.ring_capacity {
        (
            SchedModel {
                rings: m.rings.update(r, m.rings[r].push(e)),
                needs_reschedule: true,
                events_total: m.events_total.wrapping_add(1),
                ..m
            },
            Ok(()),
        )
    } else {
        (m, Err(e))
    }
}

/// State after one popped event is handed to the task table: the lowest-slot task
/// waiting for its id, if any, is woken and becomes the hot slot.
pub open spec fn delivered(m: SchedModel, e: Event) -> SchedModel {
    match first_waiter(m.slots, e.id) {
        Some(w) => SchedModel {
            slots: m.slots.update(w, Some(woken(m.slots[w].unwrap()))),
            hot: Some(w as usize),
            needs_reschedule: true,
            ..m
        },
        None => m,
    }
}

/// One step of a dispatch pass: pop the head of ring `r`, if any, and deliver it.
pub open spec fn dispatch_step(m: SchedModel, r: int) -> SchedModel {
    if m.rings[r].len() > 0 {
        delivered(SchedModel { rings: m.rings.update(r, m.rings[r].drop_first()), ..m }, m.rings[r][0])
    } else {
        m
    }
}

/// State after one dispatch pass: one event from each non-empty ring, Critical first.
pub open spec fn dispatched(m: SchedModel) -> SchedModel {
    dispatch_step(dispatch_step(dispatch_step(dispatch_step(m, 0), 1), 2), 3)
}

pub open spec fn head_of(m: SchedModel, r: int) -> Seq<Event> {
    if m.rings[r].len() > 0 {
        seq![m.rings[r][0]]
    } else {
        Seq::empty()
    }
}

/// The events one dispatch pass pops, in the order it pops them.
pub open spec fn dispatch_popped(m: SchedModel) -> Seq<Event> {
    head_of(m, 0) + head_of(m, 1) + head_of(m, 2) + head_of(m, 3)
}

/// The running task, if any, put back to `Ready`.
pub open spec fn demoted(m: SchedModel) -> SchedModel {
    match m.current {
        Some(c) => if is_running(m.slots[c as int]) {
            SchedModel {
                slots: m.slots.update(
                    c as int,
                    Some(with_state(m.slots[c as int].unwrap(), TaskState::Ready)),
                ),
                ..m
            }
        } else {
            m
        },
        None => m,
    }
}

/// `slot` made the running task.
pub open spec fn promoted(m: SchedModel, slot: int) -> SchedModel {
    SchedModel {
        slots: m.slots.update(slot, Some(with_state(m.slots[slot].unwrap(), TaskState::Running))),
        current: Some(slot as usize),
        needs_reschedule: false,
        ..m
    }
}

/// Full rescan: the running task goes back to `Ready`, then the ready task of best
/// priority runs, ties going to the first met walking from just after the old
/// running slot.
pub open spec fn rescheduled(m: SchedModel) -> (SchedModel, Option<usize>) {
    let d = demoted(m);
    let n = m.slots.len() as int;
    match best_step(d.slots, rr_start(m), n) {
        Some(k) => {
            let s = rr_slot(rr_start(m), k, n);
            (promoted(d, s), Some(s as usize))
        },
        None => (SchedModel { current: None, needs_reschedule: false, ..d }, None),
    }
}

/// State and choice after `schedule`: a dispatch pass, then the hot slot if it is
/// ready, else a full rescan when one is due, else the running task goes on.
pub open spec fn scheduled(m: SchedModel) -> (SchedModel, Option<usize>) {
    let d = dispatched(m);
    if d.hot is Some && is_ready(d.slots[d.hot.unwrap() as int]) {
        let h = d.hot.unwrap() as int;
        (promoted(SchedModel { hot: None, ..demoted(d) }, h), Some(h as usize))
    } else {
        let d2 = SchedModel { hot: None, ..d };
        if d2.needs_reschedule || d2.current is None {
            rescheduled(d2)
        } else {
            (d2, d2.current)
        }
    }
}

/// State after the running task blocks on event `id`.
pub open spec fn blocked(m: SchedModel, id: u32) -> SchedModel {
    match m.current {
        Some(c) => SchedModel {
            slots: m.slots.update(
                c as int,
                Some(
                    Task {
                        state: TaskState::WaitingForEvent(id),
                        waiting_event: Some(id),
                        ..m.slots[c as int].unwrap()
                    },
                ),
            ),
            current: None,
            needs_reschedule: true,
            ..m
        },
        None => m,
    }
}

/// State after the running task sleeps for `duration` ticks.
pub open spec fn slept(m: SchedModel, duration: u32) -> SchedModel {
    match m.current {
        Some(c) => SchedModel {
            slots: m.slots.update(
                c as int,
                Some(
                    with_state(
                        m.slots[c as int].unwrap(),
                        TaskState::Sleeping(m.tick.wrapping_add(duration)),
                    ),
                ),
            ),
            current: None,
            needs_reschedule: true,
            ..m
        },
        None => m,
    }
}

/// The table after the clock reads `t`: every sleeper whose deadline has passed is
/// ready and counts one wake-up.
pub open spec fn wake_sleepers(slots: Seq<Option<Task>>, t: u32) -> Seq<Option<Task>> {
    Seq::new(
        slots.len(),
        |i: int|
            if sleep_expired(slots[i], t) {
                Some(woken(slots[i].unwrap()))
            } else {
                slots[i]
            },
    )
}

/// State after the clock advances to `t`.
pub open spec fn ticked(m: SchedModel, t: u32) -> SchedModel {
    SchedModel {
        slots: wake_sleepers(m.slots, t),
        tick: t,
        needs_reschedule: m.needs_reschedule || exists|i: int|
            0 <= i < m.slots.len() && #[trigger] sleep_expired(m.slots[i], t),
        ..m
    }
}

/// State after the task in `slot` finishes: it is `Completed` and neither running
/// nor hot; an empty or out-of-range slot changes nothing.
pub open spec fn finished(m: SchedModel, slot: usize) -> SchedModel {
    if slot < m.slots.len() && m.slots[slot as int] is Some {
        SchedModel {
            slots: m.slots.update(
                slot as int,
                Some(
                    Task {
                        state: TaskState::Completed,
                        waiting_event: None,
                        ..m.slots[slot as int].unwrap()
                    },
                ),
            ),
            current: if m.current == Some(slot) {
                None
            } else {
                m.current
            },
            hot: if m.hot == Some(slot) {
                None
            } else {
                m.hot
            },
            needs_reschedule: true,
            ..m
        }
    } else {
        m
    }
}

/// State after `slot` is freed; an empty or out-of-range slot changes nothing.
pub open spec fn freed(m: SchedModel, slot: usize) -> SchedModel {
    if slot < m.slots.len() && m.slots[slot as int] is Some {
        SchedModel {
            slots: m.slots.update(slot as int, None),
            current: if m.current == Some(slot) {
                None
            } else {
                m.current
            },
            hot: if m.hot == Some(slot) {
                None
            } else {
                m.hot
            },
            needs_reschedule: true,
            ..m
        }
    } else {
        m
    }
}

// ---- facts about the helper functions ----

pub proof fn lemma_pop_keeps_wf(m: SchedModel, r: int)
    requires
        m.wf(),
        0 <= r < 4,
        m.rings[r].len() > 0,
    ensures
        (SchedModel { rings: m.rings.update(r, m.rings[r].drop_first()), ..m }).wf(),
{
    let m2 = SchedModel { rings: m.rings.update(r, m.rings[r].drop_first()), ..m };
    assert forall|q: int, k: int| 0 <= q < 4 && 0 <= k < m2.rings[q].len() implies (
    #[trigger] m2.rings[q][k]).priority.rank() == q by {
        if q == r {
            assert(m2.rings[q][k] == m.rings[q][k + 1]);
        } else {
            assert(m2.rings[q] == m.rings[q]);
        }
    }
    assert forall|q: int| 0 <= q < 4 implies #[trigger] m2.rings[q].len() <= m2.ring_capacity by {
        if q != r {
            assert(m2.rings[q] == m.rings[q]);
        }
    }
}

pub proof fn lemma_count_update(s: Seq<Option<Task>>, i: int, v: Option<Task>)
    requires
        0 <= i < s.len(),
    ensures
        count_some(s.update(i, v)) + (if s[i] is Some {
            1nat
        } else {
            0nat
        }) == count_some(s) + (if v is Some {
            1nat
        } else {
            0nat
        }),
    decreases s.len(),
{
    let u = s.update(i, v);
    if i == s.len() - 1 {
        assert(u.drop_last() =~= s.drop_last());
    } else {
        lemma_count_update(s.drop_last(), i, v);
        assert(u.drop_last() =~= s.drop_last().update(i, v));
    }
}

pub proof fn lemma_count_bound(s: Seq<Option<Task>>)
    ensures
        count_some(s) <= s.len(),
    decreases s.len(),
{
    if s.len() > 0 {
        lemma_count_bound(s.drop_last());
    }
}

pub proof fn lemma_first_waiter_grows(slots: Seq<Option<Task>>, id: u32, k: int, n: int)
    requires
        0 <= k <= n,
        first_waiter_below(slots, id, k) is Some,
    ensures
        first_waiter_below(slots, id, n) == first_waiter_below(slots, id, k),
    decreases n - k,
{
    if n > k {
        lemma_first_waiter_grows(slots, id, k, n - 1);
    }
}

pub proof fn lemma_first_waiter_is_first(slots: Seq<Option<Task>>, id: u32, n: int)
    requires
        0 <= n <= slots.len(),
    ensures
        first_waiter_below(slots, id, n) matches Some(w) ==> 0 <= w < n && waits_for(slots[w], id)
            && forall|j: int| 0 <= j < w ==> !waits_for(#[trigger] slots[j], id),
        first_waiter_below(slots, id, n) is None ==> forall|j: int|
            0 <= j < n ==> !waits_for(#[trigger] slots[j], id),
    decreases n,
{
    if n > 0 {
        lemma_first_waiter_is_first(slots, id, n - 1);
    }
}

pub proof fn lemma_first_free_grows(slots: Seq<Option<Task>>, k: int, n: int)
    requires
        0 <= k <= n,
        first_free_below(slots, k) is Some,
    ensures
        first_free_below(slots, n) == first_free_below(slots, k),
    decreases n - k,
{
    if n > k {
        lemma_first_free_grows(slots, k, n - 1);
    }
}

pub proof fn lemma_first_free_is_first(slots: Seq<Option<Task>>, n: int)
    requires
        0 <= n <= slots.len(),
    ensures
        first_free_below(slots, n) matches Some(w) ==> 0 <= w < n && slots[w] is None && forall|
            j: int,
        | 0 <= j < w ==> #[trigger] slots[j] is Some,
        first_free_below(slots, n) is None ==> forall|j: int|
            0 <= j < n ==> #[trigger] slots[j] is Some,
    decreases n,
{
    if n > 0 {
        lemma_first_free_is_first(slots, n - 1);
    }
}

pub proof fn lemma_best_step(slots: Seq<Option<Task>>, start: int, k: int)
    requires
        0 <= start < slots.len(),
        0 <= k <= slots.len(),
    ensures
        best_step(slots, start, k) matches Some(b) ==> 0 <= b < k && is_ready(
            slots[rr_slot(start, b, slots.len() as int)],
        ) && forall|j: int|
            0 <= j < k && #[trigger] is_ready(slots[rr_slot(start, j, slots.len() as int)]) ==> prio(
                slots,
                rr_slot(start, b, slots.len() as int),
            ) < prio(slots, rr_slot(start, j, slots.len() as int)) || (prio(
                slots,
                rr_slot(start, b, slots.len() as int),
            ) == prio(slots, rr_slot(start, j, slots.len() as int)) && b <= j),
        best_step(slots, start, k) is None ==> forall|j: int|
            0 <= j < k ==> !#[trigger] is_ready(slots[rr_slot(start, j, slots.len() as int)]),
    decreases k,
{
    if k > 0 {
        lemma_best_step(slots, start, k - 1);
    }
}

} // verus!
