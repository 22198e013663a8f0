//! Properties of the scheduler stated over its model and proved from the
//! definitions that the operations' contracts use.
use vstd::prelude::*;
use crate::event::{Event, EventPriority};
use crate::model::{
    SchedModel, delivered, demoted, dispatch_popped, dispatch_step, dispatched, expired,
    first_free, first_waiter, head_of, is_ready, is_running, lemma_best_step,
    lemma_count_update, lemma_first_free_is_first, lemma_first_waiter_is_first, posted, prio,
    rescheduled, rr_slot, rr_start, scheduled, spawned, ticked, waits_for, wake_sleepers,
};
use crate::task::{Task, TaskState};

verus! {

/// Posts every event of `es` in turn and collects the results.
pub open spec fn post_all(m: SchedModel, es: Seq<Event>) -> SchedModel
    decreases es.len(),
{
    if es.len() == 0 {
        m
    } else {
        posted(post_all(m, es.drop_last()), es.last()).0
    }
}

/// `k` dispatch passes in a row.
pub open spec fn dispatched_n(m: SchedModel, k: nat) -> SchedModel
    decreases k,
{
    if k == 0 {
        m
    } else {
        dispatched(dispatched_n(m, (k - 1) as nat))
    }
}

/// In a well-formed state at most one task is `Running`, and it is the one that
/// `current` names.
pub proof fn law_single_running(m: SchedModel)
    requires
        m.wf(),
    ensures
        forall|i: int, j: int|
            0 <= i < m.slots.len() && 0 <= j < m.slots.len() && #[trigger] is_running(m.slots[i])
                && #[trigger] is_running(m.slots[j]) ==> i == j,
{
}

proof fn lemma_dispatch_ring(m: SchedModel, r: int)
    requires
        m.rings.len() == 4,
        0 <= r < 4,
    ensures
        dispatched(m).rings.len() == 4,
        m.rings[r].len() > 0 ==> dispatched(m).rings[r] == m.rings[r].drop_first(),
        m.rings[r].len() == 0 ==> dispatched(m).rings[r] == m.rings[r],
{
    let m1 = dispatch_step(m, 0);
    let m2 = dispatch_step(m1, 1);
    let m3 = dispatch_step(m2, 2);
    let m4 = dispatch_step(m3, 3);
    assert(m1.rings == (if m.rings[0].len() > 0 { m.rings.update(0, m.rings[0].drop_first()) } else { m.rings }));
    assert(m2.rings == (if m1.rings[1].len() > 0 { m1.rings.update(1, m1.rings[1].drop_first()) } else { m1.rings }));
    assert(m3.rings == (if m2.rings[2].len() > 0 { m2.rings.update(2, m2.rings[2].drop_first()) } else { m2.rings }));
    assert(m4.rings == (if m3.rings[3].len() > 0 { m3.rings.update(3, m3.rings[3].drop_first()) } else { m3.rings }));
}

proof fn lemma_post_all_ring(m: SchedModel, es: Seq<Event>, p: EventPriority)
    requires
        m.rings.len() == 4,
        forall|i: int| 0 <= i < es.len() ==> (#[trigger] es[i]).priority == p,
        m.ring(p).len() + es.len() <= m.ring_capacity,
    ensures
        post_all(m, es).rings.len() == 4,
        post_all(m, es).ring_capacity == m.ring_capacity,
        post_all(m, es).ring(p) == m.ring(p) + es,
    decreases es.len(),
{
    if es.len() > 0 {
        let prev = es.drop_last();
        lemma_post_all_ring(m, prev, p);
        assert(m.ring(p) + es =~= (m.ring(p) + prev).push(es.last()));
    } else {
        assert(m.ring(p) + es =~= m.ring(p));
    }
}

/// `spawn` takes the lowest free slot, leaves the task there `Ready`, and adds one
/// to the count of occupied slots; it fails only on a full table, changing nothing.
pub proof fn law_spawn_takes_lowest_free_slot(m: SchedModel, task: Task)
    requires
        m.wf(),
    ensures
        spawned(m, task).1 matches Ok(i) ==> {
            &&& i < m.slots.len()
            &&& m.slots[i as int] is None
            &&& forall|j: int| 0 <= j < i ==> #[trigger] m.slots[j] is Some
            &&& is_ready(spawned(m, task).0.slots[i as int])
            &&& spawned(m, task).0.active() == m.active() + 1
        },
        spawned(m, task).1 is Err ==> spawned(m, task).0 == m && forall|j: int|
            0 <= j < m.slots.len() ==> #[trigger] m.slots[j] is Some,
{
    lemma_first_free_is_first(m.slots, m.slots.len() as int);
    if let Some(i) = first_free(m.slots) {
        lemma_count_update(
            m.slots,
            i,
            Some(Task { state: TaskState::Ready, waiting_event: None, ..task }),
        );
    }
}

/// Events of one priority leave in the order they were posted: after posting
/// `es` into an empty ring, dispatch pass number `k + 1` pops `es[k]` from it.
pub proof fn law_fifo_per_priority(m: SchedModel, es: Seq<Event>, p: EventPriority)
    requires
        m.wf(),
        m.ring(p).len() == 0,
        forall|i: int| 0 <= i < es.len() ==> (#[trigger] es[i]).priority == p,
        es.len() <= m.ring_capacity,
    ensures
        forall|k: nat|
            k < es.len() ==> head_of(#[trigger] dispatched_n(post_all(m, es), k), p.rank() as int)
                == seq![es[k as int]],
{
    lemma_post_all_ring(m, es, p);
    let m1 = post_all(m, es);
    assert(m1.ring(p) =~= es);
    assert forall|k: nat| k < es.len() implies head_of(
        #[trigger] dispatched_n(m1, k),
        p.rank() as int,
    ) == seq![es[k as int]] by {
        lemma_dispatched_n_ring(m1, k, p.rank() as int);
        assert(dispatched_n(m1, k).rings[p.rank() as int] == es.skip(k as int));
    }
}

proof fn lemma_dispatched_n_ring(m: SchedModel, k: nat, r: int)
    requires
        m.rings.len() == 4,
        0 <= r < 4,
        k <= m.rings[r].len(),
    ensures
        dispatched_n(m, k).rings.len() == 4,
        dispatched_n(m, k).rings[r] == m.rings[r].skip(k as int),
    decreases k,
{
    if k > 0 {
        lemma_dispatched_n_ring(m, (k - 1) as nat, r);
        let prev = dispatched_n(m, (k - 1) as nat);
        lemma_dispatch_ring(prev, r);
        assert(m.rings[r].skip(k - 1).drop_first() =~= m.rings[r].skip(k as int));
    } else {
        assert(m.rings[r].skip(0) =~= m.rings[r]);
    }
}

/// A dispatch pass pops in strict priority order: a non-empty Critical ring gives
/// the first event, and each popped event has a lower rank than the next.
pub proof fn law_priority_dominance(m: SchedModel)
    requires
        m.wf(),
    ensures
        m.ring(EventPriority::Critical).len() > 0 ==> dispatch_popped(m)[0] == m.ring(
            EventPriority::Critical,
        )[0],
        forall|i: int, j: int|
            0 <= i < j < dispatch_popped(m).len() ==> (#[trigger] dispatch_popped(m)[i]).priority.rank()
                < (#[trigger] dispatch_popped(m)[j]).priority.rank(),
{
    let p = dispatch_popped(m);
    assert forall|i: int, j: int|
        0 <= i < j < p.len() implies (#[trigger] p[i]).priority.rank() < (
        #[trigger] p[j]).priority.rank() by {
        assert(forall|r: int| 0 <= r < 4 ==> #[trigger] head_of(m, r).len() <= 1);
        assert(forall|r: int|
            0 <= r < 4 && #[trigger] head_of(m, r).len() == 1 ==> head_of(m, r)[0].priority.rank()
                == r);
    }
}

/// One event releases at most one task: the lowest-slot waiter for its id, if
/// any, becomes `Ready`; every other slot, other waiters included, is unchanged.
pub proof fn law_one_wake_per_event(m: SchedModel, e: Event)
    requires
        m.wf(),
    ensures
        first_waiter(m.slots, e.id) matches Some(w) ==> {
            &&& waits_for(m.slots[w], e.id)
            &&& forall|j: int| 0 <= j < w ==> !waits_for(#[trigger] m.slots[j], e.id)
            &&& is_ready(delivered(m, e).slots[w])
            &&& forall|j: int|
                0 <= j < m.slots.len() && j != w ==> #[trigger] delivered(m, e).slots[j] == m.slots[j]
        },
        first_waiter(m.slots, e.id) is None ==> delivered(m, e) == m,
{
    lemma_first_waiter_is_first(m.slots, e.id, m.slots.len() as int);
}

/// No wake is lost: with no other event pending, posting `e` and then scheduling
/// runs the task that waited for it first, at the first `schedule` already.
pub proof fn law_no_lost_wake(m: SchedModel, e: Event, w: int)
    requires
        m.wf(),
        forall|r: int| 0 <= r < 4 ==> (#[trigger] m.rings[r]).len() == 0,
        first_waiter(m.slots, e.id) == Some(w),
    ensures
        scheduled(posted(m, e).0).1 == Some(w as usize),
        is_running(scheduled(posted(m, e).0).0.slots[w]),
{
    lemma_first_waiter_is_first(m.slots, e.id, m.slots.len() as int);
    let rk = e.priority.rank() as int;
    let m1 = posted(m, e).0;
    assert(m.rings[rk].len() == 0);
    assert(m.rings[rk].push(e) =~= seq![e]);
    assert(m1.rings =~= m.rings.update(rk, seq![e]));
    let d = dispatched(m1);
    let d0 = dispatch_step(m1, 0);
    let d1 = dispatch_step(d0, 1);
    let d2 = dispatch_step(d1, 2);
    let d3 = dispatch_step(d2, 3);
    let popped = SchedModel { rings: m1.rings.update(rk, m1.rings[rk].drop_first()), ..m1 };
    assert(popped.slots == m.slots);
    if rk == 0 {
        assert(d0 == delivered(popped, e));
        assert(d3 == d0);
    } else if rk == 1 {
        assert(d0 == m1);
        assert(d1 == delivered(popped, e));
        assert(d3 == d1);
    } else if rk == 2 {
        assert(d1 == m1);
        assert(d2 == delivered(popped, e));
        assert(d3 == d2);
    } else {
        assert(d2 == m1);
        assert(d3 == delivered(popped, e));
    }
    assert(d.hot == Some(w as usize));
    assert(is_ready(d.slots[w]));
}

/// A sleeping task is `Ready` after the clock advances to `t` exactly when its
/// deadline `d` has passed; within half the 32-bit range this means: ready once
/// `t` reaches `d`, still sleeping before.
pub proof fn law_sleep_expiry(m: SchedModel, slot: int, d: u32, t: u32)
    requires
        m.wf(),
        0 <= slot < m.slots.len(),
        m.slots[slot] is Some,
        m.slots[slot].unwrap().state == TaskState::Sleeping(d),
    ensures
        is_ready(ticked(m, t).slots[slot]) <==> expired(d, t),
        !expired(d, t) ==> ticked(m, t).slots[slot] == m.slots[slot],
        d <= t < d + 0x8000_0000 ==> is_ready(ticked(m, t).slots[slot]),
        t < d < t + 0x8000_0000 ==> !is_ready(ticked(m, t).slots[slot]),
{
    assert(ticked(m, t).slots[slot] == wake_sleepers(m.slots, t)[slot]);
}

/// A post into a full ring hands the event back and changes nothing.
pub proof fn law_full_ring_rejects(m: SchedModel, e: Event)
    requires
        m.wf(),
        m.ring(e.priority).len() == m.ring_capacity,
    ensures
        posted(m, e) == (m, Err::<(), Event>(e)),
{
}

/// Round robin among equals: when every task that could run has the same
/// priority, a yield followed by `schedule` runs the first ready task met walking
/// the table from just after the running one, the yielding task coming last.
pub proof fn law_round_robin(m: SchedModel, c: int)
    requires
        m.wf(),
        0 <= c < m.slots.len(),
        m.current == Some(c as usize),
        m.hot is None,
        forall|r: int| 0 <= r < 4 ==> (#[trigger] m.rings[r]).len() == 0,
        forall|i: int|
            0 <= i < m.slots.len() && #[trigger] is_ready(m.slots[i]) ==> prio(m.slots, i) == prio(
                m.slots,
                c,
            ),
    ensures
        ({
            let y = SchedModel { needs_reschedule: true, ..m };
            let n = m.slots.len() as int;
            exists|k: int|
                0 <= k < n && scheduled(y).1 == Some(rr_slot(rr_start(m), k, n) as usize) && (is_ready(
                    m.slots[rr_slot(rr_start(m), k, n)],
                ) || rr_slot(rr_start(m), k, n) == c) && forall|j: int|
                    0 <= j < k ==> !is_ready(#[trigger] m.slots[rr_slot(rr_start(m), j, n)])
                        && rr_slot(rr_start(m), j, n) != c
        }),
{
    let y = SchedModel { needs_reschedule: true, ..m };
    let n = m.slots.len() as int;
    assert(dispatched(y) == y) by {
        assert(dispatch_step(y, 0) == y);
        assert(dispatch_step(y, 1) == y);
        assert(dispatch_step(y, 2) == y);
        assert(dispatch_step(y, 3) == y);
    }
    let dm = demoted(y);
    let start = rr_start(m);
    lemma_best_step(dm.slots, start, n);
    let k_c = if c >= start { c - start } else { c + n - start };
    assert(rr_slot(start, k_c, n) == c);
    assert(is_ready(dm.slots[c]));
    let b = crate::model::best_step(dm.slots, start, n).unwrap();
    let s = rr_slot(start, b, n);
    assert(scheduled(y) == rescheduled(y));
    assert forall|j: int| 0 <= j < b implies !is_ready(
        #[trigger] m.slots[rr_slot(start, j, n)],
    ) && rr_slot(start, j, n) != c by {
        let sj = rr_slot(start, j, n);
        if sj == c {
            assert(is_ready(dm.slots[rr_slot(start, k_c, n)]));
        } else {
            assert(dm.slots[sj] == m.slots[sj]);
            if is_ready(m.slots[sj]) {
                assert(is_ready(dm.slots[rr_slot(start, j, n)]));
            }
        }
    }
    if s != c {
        assert(dm.slots[s] == m.slots[s]);
    }
}

} // verus!
