use karatos::event::{Event, EventPriority, TaskPriority};
use karatos::ring::EventRing;
use karatos::scheduler::{AsyncScheduler, MAX_EVENTS_PER_PRIORITY, MAX_TASKS};
use karatos::task::{AsyncTask, Task, TaskState};

fn state(s: &AsyncScheduler, slot: usize) -> TaskState {
    s.task(slot).unwrap().state
}

fn running_count(s: &AsyncScheduler) -> usize {
    let mut n = 0;
    for i in 0..s.max_tasks() {
        if let Some(t) = s.task(i) {
            if t.state == TaskState::Running {
                n += 1;
            }
        }
    }
    n
}

fn ids(events: &[Event]) -> Vec<u32> {
    events.iter().map(|e| e.id).collect()
}

#[test]
fn post_wake_single() {
    let mut s = AsyncScheduler::new();
    assert_eq!(s.spawn_task(Task::with_priority(0, TaskPriority::Normal)), Ok(0));
    assert_eq!(s.schedule(), Some(0));
    s.block_current_task(7);
    assert_eq!(state(&s, 0), TaskState::WaitingForEvent(7));
    assert_eq!(s.task(0).unwrap().waiting_event, Some(7));
    assert!(s.post_event(Event::with_data(7, EventPriority::Normal, 0)).is_ok());
    assert_eq!(s.schedule(), Some(0));
    let t = s.task(0).unwrap();
    assert_eq!(t.wake_count, 1);
    assert_eq!(t.state, TaskState::Running);
    assert_eq!(t.waiting_event, None);
}

#[test]
fn priority_preemption() {
    let mut s = AsyncScheduler::new();
    assert_eq!(s.spawn_task(Task::with_priority(0, TaskPriority::Low)), Ok(0));
    assert_eq!(s.spawn_task(Task::with_priority(1, TaskPriority::High)), Ok(1));
    assert_eq!(s.schedule(), Some(1));
    s.block_current_task(1);
    assert_eq!(s.schedule(), Some(0));
    assert!(s.post_event(Event::new(1, EventPriority::Normal)).is_ok());
    assert_eq!(s.schedule(), Some(1));
    assert_eq!(state(&s, 0), TaskState::Ready);
    assert_eq!(state(&s, 1), TaskState::Running);
}

#[test]
fn ring_full_returns_event() {
    let mut s = AsyncScheduler::with_capacity(MAX_TASKS, 2);
    assert!(s.post_event(Event::new(10, EventPriority::Normal)).is_ok());
    assert!(s.post_event(Event::new(11, EventPriority::Normal)).is_ok());
    let before = s.stats();
    match s.post_event(Event::new(12, EventPriority::Normal)) {
        Err(e) => {
            assert_eq!(e.id, 12);
            assert_eq!(e.priority, EventPriority::Normal);
        }
        Ok(()) => panic!("a full ring accepted an event"),
    }
    assert_eq!(s.stats(), before);
    assert_eq!(ids(&s.dispatch_once()), vec![10]);
    assert_eq!(ids(&s.dispatch_once()), vec![11]);
    assert!(s.dispatch_once().is_empty());
}

#[test]
fn ring_pops_in_push_order() {
    let mut r = EventRing::new(2);
    assert!(r.is_empty());
    assert!(r.push(Event::new(10, EventPriority::Normal)).is_ok());
    assert!(r.push(Event::new(11, EventPriority::Normal)).is_ok());
    assert_eq!(r.len(), 2);
    assert_eq!(r.push(Event::new(12, EventPriority::Normal)).unwrap_err().id, 12);
    assert_eq!(r.pop().unwrap().id, 10);
    assert!(r.push(Event::new(13, EventPriority::Normal)).is_ok());
    assert_eq!(r.pop().unwrap().id, 11);
    assert_eq!(r.pop().unwrap().id, 13);
    assert!(r.pop().is_none());
    assert!(r.is_empty());
}

#[test]
fn sleep_wake() {
    let mut s = AsyncScheduler::new();
    assert_eq!(s.spawn_task(Task::new(0)), Ok(0));
    assert_eq!(s.schedule(), Some(0));
    s.update_timer(100);
    s.sleep_current_task(50);
    assert_eq!(state(&s, 0), TaskState::Sleeping(150));
    assert!(s.current_task().is_none());
    s.update_timer(149);
    assert_eq!(state(&s, 0), TaskState::Sleeping(150));
    assert_eq!(s.task(0).unwrap().wake_count, 0);
    s.update_timer(150);
    assert_eq!(state(&s, 0), TaskState::Ready);
    assert_eq!(s.task(0).unwrap().wake_count, 1);
    assert_eq!(s.schedule(), Some(0));
}

#[test]
fn sleep_across_tick_wrap() {
    let mut s = AsyncScheduler::new();
    assert_eq!(s.spawn_task(Task::new(0)), Ok(0));
    assert_eq!(s.schedule(), Some(0));
    s.update_timer(u32::MAX - 10);
    s.sleep_current_task(20);
    assert_eq!(state(&s, 0), TaskState::Sleeping(9));
    s.update_timer(u32::MAX);
    assert_eq!(state(&s, 0), TaskState::Sleeping(9));
    s.update_timer(8);
    assert_eq!(state(&s, 0), TaskState::Sleeping(9));
    s.update_timer(9);
    assert_eq!(state(&s, 0), TaskState::Ready);
}

#[test]
fn mass_wake_releases_one() {
    let mut s = AsyncScheduler::new();
    for i in 0..3 {
        assert_eq!(s.spawn_task(Task::new(i)), Ok(i));
    }
    for i in 0..3 {
        assert_eq!(s.schedule(), Some(i));
        s.block_current_task(42);
    }
    assert!(s.post_event(Event::new(42, EventPriority::Normal)).is_ok());
    assert_eq!(s.process_events(), 1);
    assert_eq!(state(&s, 0), TaskState::Ready);
    assert_eq!(s.task(0).unwrap().wake_count, 1);
    assert_eq!(state(&s, 1), TaskState::WaitingForEvent(42));
    assert_eq!(state(&s, 2), TaskState::WaitingForEvent(42));
    assert_eq!(s.task(1).unwrap().wake_count, 0);
}

#[test]
fn one_event_per_priority_per_pass() {
    let mut s = AsyncScheduler::new();
    assert!(s.post_event(Event::new(4, EventPriority::Low)).is_ok());
    assert!(s.post_event(Event::new(3, EventPriority::Normal)).is_ok());
    assert!(s.post_event(Event::new(2, EventPriority::High)).is_ok());
    assert!(s.post_event(Event::new(1, EventPriority::Critical)).is_ok());
    assert!(s.post_event(Event::new(5, EventPriority::Critical)).is_ok());
    assert_eq!(ids(&s.dispatch_once()), vec![1, 2, 3, 4]);
    assert_eq!(ids(&s.dispatch_once()), vec![5]);
    assert_eq!(s.process_events(), 0);
}

#[test]
fn critical_first_in_a_pass() {
    let mut s = AsyncScheduler::new();
    assert!(s.post_event(Event::new(30, EventPriority::Low)).is_ok());
    assert!(s.post_event(Event::new(31, EventPriority::Critical)).is_ok());
    let popped = s.dispatch_once();
    assert_eq!(popped[0].id, 31);
    assert_eq!(popped[0].priority, EventPriority::Critical);
    assert_eq!(ids(&popped), vec![31, 30]);
}

#[test]
fn fifo_within_one_priority() {
    let mut s = AsyncScheduler::new();
    for id in 100..105 {
        assert!(s.post_event(Event::new(id, EventPriority::High)).is_ok());
    }
    let mut seen = Vec::new();
    for _ in 0..5 {
        seen.extend(ids(&s.dispatch_once()));
    }
    assert_eq!(seen, vec![100, 101, 102, 103, 104]);
}

#[test]
fn full_ring_leaves_state_unchanged() {
    let mut s = AsyncScheduler::with_capacity(4, 1);
    assert!(s.post_event(Event::new(1, EventPriority::Low)).is_ok());
    assert_eq!(s.stats(), (0, 1, 0));
    assert_eq!(s.post_event(Event::new(2, EventPriority::Low)).unwrap_err().id, 2);
    assert_eq!(s.stats(), (0, 1, 0));
    assert_eq!(ids(&s.dispatch_once()), vec![1]);
}

#[test]
fn no_lost_wake() {
    let mut s = AsyncScheduler::new();
    assert_eq!(s.spawn_task(Task::with_priority(0, TaskPriority::Low)), Ok(0));
    assert_eq!(s.spawn_task(Task::with_priority(1, TaskPriority::Critical)), Ok(1));
    assert_eq!(s.schedule(), Some(1));
    s.block_current_task(9);
    assert_eq!(s.schedule(), Some(0));
    assert!(s.post_event(Event::new(9, EventPriority::Low)).is_ok());
    assert_eq!(s.schedule(), Some(1));
    assert_eq!(state(&s, 1), TaskState::Running);
}

#[test]
fn round_robin_among_equals() {
    let mut s = AsyncScheduler::new();
    for i in 0..3 {
        assert_eq!(s.spawn_task(Task::new(i)), Ok(i));
    }
    let mut order = Vec::new();
    order.push(s.schedule().unwrap());
    for _ in 0..6 {
        s.yield_current_task();
        order.push(s.schedule().unwrap());
    }
    assert_eq!(order, vec![0, 1, 2, 0, 1, 2, 0]);
}

#[test]
fn steady_state_keeps_running_task() {
    let mut s = AsyncScheduler::new();
    assert_eq!(s.spawn_task(Task::new(0)), Ok(0));
    assert_eq!(s.spawn_task(Task::new(1)), Ok(1));
    assert_eq!(s.schedule(), Some(0));
    assert_eq!(s.schedule(), Some(0));
    assert_eq!(s.current_task().unwrap().id, 0);
}

#[test]
fn best_priority_wins_rescan() {
    let mut s = AsyncScheduler::new();
    assert_eq!(s.spawn_task(Task::with_priority(10, TaskPriority::Low)), Ok(0));
    assert_eq!(s.spawn_task(Task::with_priority(11, TaskPriority::Normal)), Ok(1));
    assert_eq!(s.spawn_task(Task::with_priority(12, TaskPriority::Critical)), Ok(2));
    assert_eq!(s.spawn_task(Task::with_priority(13, TaskPriority::High)), Ok(3));
    assert_eq!(s.schedule(), Some(2));
    assert_eq!(s.current_task().unwrap().id, 12);
}

#[test]
fn single_running_throughout() {
    let mut s = AsyncScheduler::new();
    for i in 0..4 {
        assert_eq!(s.spawn_task(Task::new(i)), Ok(i));
        assert!(running_count(&s) <= 1);
    }
    for step in 0..12u32 {
        s.schedule();
        assert!(running_count(&s) <= 1);
        match step % 4 {
            0 => s.block_current_task(step),
            1 => {
                let _ = s.post_event(Event::new(step - 1, EventPriority::High));
            }
            2 => s.sleep_current_task(1),
            _ => s.update_timer(step),
        }
        assert!(running_count(&s) <= 1);
    }
}

#[test]
fn spawn_on_full_table_fails() {
    let mut s = AsyncScheduler::with_capacity(2, 4);
    assert_eq!(s.spawn_task(Task::new(0)), Ok(0));
    assert_eq!(s.spawn_task(Task::new(1)), Ok(1));
    assert_eq!(s.spawn_task(Task::new(2)), Err(()));
    assert_eq!(s.stats().0, 2);
    s.free_task(0);
    assert_eq!(s.stats().0, 1);
    assert_eq!(s.spawn_task(Task::new(3)), Ok(0));
}

#[test]
fn spawned_task_starts_ready() {
    let mut s = AsyncScheduler::new();
    let t = Task { id: 5, priority: TaskPriority::High, state: TaskState::Running, waiting_event: Some(3), wake_count: 2 };
    assert_eq!(s.spawn_task(t), Ok(0));
    let stored = s.task(0).unwrap();
    assert_eq!(stored.state, TaskState::Ready);
    assert_eq!(stored.waiting_event, None);
    assert_eq!(stored.id, 5);
    assert_eq!(stored.wake_count, 2);
    assert!(s.has_ready_tasks());
    assert!(s.has_active_tasks());
}

#[test]
fn finish_and_free() {
    let mut s = AsyncScheduler::new();
    assert_eq!(s.spawn_task(Task::new(0)), Ok(0));
    assert_eq!(s.schedule(), Some(0));
    s.finish_task(0);
    assert_eq!(state(&s, 0), TaskState::Completed);
    assert!(s.current_task().is_none());
    assert_eq!(s.schedule(), None);
    assert!(!s.has_ready_tasks());
    assert!(s.has_active_tasks());
    s.free_task(0);
    assert!(s.task(0).is_none());
    assert!(!s.has_active_tasks());
    s.free_task(0);
    s.free_task(100);
    assert_eq!(s.stats().0, 0);
}

#[test]
fn block_without_running_task_is_noop() {
    let mut s = AsyncScheduler::new();
    assert_eq!(s.spawn_task(Task::new(0)), Ok(0));
    s.block_current_task(5);
    s.sleep_current_task(5);
    assert_eq!(state(&s, 0), TaskState::Ready);
}

#[test]
fn stats_count_posts_and_tick() {
    let mut s = AsyncScheduler::new();
    assert_eq!(s.stats(), (0, 0, 0));
    assert_eq!(s.spawn_task(Task::new(0)), Ok(0));
    assert!(s.post_event(Event::new(1, EventPriority::Normal)).is_ok());
    assert!(s.post_event(Event::new(2, EventPriority::Low)).is_ok());
    s.update_timer(77);
    assert_eq!(s.stats(), (1, 2, 77));
}

#[test]
fn default_sizes() {
    let mut s = AsyncScheduler::new();
    assert_eq!(s.max_tasks(), MAX_TASKS);
    for i in 0..MAX_TASKS {
        assert_eq!(s.spawn_task(Task::new(i)), Ok(i));
    }
    assert_eq!(s.spawn_task(Task::new(99)), Err(()));
    for i in 0..MAX_EVENTS_PER_PRIORITY {
        assert!(s.post_event(Event::new(i as u32, EventPriority::High)).is_ok());
    }
    assert!(s.post_event(Event::new(999, EventPriority::High)).is_err());
    assert!(s.post_event(Event::new(999, EventPriority::Low)).is_ok());
}

#[test]
fn task_constructors() {
    let t = Task::new(3);
    assert_eq!(t.id, 3);
    assert_eq!(t.priority, TaskPriority::Normal);
    assert!(t.is_ready());
    let mut a = AsyncTask::new(4, TaskPriority::Critical);
    assert!(a.is_ready());
    a.wake();
    a.wake();
    assert_eq!(a.wake_count, 2);
    a.wake_count = u32::MAX;
    a.wake();
    assert_eq!(a.wake_count, 0);
}

#[test]
fn event_constructors_and_levels() {
    let e = Event::new(9, EventPriority::High);
    assert_eq!((e.id, e.priority, e.data), (9, EventPriority::High, 0));
    let d = Event::with_data(9, EventPriority::Low, 77);
    assert_eq!(d.data, 77);
    assert_eq!(EventPriority::Critical.level(), 0);
    assert_eq!(EventPriority::Low.level(), 3);
    assert_eq!(EventPriority::from_level(2), Some(EventPriority::Normal));
    assert_eq!(EventPriority::from_level(4), None);
    assert_eq!(TaskPriority::from_level(1), TaskPriority::High);
    assert_eq!(TaskPriority::from_level(7), TaskPriority::Low);
    assert_eq!(TaskPriority::High.level(), 1);
}
