use karatos::api::{
    add_priority_task, add_task, post, block_current, current_priority_level, current_task, has_ready_work,
    interrupt_event, interrupt_priority_event, post_event, post_event_with_priority,
    post_priority_event, schedule, schedule_with_priority, scheduler_stats, sleep_current,
    update_global_timer, Kernel,
};
use karatos::arch::{
    disable_interrupts, enable_interrupts, interrupts_enabled, mask_interrupts, unmask_interrupts,
    InterruptState,
};
use karatos::event::{EventPriority, TaskPriority};
use karatos::executor::MultiPriorityExecutor;
use karatos::task::{Task, TaskState};
use karatos::event::Event;

#[test]
fn kernel_post_and_wake() {
    let mut k = Kernel::new();
    assert_eq!(add_task(&mut k, Task::new(7)), Ok(0));
    assert_eq!(schedule(&mut k).unwrap().id, 7);
    block_current(&mut k, 5);
    assert!(current_task(&k).is_none());
    assert!(post_event_with_priority(&mut k, 5, EventPriority::High));
    let t = schedule(&mut k).unwrap();
    assert_eq!(t.id, 7);
    assert_eq!(t.wake_count, 1);
    assert_eq!(current_task(&k).unwrap().state, TaskState::Running);
    assert_eq!(scheduler_stats(&k), (1, 1, 0));
}

#[test]
fn kernel_post_variants_and_full_ring() {
    let mut k = Kernel::with_capacity(4, 1);
    post_event(&mut k, 1);
    assert_eq!(scheduler_stats(&k).1, 1);
    post_event(&mut k, 2);
    assert_eq!(scheduler_stats(&k).1, 1);
    assert!(!post_event_with_priority(&mut k, 3, EventPriority::Normal));
    interrupt_event(&mut k, 4);
    assert_eq!(scheduler_stats(&k).1, 2);
}

#[test]
fn kernel_sleep_and_timer() {
    let mut k = Kernel::new();
    assert_eq!(add_task(&mut k, Task::new(1)), Ok(0));
    assert!(schedule(&mut k).is_some());
    update_global_timer(&mut k, 10);
    sleep_current(&mut k, 5);
    assert!(schedule(&mut k).is_none());
    update_global_timer(&mut k, 14);
    assert_eq!(k.task(0).unwrap().state, TaskState::Sleeping(15));
    update_global_timer(&mut k, 15);
    assert_eq!(k.task(0).unwrap().state, TaskState::Ready);
    assert_eq!(schedule(&mut k).unwrap().id, 1);
    assert_eq!(scheduler_stats(&k).2, 15);
}

#[test]
fn executor_runs_highest_level() {
    let mut k = Kernel::new();
    assert!(!has_ready_work(&k));
    assert_eq!(current_priority_level(&k), TaskPriority::Low);
    assert_eq!(add_priority_task(&mut k, Task::with_priority(5, TaskPriority::Low)), Ok(0));
    assert_eq!(add_priority_task(&mut k, Task::with_priority(2, TaskPriority::High)), Ok(0));
    assert!(has_ready_work(&k));
    let t = schedule_with_priority(&mut k).unwrap();
    assert_eq!(t.id, 2);
    assert_eq!(current_priority_level(&k), TaskPriority::High);
    assert!(post_priority_event(&mut k, 0x10, EventPriority::Critical));
    interrupt_priority_event(&mut k, 0x11);
    let t = schedule_with_priority(&mut k).unwrap();
    assert_eq!(t.id, 2);
}

#[test]
fn executor_direct() {
    let mut x = MultiPriorityExecutor::new();
    assert_eq!(x.run_cycle().map(|t| t.id), None);
    assert_eq!(x.spawn_task(Task::with_priority(1, TaskPriority::Normal)), Ok(0));
    assert_eq!(x.spawn_task(Task::with_priority(2, TaskPriority::Normal)), Ok(1));
    assert_eq!(x.run_cycle().unwrap().id, 1);
    assert_eq!(x.current_priority(), TaskPriority::Normal);
    assert!(x.post_event(Event::new(1, EventPriority::Normal)));
    assert!(x.has_ready_tasks());
}

#[test]
fn critical_section_restores_interrupt_state() {
    let mut k = Kernel::new();
    assert_eq!(add_task(&mut k, Task::new(1)), Ok(0));
    let mut irq = InterruptState::new();
    assert!(interrupts_enabled(&irq));
    let outer = mask_interrupts(&mut irq);
    assert!(outer);
    assert!(!interrupts_enabled(&irq));
    let inner = mask_interrupts(&mut irq);
    assert!(!inner);
    unmask_interrupts(&mut irq, inner);
    assert!(!interrupts_enabled(&irq));
    unmask_interrupts(&mut irq, outer);
    assert!(interrupts_enabled(&irq));
    disable_interrupts(&mut irq);
    assert!(!interrupts_enabled(&irq));
    enable_interrupts(&mut irq);
    assert!(interrupts_enabled(&irq));
}

#[test]
fn kernel_priority_preemption() {
    let mut k = Kernel::new();
    assert_eq!(add_task(&mut k, Task::with_priority(0, TaskPriority::Low)), Ok(0));
    assert_eq!(add_task(&mut k, Task::with_priority(1, TaskPriority::High)), Ok(1));
    assert_eq!(schedule(&mut k).unwrap().id, 1);
    block_current(&mut k, 1);
    assert_eq!(schedule(&mut k).unwrap().id, 0);
    assert!(post_event_with_priority(&mut k, 1, EventPriority::Normal));
    assert_eq!(schedule(&mut k).unwrap().id, 1);
    assert_eq!(current_task(&k).unwrap().id, 1);
    assert_eq!(k.task(0).unwrap().state, TaskState::Ready);
}

#[test]
fn kernel_post_hands_back_on_full_ring() {
    let mut k = Kernel::with_capacity(8, 2);
    assert!(post(&mut k, Event::new(10, EventPriority::Normal)).is_ok());
    assert!(post(&mut k, Event::new(11, EventPriority::Normal)).is_ok());
    let back = post(&mut k, Event::with_data(12, EventPriority::Normal, 5)).unwrap_err();
    assert_eq!((back.id, back.priority, back.data), (12, EventPriority::Normal, 5));
    assert_eq!(scheduler_stats(&k), (0, 2, 0));
}

#[test]
fn kernel_stats_after_spawn_and_tick() {
    let mut k = Kernel::new();
    assert_eq!(scheduler_stats(&k), (0, 0, 0));
    assert_eq!(add_task(&mut k, Task::new(0)), Ok(0));
    update_global_timer(&mut k, 5);
    assert_eq!(scheduler_stats(&k), (1, 0, 5));
}

#[test]
fn kernel_sleep_wake_counts() {
    let mut k = Kernel::new();
    assert_eq!(add_task(&mut k, Task::new(0)), Ok(0));
    update_global_timer(&mut k, 100);
    assert_eq!(schedule(&mut k).unwrap().id, 0);
    sleep_current(&mut k, 50);
    update_global_timer(&mut k, 149);
    assert_eq!(k.task(0).unwrap().state, TaskState::Sleeping(150));
    assert_eq!(k.task(0).unwrap().wake_count, 0);
    update_global_timer(&mut k, 150);
    assert_eq!(k.task(0).unwrap().state, TaskState::Ready);
    assert_eq!(k.task(0).unwrap().wake_count, 1);
    assert_eq!(schedule(&mut k).unwrap().id, 0);
}
