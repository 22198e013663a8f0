//! Core of a cooperative, priority-aware, event-driven kernel for single-core
//! microcontrollers: bounded event rings, a task table, a priority scheduler
//! with a hot-slot fast path, a sleep service and a critical-section facade.
pub mod event;
pub mod ring;
pub mod task;
pub mod model;
pub mod scheduler;
pub mod laws;
pub mod executor;
pub mod arch;
pub mod api;
pub mod platform;
pub mod console;
pub mod timer;
pub mod uart;
