//! Events and the priority classes shared by events and tasks.
use vstd::prelude::*;

verus! {

/// Priority of an event; `Critical` is served first.
#[derive(Clone, Copy, PartialEq, Eq, Structural, Debug)]
pub enum EventPriority {
    Critical,
    High,
    Normal,
    Low,
}

impl EventPriority {
    /// Position in the total order, 0 for `Critical` up to 3 for `Low`.
    pub open spec fn rank(self) -> nat {
        match self {
            EventPriority::Critical => 0,
            EventPriority::High => 1,
            EventPriority::Normal => 2,
            EventPriority::Low => 3,
        }
    }

    /// The two-bit encoding of this priority.
    pub fn level(self) -> (r: u8)
        ensures
            r as nat == self.rank(),
    {
        match self {
            EventPriority::Critical => 0,
            EventPriority::High => 1,
            EventPriority::Normal => 2,
            EventPriority::Low => 3,
        }
    }

    /// Decodes a two-bit priority value; values above 3 are not priorities.
    pub fn from_level(v: u8) -> (r: Option<EventPriority>)
        ensures
            v <= 3 ==> r.is_some() && r.unwrap().rank() == v as nat,
            v > 3 ==> r.is_none(),
    {
        match v {
            0 => Some(EventPriority::Critical),
            1 => Some(EventPriority::High),
            2 => Some(EventPriority::Normal),
            3 => Some(EventPriority::Low),
            _ => None,
        }
    }
}

/// Priority class of a task; `Critical` is preferred by the scheduler.
#[derive(Clone, Copy, PartialEq, Eq, Structural, Debug)]
pub enum TaskPriority {
    Critical,
    High,
    Normal,
    Low,
}

impl TaskPriority {
    /// Position in the total order, 0 for `Critical` up to 3 for `Low`.
    pub open spec fn rank(self) -> nat {
        match self {
            TaskPriority::Critical => 0,
            TaskPriority::High => 1,
            TaskPriority::Normal => 2,
            TaskPriority::Low => 3,
        }
    }

    /// The two-bit encoding of this priority.
    pub fn level(self) -> (r: u8)
        ensures
            r as nat == self.rank(),
    {
        match self {
            TaskPriority::Critical => 0,
            TaskPriority::High => 1,
            TaskPriority::Normal => 2,
            TaskPriority::Low => 3,
        }
    }

    /// Decodes a priority value; every value above 2 reads as `Low`.
    pub fn from_level(v: u32) -> (r: TaskPriority)
        ensures
            v <= 3 ==> r.rank() == v as nat,
            v > 3 ==> r == TaskPriority::Low,
    {
        match v {
            0 => TaskPriority::Critical,
            1 => TaskPriority::High,
            2 => TaskPriority::Normal,
            _ => TaskPriority::Low,
        }
    }
}

/// A notification posted to the kernel: a correlator id, a priority and a payload word.
#[derive(Clone, Copy, Debug)]
pub struct Event {
    pub id: u32,
    pub priority: EventPriority,
    pub data: u32,
}

impl Event {
    /// An event with an empty payload.
    pub fn new(id: u32, priority: EventPriority) -> (r: Event)
        ensures
            r.id == id,
            r.priority == priority,
            r.data == 0,
    {
        Event { id, priority, data: 0 }
    }

    /// An event carrying `data` as its payload.
    pub fn with_data(id: u32, priority: EventPriority, data: u32) -> (r: Event)
        ensures
            r.id == id,
            r.priority == priority,
            r.data == data,
    {
        Event { id, priority, data }
    }
}

} // verus!
