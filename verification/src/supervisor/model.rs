//! The supervisor as contracts see it: its state, and the events that change it.

use vstd::prelude::*;
use crate::supervisor::kill_queue::{enqueued, Pending, unique};
use crate::supervisor::process_table::{ChildHandle, distinct, holds, inserted, Slot, vacated};

verus! {

/// The state of a supervisor.
pub struct State {
    /// The process table: the occupied slots, oldest first.
    pub slots: Seq<Slot>,
    /// The kill queue, oldest first.
    pub queue: Seq<Pending>,
    /// Drain mode: take no new work and let the workers finish.
    pub drain: bool,
    /// Terminate mode: give up and exit.
    pub terminate: bool,
    /// The largest number of workers.
    pub capacity: nat,
    /// Seconds a worker is given between the stop signal and the kill.
    pub grace: u64,
}

impl State {
    /// The table holds no id twice and is within capacity; the queue holds no
    /// id twice.
    pub open spec fn wf(self) -> bool {
        &&& distinct(self.slots)
        &&& self.slots.len() <= self.capacity
        &&& unique(self.queue)
    }

    /// Whether new work may be taken: neither mode is set.
    pub open spec fn accepts_work(self) -> bool {
        !self.drain && !self.terminate
    }

    /// Number of slots that are free.
    pub open spec fn free_slots(self) -> nat {
        if self.slots.len() <= self.capacity {
            (self.capacity - self.slots.len()) as nat
        } else {
            0
        }
    }
}

/// The state of a supervisor that has just been made.
pub open spec fn initial(capacity: nat, grace: u64) -> State {
    State {
        slots: Seq::empty(),
        queue: Seq::empty(),
        drain: false,
        terminate: false,
        capacity,
        grace,
    }
}

/// What can change the state of a supervisor.
pub enum Event {
    /// A worker for `id` was spawned.
    Spawned { id: Seq<char>, handle: ChildHandle },
    /// The stop signal was delivered to the worker of `id` at time `at`.
    Signalled { id: Seq<char>, at: u64 },
    /// The kill worker took the oldest pending kill.
    Popped,
    /// The dispatcher accepted the finish report for `id`.
    Reported { id: Seq<char> },
    /// The single-call kill did away with the worker of `id`.
    KilledOld { id: Seq<char> },
    /// Drain mode was set.
    DrainSet,
    /// Terminate mode was set.
    TerminateSet,
}

/// The state after one event.
///
/// A spawned worker takes a slot only when its id is new and a slot is free.
/// A signalled worker is queued only while it holds a slot. Reports and the
/// single-call kill free the slot of their id. Modes are only ever set.
pub open spec fn step(s: State, e: Event) -> State {
    match e {
        Event::Spawned { id, handle } => State {
            slots: inserted(s.slots, s.capacity, id, handle),
            ..s
        },
        Event::Signalled { id, at } => State {
            queue: if holds(s.slots, id) {
                enqueued(s.queue, id, at)
            } else {
                s.queue
            },
            ..s
        },
        Event::Popped => State {
            queue: if s.queue.len() > 0 {
                s.queue.drop_first()
            } else {
                s.queue
            },
            ..s
        },
        Event::Reported { id } => State { slots: vacated(s.slots, id), ..s },
        Event::KilledOld { id } => State { slots: vacated(s.slots, id), ..s },
        Event::DrainSet => State { drain: true, ..s },
        Event::TerminateSet => State { terminate: true, ..s },
    }
}

/// The state after a sequence of events, first to last.
pub open spec fn run(s: State, events: Seq<Event>) -> State
    decreases events.len(),
{
    if events.len() == 0 {
        s
    } else {
        step(run(s, events.drop_last()), events.last())
    }
}

} // verus!
