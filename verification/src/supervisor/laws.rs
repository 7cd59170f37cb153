//! What holds of every run of a supervisor.

use vstd::prelude::*;
use crate::supervisor::kill_queue::{enqueued, Pending, place_of, queued, unique};
use crate::supervisor::model::{Event, run, State, step};
use crate::supervisor::steps::{KillEvent, KillPlan, SlotFill, SlotFillStep};
use crate::supervisor::{fill_plan, kill_plan};
use crate::supervisor::process_table::{
    admission,
    distinct,
    holds,
    inserted,
    lemma_vacated_is_free,
    Slot,
    slot_of,
    vacated,
};

verus! {

/// In a queue of unique ids, the place of an id is the one place it stands at.
pub proof fn lemma_place_of(queue: Seq<Pending>, id: Seq<char>, i: int)
    requires
        unique(queue),
        0 <= i < queue.len(),
        queue[i].id == id,
    ensures
        queued(queue, id),
        place_of(queue, id) == i,
{
}

/// Recording a signal keeps the ids of a queue unique and every queued id at
/// its place.
pub proof fn lemma_enqueued(queue: Seq<Pending>, id: Seq<char>, at: u64)
    requires
        unique(queue),
    ensures
        unique(enqueued(queue, id, at)),
        queued(enqueued(queue, id, at), id),
        forall|i: int|
            0 <= i < queue.len() ==> i < enqueued(queue, id, at).len() && (#[trigger] enqueued(
                queue,
                id,
                at,
            )[i]).id == queue[i].id,
{
    let after = enqueued(queue, id, at);
    if queued(queue, id) {
        let k = place_of(queue, id);
        assert(after[k].id == id);
    } else {
        assert(after[queue.len() as int].id == id);
        assert forall|i: int, j: int|
            0 <= i < after.len() && 0 <= j < after.len() && i != j implies #[trigger] after[i].id
            != #[trigger] after[j].id by {
            if i < queue.len() {
                assert(after[i] == queue[i]);
            }
            if j < queue.len() {
                assert(after[j] == queue[j]);
            }
        }
    }
}

/// Registering a worker keeps the ids of a table distinct and within capacity,
/// and no id loses its slot by it.
pub proof fn lemma_inserted(slots: Seq<Slot>, capacity: nat, id: Seq<char>, slot: Slot)
    requires
        distinct(slots),
        slots.len() <= capacity,
        slot.id == id,
    ensures
        distinct(inserted(slots, capacity, id, slot.handle)),
        inserted(slots, capacity, id, slot.handle).len() <= capacity,
        forall|other: Seq<char>|
            holds(slots, other) ==> holds(inserted(slots, capacity, id, slot.handle), other),
{
    let after = inserted(slots, capacity, id, slot.handle);
    if admission(slots, capacity, id).is_ok() {
        assert forall|i: int, j: int|
            0 <= i < after.len() && 0 <= j < after.len() && i != j implies #[trigger] after[i].id
            != #[trigger] after[j].id by {
            if i < slots.len() {
                assert(after[i] == slots[i]);
            }
            if j < slots.len() {
                assert(after[j] == slots[j]);
            }
        }
        assert forall|other: Seq<char>| holds(slots, other) implies holds(after, other) by {
            let k = slot_of(slots, other);
            assert(after[k].id == other);
        }
    }
}

/// Vacating the slot of one id leaves every other id its slot.
pub proof fn lemma_vacated_keeps_others(slots: Seq<Slot>, id: Seq<char>, other: Seq<char>)
    requires
        holds(slots, other),
        other != id,
    ensures
        holds(vacated(slots, id), other),
{
    if holds(slots, id) {
        let k = slot_of(slots, id);
        let m = slot_of(slots, other);
        let after = slots.remove(k);
        if m < k {
            assert(after[m].id == other);
        } else {
            assert(after[m - 1] == slots[m]);
            assert(after[m - 1].id == other);
        }
    }
}

/// Every event takes a well-formed state to a well-formed state and leaves
/// the capacity and the grace as they are.
pub proof fn lemma_step_keeps_wf(s: State, e: Event)
    requires
        s.wf(),
    ensures
        step(s, e).wf(),
        step(s, e).capacity == s.capacity,
        step(s, e).grace == s.grace,
{
    match e {
        Event::Spawned { id, handle } => {
            lemma_inserted(s.slots, s.capacity, id, Slot { id, handle });
        },
        Event::Signalled { id, at } => {
            lemma_enqueued(s.queue, id, at);
        },
        Event::Popped => {
            if s.queue.len() > 0 {
                let after = s.queue.drop_first();
                assert forall|i: int, j: int|
                    0 <= i < after.len() && 0 <= j < after.len() && i != j implies #[trigger] after[i].id
                    != #[trigger] after[j].id by {
                    assert(after[i] == s.queue[i + 1]);
                    assert(after[j] == s.queue[j + 1]);
                }
            }
        },
        Event::Reported { id } => {
            lemma_vacated_is_free(s.slots, id);
        },
        Event::KilledOld { id } => {
            lemma_vacated_is_free(s.slots, id);
        },
        Event::DrainSet => {},
        Event::TerminateSet => {},
    }
}

/// Slot bound: whatever happens to a supervisor, in whatever order, its process
/// table never holds more workers than its capacity, nor an id twice.
pub proof fn slot_bound_holds(s: State, events: Seq<Event>)
    requires
        s.wf(),
    ensures
        run(s, events).wf(),
        run(s, events).slots.len() <= s.capacity,
        run(s, events).capacity == s.capacity,
        run(s, events).grace == s.grace,
    decreases events.len(),
{
    if events.len() > 0 {
        slot_bound_holds(s, events.drop_last());
        lemma_step_keeps_wf(run(s, events.drop_last()), events.last());
    }
}

/// Running two sequences of events one after the other is running their
/// concatenation.
pub proof fn lemma_run_in_two(s: State, events: Seq<Event>, later: Seq<Event>)
    ensures
        run(s, events + later) == run(run(s, events), later),
    decreases later.len(),
{
    if later.len() == 0 {
        assert(events + later =~= events);
    } else {
        lemma_run_in_two(s, events, later.drop_last());
        assert((events + later).drop_last() =~= events + later.drop_last());
        assert((events + later).last() == later.last());
    }
}

/// Mode monotonicity: a mode that is set after some events is still set after
/// any events that follow them.
pub proof fn modes_stay_set(s: State, events: Seq<Event>, later: Seq<Event>)
    ensures
        run(s, events).drain ==> run(s, events + later).drain,
        run(s, events).terminate ==> run(s, events + later).terminate,
    decreases later.len(),
{
    lemma_run_in_two(s, events, later);
    if later.len() > 0 {
        modes_stay_set(s, events, later.drop_last());
        lemma_run_in_two(s, events, later.drop_last());
    }
}

/// Whether the event is one that frees the slot of `id` without a report: the
/// single-call kill of `id`.
pub open spec fn bypasses_report(e: Event, id: Seq<char>) -> bool {
    e == (Event::KilledOld { id })
}

/// Report before removal: a worker that held a slot and holds none after some
/// events, none of them a single-call kill of it, was reported to the
/// dispatcher, and the report was accepted, in the course of those events.
pub proof fn removal_follows_report(s: State, events: Seq<Event>, id: Seq<char>)
    requires
        holds(s.slots, id),
        !holds(run(s, events).slots, id),
        forall|k: int| 0 <= k < events.len() ==> !bypasses_report(#[trigger] events[k], id),
    ensures
        exists|k: int| 0 <= k < events.len() && #[trigger] events[k] == (Event::Reported { id }),
    decreases events.len(),
{
    if events.len() > 0 {
        let before = run(s, events.drop_last());
        let last = events.last();
        if !holds(before.slots, id) {
            assert forall|k: int| 0 <= k < events.drop_last().len() implies !bypasses_report(
                #[trigger] events.drop_last()[k],
                id,
            ) by {
                assert(events.drop_last()[k] == events[k]);
            }
            removal_follows_report(s, events.drop_last(), id);
            let k = choose|k: int|
                0 <= k < events.drop_last().len() && #[trigger] events.drop_last()[k] == (
                Event::Reported { id });
            assert(events[k] == (Event::Reported { id }));
        } else {
            assert(!bypasses_report(events[events.len() - 1], id));
            match last {
                Event::Spawned { id: other, handle } => {
                    let k = slot_of(before.slots, id);
                    assert(inserted(before.slots, before.capacity, other, handle)[k].id == id);
                },
                Event::Reported { id: other } => {
                    if other != id {
                        lemma_vacated_keeps_others(before.slots, other, id);
                    }
                    assert(events[events.len() - 1] == (Event::Reported { id }));
                },
                Event::KilledOld { id: other } => {
                    lemma_vacated_keeps_others(before.slots, other, id);
                },
                _ => {},
            }
        }
    }
}

/// Number of rounds of the kill worker among `events`.
pub open spec fn pops(events: Seq<Event>) -> nat
    decreases events.len(),
{
    if events.len() == 0 {
        0
    } else if events.last() == Event::Popped {
        pops(events.drop_last()) + 1
    } else {
        pops(events.drop_last())
    }
}

/// Whether, in the run of `events` from `s`, some round of the kill worker
/// took the pending kill of `id` out of the queue.
pub open spec fn served(s: State, events: Seq<Event>, id: Seq<char>) -> bool {
    exists|k: int|
        0 <= k < events.len() && #[trigger] events[k] == Event::Popped && run(
            s,
            events.take(k),
        ).queue.len() > 0 && run(s, events.take(k)).queue[0].id == id
}

proof fn lemma_served_or_waiting(s: State, events: Seq<Event>, id: Seq<char>)
    requires
        s.wf(),
        queued(s.queue, id),
    ensures
        served(s, events, id) || (queued(run(s, events).queue, id) && place_of(
            run(s, events).queue,
            id,
        ) + pops(events) == place_of(s.queue, id)),
    decreases events.len(),
{
    if events.len() > 0 {
        let prefix = events.drop_last();
        let before = run(s, prefix);
        let last = events.last();
        lemma_served_or_waiting(s, prefix, id);
        slot_bound_holds(s, prefix);
        if served(s, prefix, id) {
            let k = choose|k: int|
                0 <= k < prefix.len() && #[trigger] prefix[k] == Event::Popped && run(
                    s,
                    prefix.take(k),
                ).queue.len() > 0 && run(s, prefix.take(k)).queue[0].id == id;
            assert(events[k] == prefix[k]);
            assert(events.take(k) =~= prefix.take(k));
        } else {
            let p = place_of(before.queue, id);
            match last {
                Event::Popped => {
                    if p == 0 {
                        let k = events.len() - 1;
                        assert(events.take(k) =~= prefix);
                        assert(events[k] == Event::Popped);
                    } else {
                        let after = before.queue.drop_first();
                        assert(after[p - 1] == before.queue[p]);
                        lemma_step_keeps_wf(before, last);
                        lemma_place_of(after, id, p - 1);
                    }
                },
                Event::Signalled { id: other, at } => {
                    lemma_enqueued(before.queue, other, at);
                    if holds(before.slots, other) {
                        let after = enqueued(before.queue, other, at);
                        assert(after[p].id == before.queue[p].id);
                        lemma_place_of(after, id, p);
                    }
                },
                _ => {},
            }
        }
    }
}

/// No orphaned kill: a pending kill that stands at place `p` of the queue is
/// taken out by the kill worker no later than at its round `p + 1`, whatever
/// else happens in between. The worker takes the oldest entry each round, and
/// a worker that is signalled again keeps its place.
pub proof fn pending_kill_is_served(s: State, events: Seq<Event>, id: Seq<char>)
    requires
        s.wf(),
        queued(s.queue, id),
        pops(events) > place_of(s.queue, id),
    ensures
        served(s, events, id),
{
    lemma_served_or_waiting(s, events, id);
}

/// Whether `events` hold the delivery of a stop signal to the worker of `id`
/// at time `at`.
pub open spec fn signalled_in(events: Seq<Event>, id: Seq<char>, at: u64) -> bool {
    exists|j: int| 0 <= j < events.len() && #[trigger] events[j] == (Event::Signalled { id, at })
}

/// Queued times are signal times: in a run that starts with an empty queue,
/// the time that stands with a pending kill is a time at which a stop signal
/// for its worker was delivered, so the time that the kill worker takes out
/// with an entry is one too.
pub proof fn queued_times_are_signal_times(s: State, events: Seq<Event>)
    requires
        s.wf(),
        s.queue.len() == 0,
    ensures
        forall|i: int|
            0 <= i < run(s, events).queue.len() ==> signalled_in(
                events,
                (#[trigger] run(s, events).queue[i]).id,
                run(s, events).queue[i].signalled_at,
            ),
    decreases events.len(),
{
    if events.len() > 0 {
        let prefix = events.drop_last();
        let before = run(s, prefix);
        let after = run(s, events);
        queued_times_are_signal_times(s, prefix);
        slot_bound_holds(s, prefix);
        assert forall|id: Seq<char>, at: u64| signalled_in(prefix, id, at) implies signalled_in(
            events,
            id,
            at,
        ) by {
            let j = choose|j: int|
                0 <= j < prefix.len() && #[trigger] prefix[j] == (Event::Signalled { id, at });
            assert(events[j] == prefix[j]);
        }
        assert forall|i: int| 0 <= i < after.queue.len() implies signalled_in(
            events,
            (#[trigger] after.queue[i]).id,
            after.queue[i].signalled_at,
        ) by {
            match events.last() {
                Event::Signalled { id, at } => {
                    if holds(before.slots, id) {
                        let fresh = if queued(before.queue, id) {
                            place_of(before.queue, id)
                        } else {
                            before.queue.len() as int
                        };
                        if i == fresh {
                            assert(events[events.len() - 1] == (Event::Signalled { id, at }));
                        } else {
                            assert(after.queue[i] == before.queue[i]);
                        }
                    }
                },
                Event::Popped => {
                    if before.queue.len() > 0 {
                        assert(after.queue[i] == before.queue[i + 1]);
                    }
                },
                _ => {},
            }
        }
    }
}

/// Grace enforcement: the second phase of a kill asks for the kill signal
/// only when the clock shows that the whole grace has passed since the stop
/// signal.
pub proof fn grace_is_enforced(
    s: State,
    id: Seq<char>,
    signalled_at: u64,
    now: u64,
    event: KillEvent,
)
    ensures
        kill_plan(s, id, signalled_at, now, event) == KillPlan::Kill ==> now >= signalled_at
            + s.grace,
{
}

/// New work needs both modes clear: once drain or terminate mode is set, no
/// step of a populator round asks the dispatcher for work.
pub proof fn no_work_is_taken_once_a_mode_is_set(s: State, fill: SlotFill)
    requires
        s.drain || s.terminate,
    ensures
        !(fill_plan(s, fill) matches Ok(SlotFillStep::Obtain { .. })),
{
}

/// Slots change hands in two ways only: an id gains a slot by the spawning of
/// its worker, and loses it by an accepted finish report or by the single-call
/// kill.
pub proof fn slots_change_by_launch_and_removal_only(s: State, e: Event, id: Seq<char>)
    ensures
        !holds(s.slots, id) && holds(step(s, e).slots, id) ==> (e matches Event::Spawned {
            id: spawned,
            ..
        } && spawned == id),
        holds(s.slots, id) && !holds(step(s, e).slots, id) ==> e == (Event::Reported { id }) || e
            == (Event::KilledOld { id }),
{
    match e {
        Event::Spawned { id: other, handle } => {
            let after = inserted(s.slots, s.capacity, other, handle);
            if holds(s.slots, id) {
                let k = slot_of(s.slots, id);
                assert(after[k].id == id);
            }
            if holds(after, id) && !holds(s.slots, id) {
                let k = slot_of(after, id);
                if k < s.slots.len() {
                    assert(s.slots[k].id == id);
                }
            }
        },
        Event::Reported { id: other } => {
            if holds(s.slots, id) && other != id {
                lemma_vacated_keeps_others(s.slots, other, id);
            }
            if holds(vacated(s.slots, other), id) {
                lemma_vacated_adds_nothing(s.slots, other, id);
            }
        },
        Event::KilledOld { id: other } => {
            if holds(s.slots, id) && other != id {
                lemma_vacated_keeps_others(s.slots, other, id);
            }
            if holds(vacated(s.slots, other), id) {
                lemma_vacated_adds_nothing(s.slots, other, id);
            }
        },
        _ => {},
    }
}

/// Vacating a slot gives no id a slot that it did not hold.
pub proof fn lemma_vacated_adds_nothing(slots: Seq<Slot>, id: Seq<char>, other: Seq<char>)
    requires
        holds(vacated(slots, id), other),
    ensures
        holds(slots, other),
{
    if holds(slots, id) {
        let k = slot_of(slots, id);
        let after = slots.remove(k);
        let m = slot_of(after, other);
        if m < k {
            assert(slots[m].id == other);
        } else {
            assert(after[m] == slots[m + 1]);
            assert(slots[m + 1].id == other);
        }
    }
}

/// Queued ids hold a slot when they are queued: an id enters the kill queue
/// only by the delivery of a stop signal to its worker, and only while the
/// worker holds a slot.
pub proof fn queue_takes_only_ids_with_a_slot(s: State, e: Event, id: Seq<char>)
    requires
        s.wf(),
        !queued(s.queue, id),
        queued(step(s, e).queue, id),
    ensures
        holds(s.slots, id),
        (e matches Event::Signalled { id: signalled, .. } && signalled == id),
{
    match e {
        Event::Signalled { id: other, at } => {
            if holds(s.slots, other) {
                let after = enqueued(s.queue, other, at);
                let k = place_of(after, id);
                if queued(s.queue, other) {
                    if k != place_of(s.queue, other) {
                        assert(after[k] == s.queue[k]);
                    }
                } else {
                    if k < s.queue.len() {
                        assert(after[k] == s.queue[k]);
                    }
                }
            }
        },
        Event::Popped => {
            if s.queue.len() > 0 {
                let after = s.queue.drop_first();
                let k = place_of(after, id);
                assert(after[k] == s.queue[k + 1]);
            }
        },
        _ => {},
    }
}

} // verus!
