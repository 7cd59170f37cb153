//! The kill queue: workers that were asked to stop and await a forced kill.

use vstd::prelude::*;

verus! {

/// One pending kill, as contracts see it.
pub struct Pending {
    pub id: Seq<char>,
    /// Unix time, in seconds, at which the stop signal was sent.
    pub signalled_at: u64,
}

/// Whether `id` awaits a kill in `queue`.
pub open spec fn queued(queue: Seq<Pending>, id: Seq<char>) -> bool {
    exists|i: int| 0 <= i < queue.len() && #[trigger] queue[i].id == id
}

/// The place of `id` in `queue`; meaningful when `queued(queue, id)`.
pub open spec fn place_of(queue: Seq<Pending>, id: Seq<char>) -> int {
    choose|i: int| 0 <= i < queue.len() && #[trigger] queue[i].id == id
}

/// No id is queued twice.
pub open spec fn unique(queue: Seq<Pending>) -> bool {
    forall|i: int, j: int|
        0 <= i < queue.len() && 0 <= j < queue.len() && i != j ==> #[trigger] queue[i].id
            != #[trigger] queue[j].id
}

/// `queue` after recording that `id` was signalled at `at`: a queued id keeps
/// its place and takes the new time, a new id goes to the back.
pub open spec fn enqueued(queue: Seq<Pending>, id: Seq<char>, at: u64) -> Seq<Pending> {
    if queued(queue, id) {
        queue.update(place_of(queue, id), Pending { id, signalled_at: at })
    } else {
        queue.push(Pending { id, signalled_at: at })
    }
}

struct Entry {
    id: String,
    signalled_at: u64,
}

impl Entry {
    spec fn pending(self) -> Pending {
        Pending { id: self.id@, signalled_at: self.signalled_at }
    }
}

/// Pending kills keyed by work-unit id, served oldest first.
pub struct KillQueue {
    entries: Vec<Entry>,
}

impl View for KillQueue {
    type V = Seq<Pending>;

    closed spec fn view(&self) -> Seq<Pending> {
        Seq::new(self.entries@.len(), |i: int| self.entries@[i].pending())
    }
}

impl KillQueue {
    /// No id is queued twice.
    pub open spec fn wf(&self) -> bool {
        unique(self@)
    }

    /// An empty queue.
    pub fn new() -> (queue: KillQueue)
        ensures
            queue.wf(),
            queue@ == Seq::<Pending>::empty(),
    {
        let queue = KillQueue { entries: Vec::new() };
        assert(queue@ =~= Seq::<Pending>::empty());
        queue
    }

    /// Number of pending kills.
    pub fn len(&self) -> (n: usize)
        ensures
            n == self@.len(),
    {
        self.entries.len()
    }

    fn find(&self, id: &String) -> (found: Option<usize>)
        ensures
            match found {
                Some(i) => i < self@.len() && self@[i as int].id == id@,
                None => !queued(self@, id@),
            },
    {
        let mut i: usize = 0;
        while i < self.entries.len()
            invariant
                i <= self.entries@.len(),
                forall|j: int| 0 <= j < i ==> (#[trigger] self@[j]).id != id@,
            decreases self.entries@.len() - i,
        {
            if self.entries[i].id == *id {
                return Some(i);
            }
            i += 1;
        }
        None
    }

    /// Records that `id` was signalled at `at`.
    pub fn enqueue(&mut self, id: String, at: u64)
        requires
            old(self).wf(),
        ensures
            final(self).wf(),
            final(self)@ == enqueued(old(self)@, id@, at),
    {
        let ghost before = self@;
        let ghost pending = Pending { id: id@, signalled_at: at };
        match self.find(&id) {
            Some(i) => {
                self.entries[i].signalled_at = at;
                assert(self@ =~= before.update(i as int, pending));
            },
            None => {
                self.entries.push(Entry { id, signalled_at: at });
                assert(self@ =~= before.push(pending));
            },
        }
    }

    /// Takes the oldest pending kill out of the queue; `None` when the queue is
    /// empty.
    pub fn pop(&mut self) -> (front: Option<(String, u64)>)
        requires
            old(self).wf(),
        ensures
            final(self).wf(),
            old(self)@.len() == 0 ==> front.is_none() && final(self)@ == old(self)@,
            old(self)@.len() > 0 ==> final(self)@ == old(self)@.drop_first() && match front {
                Some((id, at)) => id@ == old(self)@[0].id && at == old(self)@[0].signalled_at,
                None => false,
            },
    {
        if self.entries.len() == 0 {
            return None;
        }
        let ghost before = self@;
        let entry = self.entries.remove(0);
        assert(self@ =~= before.drop_first());
        Some((entry.id, entry.signalled_at))
    }
}

} // verus!
