//! The process table: which work unit occupies which slot.

use vstd::prelude::*;

verus! {

/// What the supervisor remembers of a spawned worker.
#[derive(Clone, Copy, Debug, PartialEq, Eq, Structural)]
pub struct ChildHandle {
    /// Operating-system process id of the worker.
    pub pid: u32,
    /// Unix time, in seconds, at which the worker was spawned.
    pub spawned_at: u64,
}

/// One occupied slot, as contracts see it.
pub struct Slot {
    pub id: Seq<char>,
    pub handle: ChildHandle,
}

/// Whether some slot of `slots` is held by `id`.
pub open spec fn holds(slots: Seq<Slot>, id: Seq<char>) -> bool {
    exists|i: int| 0 <= i < slots.len() && #[trigger] slots[i].id == id
}

/// The position of the slot held by `id`; meaningful when `holds(slots, id)`.
pub open spec fn slot_of(slots: Seq<Slot>, id: Seq<char>) -> int {
    choose|i: int| 0 <= i < slots.len() && #[trigger] slots[i].id == id
}

/// No two slots are held by the same id.
pub open spec fn distinct(slots: Seq<Slot>) -> bool {
    forall|i: int, j: int|
        0 <= i < slots.len() && 0 <= j < slots.len() && i != j ==> #[trigger] slots[i].id
            != #[trigger] slots[j].id
}

/// `slots` with the slot of `id` taken out; `slots` itself when `id` holds none.
pub open spec fn vacated(slots: Seq<Slot>, id: Seq<char>) -> Seq<Slot> {
    if holds(slots, id) {
        slots.remove(slot_of(slots, id))
    } else {
        slots
    }
}

/// The ids of `slots`, in slot order.
pub open spec fn ids_of(slots: Seq<Slot>) -> Seq<Seq<char>> {
    Seq::new(slots.len(), |i: int| slots[i].id)
}

/// Why an insertion was refused.
#[derive(Clone, Copy, Debug, PartialEq, Eq, Structural)]
pub enum InsertError {
    /// The id already holds a slot.
    AlreadyPresent,
    /// Every slot is occupied.
    TableFull,
}

struct Entry {
    id: String,
    handle: ChildHandle,
}

impl Entry {
    spec fn slot(self) -> Slot {
        Slot { id: self.id@, handle: self.handle }
    }
}

/// Bounded table of live workers, keyed by work-unit id, in insertion order.
pub struct ProcessTable {
    entries: Vec<Entry>,
    capacity: usize,
}

impl View for ProcessTable {
    type V = Seq<Slot>;

    closed spec fn view(&self) -> Seq<Slot> {
        Seq::new(self.entries@.len(), |i: int| self.entries@[i].slot())
    }
}

impl ProcessTable {
    /// The largest number of slots the table may hold.
    pub closed spec fn capacity(&self) -> nat {
        self.capacity as nat
    }

    /// Ids are unique and the table is within its capacity.
    pub open spec fn wf(&self) -> bool {
        &&& distinct(self@)
        &&& self@.len() <= self.capacity()
    }

    /// An empty table with room for `capacity` workers.
    pub fn new(capacity: usize) -> (table: ProcessTable)
        ensures
            table.wf(),
            table@ == Seq::<Slot>::empty(),
            table.capacity() == capacity,
    {
        let table = ProcessTable { entries: Vec::new(), capacity };
        assert(table@ =~= Seq::<Slot>::empty());
        table
    }

    /// Number of occupied slots.
    pub fn len(&self) -> (n: usize)
        ensures
            n == self@.len(),
    {
        self.entries.len()
    }

    /// The capacity the table was made with.
    pub fn max_len(&self) -> (n: usize)
        ensures
            n == self.capacity(),
    {
        self.capacity
    }

    fn find(&self, id: &String) -> (found: Option<usize>)
        ensures
            match found {
                Some(i) => i < self@.len() && self@[i as int].id == id@,
                None => !holds(self@, id@),
            },
    {
        let mut i: usize = 0;
        while i < self.entries.len()
            invariant
                i <= self.entries@.len(),
                forall|j: int| 0 <= j < i ==> (#[trigger] self@[j]).id != id@,
            decreases self.entries@.len() - i,
        {
            if self.entries[i].id == *id {
                return Some(i);
            }
            i += 1;
        }
        None
    }

    /// Whether `id` holds a slot.
    pub fn contains(&self, id: &String) -> (present: bool)
        ensures
            present == holds(self@, id@),
    {
        self.find(id).is_some()
    }

    /// The pid of the worker registered under `id`, if there is one.
    pub fn peek_pid(&self, id: &String) -> (pid: Option<u32>)
        requires
            self.wf(),
        ensures
            pid.is_some() == holds(self@, id@),
            pid.is_some() ==> pid == Some(self@[slot_of(self@, id@)].handle.pid),
    {
        match self.find(id) {
            Some(i) => {
                proof {
                    lemma_slot_of(self@, id@, i as int);
                }
                Some(self.entries[i].handle.pid)
            },
            None => None,
        }
    }

    /// Registers `handle` under `id` in a new last slot. Refused, with the table
    /// unchanged, when `id` is already present or no slot is free; a present id
    /// is reported before a full table.
    pub fn insert(&mut self, id: String, handle: ChildHandle) -> (outcome: Result<(), InsertError>)
        requires
            old(self).wf(),
        ensures
            final(self).wf(),
            final(self).capacity() == old(self).capacity(),
            outcome == admission(old(self)@, old(self).capacity(), id@),
            final(self)@ == inserted(old(self)@, old(self).capacity(), id@, handle),
    {
        if self.find(&id).is_some() {
            return Err(InsertError::AlreadyPresent);
        }
        if self.entries.len() >= self.capacity {
            return Err(InsertError::TableFull);
        }
        let ghost before = self@;
        let ghost slot = Slot { id: id@, handle };
        self.entries.push(Entry { id, handle });
        assert(self@ =~= before.push(slot));
        Ok(())
    }

    /// Removes the slot of `id` and hands its handle back; `None`, with the
    /// table unchanged, when `id` holds no slot.
    pub fn take(&mut self, id: &String) -> (handle: Option<ChildHandle>)
        requires
            old(self).wf(),
        ensures
            final(self).wf(),
            final(self).capacity() == old(self).capacity(),
            final(self)@ == vacated(old(self)@, id@),
            handle.is_some() == holds(old(self)@, id@),
            handle.is_some() ==> handle == Some(old(self)@[slot_of(old(self)@, id@)].handle),
            !holds(final(self)@, id@),
    {
        match self.find(id) {
            Some(i) => {
                let ghost before = self@;
                proof {
                    lemma_slot_of(before, id@, i as int);
                }
                let entry = self.entries.remove(i);
                assert(self@ =~= before.remove(i as int));
                proof {
                    lemma_vacated_is_free(before, id@);
                }
                Some(entry.handle)
            },
            None => None,
        }
    }

    /// The ids of all occupied slots, oldest first.
    pub fn snapshot_ids(&self) -> (ids: Vec<String>)
        ensures
            ids@.len() == self@.len(),
            forall|i: int| 0 <= i < ids@.len() ==> (#[trigger] ids@[i])@ == self@[i].id,
    {
        let mut ids: Vec<String> = Vec::new();
        let mut i: usize = 0;
        while i < self.entries.len()
            invariant
                i <= self.entries@.len(),
                ids@.len() == i,
                forall|j: int| 0 <= j < i ==> (#[trigger] ids@[j])@ == self@[j].id,
            decreases self.entries@.len() - i,
        {
            ids.push(self.entries[i].id.clone());
            i += 1;
        }
        ids
    }
}

/// The verdict on registering `id` in a table of `slots` with room for `capacity`.
pub open spec fn admission(slots: Seq<Slot>, capacity: nat, id: Seq<char>) -> Result<
    (),
    InsertError,
> {
    if holds(slots, id) {
        Err(InsertError::AlreadyPresent)
    } else if slots.len() >= capacity {
        Err(InsertError::TableFull)
    } else {
        Ok(())
    }
}

/// `slots` after an attempt to register `handle` under `id`.
pub open spec fn inserted(slots: Seq<Slot>, capacity: nat, id: Seq<char>, handle: ChildHandle) -> Seq<
    Slot,
> {
    if admission(slots, capacity, id).is_ok() {
        slots.push(Slot { id, handle })
    } else {
        slots
    }
}

/// In a table of distinct ids, the slot of an id is the one place it stands at.
pub proof fn lemma_slot_of(slots: Seq<Slot>, id: Seq<char>, i: int)
    requires
        distinct(slots),
        0 <= i < slots.len(),
        slots[i].id == id,
    ensures
        holds(slots, id),
        slot_of(slots, id) == i,
{
}

/// Vacating keeps ids distinct and leaves the id without a slot.
pub proof fn lemma_vacated_is_free(slots: Seq<Slot>, id: Seq<char>)
    requires
        distinct(slots),
    ensures
        distinct(vacated(slots, id)),
        !holds(vacated(slots, id), id),
        vacated(slots, id).len() <= slots.len(),
{
    if holds(slots, id) {
        let k = slot_of(slots, id);
        let after = slots.remove(k);
        assert forall|i: int, j: int|
            0 <= i < after.len() && 0 <= j < after.len() && i != j implies #[trigger] after[i].id
            != #[trigger] after[j].id by {
            let ii = if i < k { i } else { i + 1 };
            let jj = if j < k { j } else { j + 1 };
            assert(after[i] == slots[ii]);
            assert(after[j] == slots[jj]);
        }
        assert forall|i: int| 0 <= i < after.len() implies #[trigger] after[i].id != id by {
            let ii = if i < k { i } else { i + 1 };
            assert(after[i] == slots[ii]);
        }
    }
}

} // verus!
