use vstd::prelude::*;
use crate::error::DaoError;

verus! {

/// The identifier that the ledger issued for a proposal record, as the two
/// halves of its bytes.
#[derive(Clone, Copy, Debug, PartialEq, Eq, Structural)]
pub struct ProposalId {
    pub hi: u128,
    pub lo: u128,
}

/// A stored record under its identifier.
#[derive(Debug)]
pub struct Entry<T> {
    pub id: ProposalId,
    pub record: T,
}

/// The position of the record with an identifier, if the store holds one.
pub open spec fn slot_of<T>(entries: Seq<Entry<T>>, id: ProposalId) -> Option<int>
    decreases entries.len(),
{
    if entries.len() == 0 {
        None
    } else {
        match slot_of(entries.drop_last(), id) {
            Some(i) => Some(i),
            None => if entries.last().id == id {
                Some(entries.len() - 1)
            } else {
                None
            },
        }
    }
}

/// No identifier occurs twice.
pub open spec fn distinct_ids<T>(entries: Seq<Entry<T>>) -> bool {
    forall|i: int, j: int|
        0 <= i < entries.len() && 0 <= j < entries.len() && i != j ==> entries[i].id
            != entries[j].id
}

/// `slot_of` finds the first record with the identifier, and finds one
/// whenever there is any.
pub proof fn lemma_slot_of<T>(entries: Seq<Entry<T>>, id: ProposalId)
    ensures
        match slot_of(entries, id) {
            Some(i) => 0 <= i < entries.len() && entries[i].id == id && forall|j: int|
                0 <= j < i ==> entries[j].id != id,
            None => forall|j: int| 0 <= j < entries.len() ==> entries[j].id != id,
        },
    decreases entries.len(),
{
    if entries.len() > 0 {
        let front = entries.drop_last();
        lemma_slot_of(front, id);
        assert(forall|j: int| 0 <= j < front.len() ==> front[j] == entries[j]);
    }
}

/// A collection of records under distinct identifiers that refuses to grow
/// beyond the ceiling named at each insertion.
#[derive(Debug)]
pub struct BoundedStore<T> {
    entries: Vec<Entry<T>>,
}

impl<T> View for BoundedStore<T> {
    type V = Seq<Entry<T>>;

    closed spec fn view(&self) -> Seq<Entry<T>> {
        self.entries@
    }
}

impl<T> BoundedStore<T> {
    /// The store's invariant: no identifier occurs twice.
    pub open spec fn wf(&self) -> bool {
        distinct_ids(self@)
    }

    /// Whether the store holds a record under the identifier.
    pub open spec fn has(&self, id: ProposalId) -> bool {
        slot_of(self@, id) is Some
    }

    /// An empty store.
    pub fn new() -> (r: BoundedStore<T>)
        ensures
            r.wf(),
            r@ == Seq::<Entry<T>>::empty(),
    {
        BoundedStore { entries: Vec::new() }
    }

    /// The store that holds the given records in their order; `None` where
    /// an identifier occurs twice.
    pub fn from_entries(entries: Vec<Entry<T>>) -> (r: Option<BoundedStore<T>>)
        ensures
            match r {
                Some(store) => store@ == entries@ && store.wf(),
                None => !distinct_ids(entries@),
            },
    {
        let mut i: usize = 0;
        while i < entries.len()
            invariant
                i <= entries.len(),
                forall|a: int, b: int|
                    0 <= a < b < entries.len() && a < i ==> entries@[a].id != entries@[b].id,
            decreases entries.len() - i,
        {
            let mut j: usize = i + 1;
            while j < entries.len()
                invariant
                    i < j <= entries.len(),
                    forall|b: int| i < b < j ==> entries@[i as int].id != entries@[b].id,
                decreases entries.len() - j,
            {
                if entries[i].id == entries[j].id {
                    return None;
                }
                j += 1;
            }
            i += 1;
        }
        assert forall|a: int, b: int|
            0 <= a < entries.len() && 0 <= b < entries.len() && a != b implies entries@[a].id
            != entries@[b].id by {
            if a < b {
                assert(entries@[a].id != entries@[b].id);
            } else {
                assert(entries@[b].id != entries@[a].id);
            }
        }
        Some(BoundedStore { entries })
    }

    /// The records with their identifiers, in their order.
    pub fn into_entries(self) -> (r: Vec<Entry<T>>)
        ensures
            r@ == self@,
    {
        self.entries
    }

    /// The identifier of the record at a position.
    pub fn id_at(&self, index: usize) -> (r: ProposalId)
        requires
            index < self@.len(),
        ensures
            r == self@[index as int].id,
    {
        self.entries[index].id
    }

    /// The number of records held.
    pub fn count(&self) -> (r: usize)
        ensures
            r == self@.len(),
    {
        self.entries.len()
    }

    /// The position of the record with the identifier.
    pub fn find(&self, id: ProposalId) -> (r: Option<usize>)
        ensures
            match r {
                Some(i) => slot_of(self@, id) == Some(i as int) && i < self@.len(),
                None => slot_of(self@, id) is None,
            },
    {
        let mut i: usize = 0;
        while i < self.entries.len()
            invariant
                i <= self.entries.len(),
                forall|j: int| 0 <= j < i ==> self.entries@[j].id != id,
            decreases self.entries.len() - i,
        {
            if self.entries[i].id == id {
                proof {
                    lemma_slot_of(self@, id);
                }
                return Some(i);
            }
            i += 1;
        }
        proof {
            lemma_slot_of(self@, id);
        }
        None
    }

    /// Whether the store holds a record under the identifier.
    pub fn contains(&self, id: ProposalId) -> (r: bool)
        ensures
            r == self.has(id),
    {
        self.find(id).is_some()
    }

    /// The record under the identifier.
    pub fn get(&self, id: ProposalId) -> (r: Option<&T>)
        ensures
            match r {
                Some(record) => slot_of(self@, id) is Some && *record == self@[slot_of(
                    self@,
                    id,
                ).unwrap()].record,
                None => slot_of(self@, id) is None,
            },
    {
        match self.find(id) {
            Some(i) => Some(&self.entries[i].record),
            None => None,
        }
    }

    /// The record at a position.
    pub fn record_at(&self, index: usize) -> (r: &T)
        requires
            index < self@.len(),
        ensures
            *r == self@[index as int].record,
    {
        &self.entries[index].record
    }

    /// The record at a position, to be changed in place. The identifier and
    /// every other record stay as they are.
    pub fn record_at_mut(&mut self, index: usize) -> (r: &mut T)
        requires
            index < old(self)@.len(),
        ensures
            *r == old(self)@[index as int].record,
            final(self)@ == old(self)@.update(
                index as int,
                (Entry { id: old(self)@[index as int].id, record: *final(r) }),
            ),
    {
        &mut self.entries[index].record
    }

    /// Adds a record under a fresh identifier, unless the store already
    /// holds `capacity` records or more: then nothing changes.
    pub fn try_insert(&mut self, id: ProposalId, record: T, capacity: u64) -> (r: Result<
        ProposalId,
        DaoError,
    >)
        requires
            old(self).wf(),
            !old(self).has(id),
        ensures
            final(self).wf(),
            old(self)@.len() >= capacity ==> r == Err::<ProposalId, DaoError>(
                DaoError::CapacityExceeded,
            ) && final(self)@ == old(self)@,
            old(self)@.len() < capacity ==> r == Ok::<ProposalId, DaoError>(id) && final(self)@
                == old(self)@.push(Entry { id, record }),
    {
        if self.entries.len() as u64 >= capacity {
            return Err(DaoError::CapacityExceeded);
        }
        proof {
            lemma_slot_of(self@, id);
        }
        self.entries.push(Entry { id, record });
        Ok(id)
    }

    /// Takes the record at a position out of the store; the others keep
    /// their order.
    pub fn remove_at(&mut self, index: usize) -> (r: Entry<T>)
        requires
            old(self).wf(),
            index < old(self)@.len(),
        ensures
            final(self).wf(),
            r == old(self)@[index as int],
            final(self)@ == old(self)@.remove(index as int),
    {
        self.entries.remove(index)
    }
}

} // verus!
