//! The in-memory event store.
use vstd::prelude::*;

use super::aggregate_id::same_text;
use super::store::{bound_id, events_wf, EventStore, EventStoreError, StoredEvent, StoredEventList};
use super::Aggregate;

verus! {

/// Histories held in memory, one entry per identifier.
///
/// Writes take the store exclusively, so `remove` reads a history and deletes
/// it in one step: no commit can come between the two.
pub struct MemEventStore<A: Aggregate> {
    evs: Vec<StoredEventList<A>>,
    model: Ghost<Map<Seq<char>, Seq<StoredEvent<A>>>>,
}

impl<A: Aggregate> MemEventStore<A> {
    /// The histories held, by identifier.
    pub closed spec fn spec_histories(&self) -> Map<Seq<char>, Seq<StoredEvent<A>>> {
        self.model@
    }

    pub closed spec fn wf(&self) -> bool {
        &&& self.model@.dom().finite()
        &&& self.model@.dom().len() == self.evs@.len()
        &&& forall|i: int|
            0 <= i < self.evs@.len() ==> (#[trigger] self.evs@[i]).wf()
                && self.model@.contains_key(self.evs@[i].spec_aggregate_id())
                && self.model@[self.evs@[i].spec_aggregate_id()] == self.evs@[i]@
        &&& forall|i: int, j: int|
            0 <= i < self.evs@.len() && 0 <= j < self.evs@.len() && i != j
                ==> (#[trigger] self.evs@[i]).spec_aggregate_id()
                != (#[trigger] self.evs@[j]).spec_aggregate_id()
        &&& forall|k: Seq<char>|
            #[trigger] self.model@.contains_key(k) ==> exists|i: int|
                0 <= i < self.evs@.len() && (#[trigger] self.evs@[i]).spec_aggregate_id() == k
    }

    pub fn new() -> (r: Self)
        ensures
            r.wf(),
            r.spec_histories() == Map::<Seq<char>, Seq<StoredEvent<A>>>::empty(),
    {
        MemEventStore { evs: Vec::new(), model: Ghost(Map::empty()) }
    }

    /// Every history held is well formed, non-empty, and held under its own
    /// identifier.
    pub proof fn lemma_histories_keyed(&self, k: Seq<char>)
        requires
            self.wf(),
            self.spec_histories().contains_key(k),
        ensures
            events_wf::<A>(self.spec_histories()[k]),
            self.spec_histories()[k].len() > 0,
            bound_id::<A>(self.spec_histories()[k][0].event) == k,
    {
        let i = choose|i: int| 0 <= i < self.evs@.len() && (#[trigger] self.evs@[i]).spec_aggregate_id() == k;
        assert(self.evs@[i].wf());
    }

    /// A store holds finitely many histories.
    pub proof fn lemma_finite(&self)
        requires
            self.wf(),
        ensures
            self.spec_histories().dom().finite(),
    {
    }

    /// The number of histories held.
    pub fn len(&self) -> (r: usize)
        requires
            self.wf(),
        ensures
            r == self.spec_histories().dom().len(),
    {
        self.evs.len()
    }

    /// Where the history of `aggregate_id` stands, if it is held.
    fn position(&self, aggregate_id: &str) -> (r: Option<usize>)
        requires
            self.wf(),
        ensures
            r is Some ==> r->0 < self.evs@.len() && self.evs@[r->0 as int].spec_aggregate_id()
                == aggregate_id@,
            r is None ==> !self.model@.contains_key(aggregate_id@),
    {
        let mut i: usize = 0;
        while i < self.evs.len()
            invariant
                self.wf(),
                i <= self.evs@.len(),
                forall|j: int| 0 <= j < i ==> (#[trigger] self.evs@[j]).spec_aggregate_id() != aggregate_id@,
            decreases self.evs@.len() - i,
        {
            if same_text(self.evs[i].aggregate_id(), aggregate_id) {
                return Some(i);
            }
            i = i + 1;
        }
        None
    }

    pub fn fetch(&self, aggregate_id: &str) -> (r: Result<StoredEventList<A>, EventStoreError>)
        requires
            self.wf(),
        ensures
            r is Ok <==> self.spec_histories().contains_key(aggregate_id@),
            r is Ok ==> r->Ok_0@ == self.spec_histories()[aggregate_id@] && r->Ok_0.wf(),
            r is Err ==> r->Err_0 is AggregateIsNotExist,
    {
        match self.position(aggregate_id) {
            Some(i) => {
                let events = self.evs[i].clone();
                if events.is_empty() {
                    return Err(EventStoreError::AggregateIsNotExist);
                }
                Ok(events)
            },
            None => Err(EventStoreError::AggregateIsNotExist),
        }
    }

    pub fn is_exist(&self, aggregate_id: &str) -> (r: bool)
        requires
            self.wf(),
        ensures
            r == self.spec_histories().contains_key(aggregate_id@),
    {
        self.position(aggregate_id).is_some()
    }

    /// Stores `event_list` in place of any history under its identifier.
    pub fn commit(&mut self, event_list: StoredEventList<A>)
        requires
            old(self).wf(),
            event_list.wf(),
        ensures
            final(self).wf(),
            final(self).spec_histories() == old(self).spec_histories().insert(
                event_list.spec_aggregate_id(),
                event_list@,
            ),
    {
        let ghost key = event_list.spec_aggregate_id();
        let ghost before = self.evs@;
        match self.position(event_list.aggregate_id()) {
            Some(i) => {
                self.evs.set(i, event_list);
                self.model = Ghost(self.model@.insert(key, self.evs@[i as int]@));
                assert(self.model@.dom() == old(self).model@.dom());
                assert forall|k: Seq<char>| #[trigger] self.model@.contains_key(k) implies exists|
                    j: int,
                |
                    0 <= j < self.evs@.len() && (#[trigger] self.evs@[j]).spec_aggregate_id()
                        == k by {
                    if k != key {
                        let j = choose|j: int|
                            0 <= j < before.len() && (#[trigger] before[j]).spec_aggregate_id()
                                == k;
                        assert(self.evs@[j] == before[j]);
                    } else {
                        assert(self.evs@[i as int].spec_aggregate_id() == k);
                    }
                }
            },
            None => {
                self.evs.push(event_list);
                self.model = Ghost(self.model@.insert(key, event_list@));
                assert forall|k: Seq<char>| #[trigger] self.model@.contains_key(k) implies exists|
                    j: int,
                |
                    0 <= j < self.evs@.len() && (#[trigger] self.evs@[j]).spec_aggregate_id()
                        == k by {
                    if k != key {
                        let j = choose|j: int|
                            0 <= j < before.len() && (#[trigger] before[j]).spec_aggregate_id()
                                == k;
                        assert(self.evs@[j] == before[j]);
                    } else {
                        assert(self.evs@[before.len() as int].spec_aggregate_id() == k);
                    }
                }
            },
        }
    }

    /// Takes the history of `aggregate_id` out of the store.
    pub fn remove(&mut self, aggregate_id: &str) -> (r: Result<StoredEventList<A>, EventStoreError>)
        requires
            old(self).wf(),
        ensures
            final(self).wf(),
            r is Ok <==> old(self).spec_histories().contains_key(aggregate_id@),
            r is Ok ==> r->Ok_0@ == old(self).spec_histories()[aggregate_id@] && r->Ok_0.wf()
                && final(self).spec_histories() == old(self).spec_histories().remove(
                aggregate_id@,
            ),
            r is Err ==> r->Err_0 is AggregateIsNotExist && final(self).spec_histories() == old(
                self,
            ).spec_histories(),
    {
        let ghost before = self.evs@;
        match self.position(aggregate_id) {
            Some(i) => {
                let event_list = self.evs.remove(i);
                self.model = Ghost(self.model@.remove(aggregate_id@));
                assert forall|k: Seq<char>| #[trigger] self.model@.contains_key(k) implies exists|
                    j: int,
                |
                    0 <= j < self.evs@.len() && (#[trigger] self.evs@[j]).spec_aggregate_id()
                        == k by {
                    let j = choose|j: int|
                        0 <= j < before.len() && (#[trigger] before[j]).spec_aggregate_id() == k;
                    if j < i {
                        assert(self.evs@[j] == before[j]);
                    } else {
                        assert(j != i);
                        assert(self.evs@[j - 1] == before[j]);
                    }
                }
                assert forall|a: int, b: int|
                    0 <= a < self.evs@.len() && 0 <= b < self.evs@.len() && a != b
                        implies (#[trigger] self.evs@[a]).spec_aggregate_id()
                        != (#[trigger] self.evs@[b]).spec_aggregate_id() by {
                    let a0 = if a < i { a } else { a + 1 };
                    let b0 = if b < i { b } else { b + 1 };
                    assert(self.evs@[a] == before[a0]);
                    assert(self.evs@[b] == before[b0]);
                }
                assert forall|a: int| 0 <= a < self.evs@.len() implies (#[trigger] self.evs@[a]).wf()
                    && self.model@.contains_key(self.evs@[a].spec_aggregate_id())
                    && self.model@[self.evs@[a].spec_aggregate_id()] == self.evs@[a]@ by {
                    let a0 = if a < i { a } else { a + 1 };
                    assert(self.evs@[a] == before[a0]);
                    assert(a0 != i);
                }
                Ok(event_list)
            },
            None => Err(EventStoreError::AggregateIsNotExist),
        }
    }
}

impl<A: Aggregate> EventStore<A> for MemEventStore<A> {
    open spec fn histories(&self) -> Map<Seq<char>, Seq<StoredEvent<A>>> {
        self.spec_histories()
    }

    open spec fn inv(&self) -> bool {
        self.wf()
    }

    fn fetch(&self, aggregate_id: &str) -> (r: Result<StoredEventList<A>, EventStoreError>) {
        MemEventStore::<A>::fetch(self, aggregate_id)
    }

    fn is_exist(&self, aggregate_id: &str) -> (r: Result<bool, EventStoreError>) {
        Ok(MemEventStore::<A>::is_exist(self, aggregate_id))
    }

    fn commit(&mut self, event_list: StoredEventList<A>) -> (r: Result<(), EventStoreError>) {
        MemEventStore::<A>::commit(self, event_list);
        Ok(())
    }

    fn remove(&mut self, aggregate_id: &str) -> (r: Result<StoredEventList<A>, EventStoreError>) {
        MemEventStore::<A>::remove(self, aggregate_id)
    }
}

/// After `commit(list)`, the store holds `list`'s history under its identifier,
/// so that `fetch` of that identifier succeeds with a list equal to `list`.
pub proof fn lemma_store_round_trip<A: Aggregate>(
    before: MemEventStore<A>,
    after: MemEventStore<A>,
    list: StoredEventList<A>,
)
    requires
        before.wf(),
        list.wf(),
        after.wf(),
        after.spec_histories() == before.spec_histories().insert(list.spec_aggregate_id(), list@),
    ensures
        after.spec_histories().contains_key(list.spec_aggregate_id()),
        after.spec_histories()[list.spec_aggregate_id()] == list@,
{
}

/// A new store holds no history, so `fetch`, `remove` and `is_exist` find
/// none for any identifier.
pub proof fn lemma_new_store_absence<A: Aggregate>(store: MemEventStore<A>, aggregate_id: Seq<char>)
    requires
        store.spec_histories() == Map::<Seq<char>, Seq<StoredEvent<A>>>::empty(),
    ensures
        !store.spec_histories().contains_key(aggregate_id),
{
}

} // verus!
