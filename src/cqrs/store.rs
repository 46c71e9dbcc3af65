//! Stored events, the per-aggregate event list with its invariants, and the
//! storage contract.
use vstd::prelude::*;

use super::aggregate_id::same_text;
use super::{Aggregate, AggregateIdContract, DomainEvent};

verus! {

/// Position of an event within its aggregate's history.
pub type EventIndex = u64;

/// An event tagged with its owning aggregate and its position.
pub struct StoredEvent<A: Aggregate> {
    pub aggregate_id: A::Id,
    pub index: EventIndex,
    pub event: A::Event,
}

/// An aggregate state together with the index of the last event folded into it.
pub struct Snapshot<A: Aggregate> {
    pub aggregate: A,
    pub index: EventIndex,
}

/// The identifier that an event gives a freshly defaulted aggregate.
pub open spec fn bound_id<A: Aggregate>(first: A::Event) -> Seq<char> {
    A::spec_id(A::applied(A::initial(), first))
}

/// The state after folding the first `n` events into the default aggregate.
pub open spec fn fold_prefix<A: Aggregate>(events: Seq<StoredEvent<A>>, n: nat) -> A::V
    decreases n,
{
    if n == 0 {
        A::initial()
    } else {
        A::applied(fold_prefix::<A>(events, (n - 1) as nat), events[n - 1].event)
    }
}

/// The invariant of a history: the identifier fixed by the first event is
/// non-empty and carried by every event, and indices count up from zero.
pub open spec fn events_wf<A: Aggregate>(events: Seq<StoredEvent<A>>) -> bool {
    &&& events.len() > 0 ==> bound_id::<A>(events[0].event).len() > 0
    &&& forall|i: int|
        0 <= i < events.len() ==> (#[trigger] events[i]).index == i
            && events[i].aggregate_id.id_text() == bound_id::<A>(events[0].event)
}

/// `after` is `before` followed by `events`, each stored in turn.
pub open spec fn appended<A: Aggregate>(
    before: Seq<StoredEvent<A>>,
    after: Seq<StoredEvent<A>>,
    events: Seq<A::Event>,
) -> bool {
    &&& after.len() == before.len() + events.len()
    &&& after.subrange(0, before.len() as int) == before
    &&& forall|k: int| 0 <= k < events.len() ==> after[before.len() + k].event == #[trigger] events[k]
}

/// The identifier under which events join a history: the one it has, or the
/// one `first` fixes for an empty history.
pub open spec fn joining_id<A: Aggregate>(events: Seq<StoredEvent<A>>, first: A::Event) -> Seq<
    char,
> {
    if events.len() > 0 {
        bound_id::<A>(events[0].event)
    } else {
        bound_id::<A>(first)
    }
}

#[derive(Debug)]
pub enum EventStoreError {
    InvalidInitialEvent,
    AggregateIsNotExist,
    InconsistentEventAggregateId,
    InconsistentEventIndex,
    EmptyEventList,
    StorageError(String),
}

impl EventStoreError {
    /// A description of the error.
    pub fn message(&self) -> String {
        match self {
            EventStoreError::InvalidInitialEvent => String::from_str(
                "invalid initial event (aggregate_id is empty after applying it)",
            ),
            EventStoreError::AggregateIsNotExist => String::from_str("aggregate does not exist"),
            EventStoreError::InconsistentEventAggregateId => String::from_str(
                "inconsistent event aggregate id",
            ),
            EventStoreError::InconsistentEventIndex => String::from_str(
                "inconsistent event index number",
            ),
            EventStoreError::EmptyEventList => String::from_str("empty event list"),
            EventStoreError::StorageError(e) => String::from_str("event storage error: ").concat(
                e.as_str(),
            ),
        }
    }
}

impl<A: Aggregate> StoredEvent<A> {
    pub fn aggregate_id(&self) -> (r: &str)
        ensures
            r@ == self.aggregate_id.id_text(),
    {
        self.aggregate_id.id_str()
    }
}

impl<A: Aggregate> Clone for StoredEvent<A> {
    fn clone(&self) -> (r: Self)
        ensures
            r == *self,
    {
        StoredEvent {
            aggregate_id: self.aggregate_id.clone_id(),
            index: self.index,
            event: self.event.clone_event(),
        }
    }
}

impl<A: Aggregate> Snapshot<A> {
    pub fn aggregate(&self) -> (r: &A)
        ensures
            *r == self.aggregate,
    {
        &self.aggregate
    }

    pub fn to_aggregate(&self) -> (r: A)
        ensures
            r@ == self.aggregate@,
    {
        self.aggregate.clone_aggregate()
    }

    pub fn into_aggregate(self) -> (r: A)
        ensures
            r == self.aggregate,
    {
        self.aggregate
    }

    pub fn index(&self) -> (r: EventIndex)
        ensures
            r == self.index,
    {
        self.index
    }
}

/// A history under construction: empty, or bound to one identifier.
pub struct StoredEventRawList<A: Aggregate>(Vec<StoredEvent<A>>);

impl<A: Aggregate> View for StoredEventRawList<A> {
    type V = Seq<StoredEvent<A>>;

    closed spec fn view(&self) -> Seq<StoredEvent<A>> {
        self.0@
    }
}

impl<A: Aggregate> StoredEventRawList<A> {
    pub open spec fn wf(&self) -> bool {
        events_wf::<A>(self@)
    }

    pub fn new() -> (r: Self)
        ensures
            r@ == Seq::<StoredEvent<A>>::empty(),
            r.wf(),
    {
        StoredEventRawList(Vec::new())
    }

    /// Adds `event` at the next index under `aggregate_id`, which must be the
    /// identifier that the history joins under.
    fn append_unchecked(&mut self, aggregate_id: A::Id, event: A::Event) -> (r: StoredEvent<A>)
        requires
            old(self).wf(),
            aggregate_id.id_text() == joining_id::<A>(old(self)@, event),
            aggregate_id.id_text().len() > 0,
        ensures
            final(self).wf(),
            final(self)@ == old(self)@.push(r),
            r.aggregate_id == aggregate_id,
            r.index == old(self)@.len(),
            r.event == event,
    {
        let stored_event = StoredEvent { aggregate_id, index: self.0.len() as u64, event };
        self.0.push(stored_event.clone());
        stored_event
    }

    /// The identifier under which `maybe_initial_event` would join the history.
    fn initial_aggregate_id(&self, maybe_initial_event: &A::Event) -> (r: A::Id)
        requires
            self.wf(),
        ensures
            r.id_text() == joining_id::<A>(self@, *maybe_initial_event),
    {
        if self.0.len() > 0 {
            return self.0[0].aggregate_id.clone_id();
        }
        let mut created_aggregate = A::default_aggregate();
        created_aggregate.apply(maybe_initial_event.clone_event());
        A::Id::from_id_str(created_aggregate.aggregate_id())
    }

    pub fn aggregate_id(&self) -> (r: Option<&str>)
        requires
            self.wf(),
        ensures
            r is None <==> self@.len() == 0,
            r is Some ==> r->0@ == bound_id::<A>(self@[0].event),
    {
        if self.0.len() == 0 {
            None
        } else {
            Some(self.aggregate_id_unchecked())
        }
    }

    fn aggregate_id_unchecked(&self) -> (r: &str)
        requires
            self.wf(),
            self@.len() > 0,
        ensures
            r@ == bound_id::<A>(self@[0].event),
    {
        self.0[0].aggregate_id()
    }

    /// Adds one event; an empty history is bound to the identifier it gives.
    pub fn append(&mut self, event: A::Event) -> (r: Result<StoredEvent<A>, EventStoreError>)
        requires
            old(self).wf(),
        ensures
            final(self).wf(),
            r is Err <==> old(self)@.len() == 0 && bound_id::<A>(event).len() == 0,
            r is Err ==> r->Err_0 is InvalidInitialEvent && final(self)@ == old(self)@,
            r is Ok ==> final(self)@ == old(self)@.push(r->Ok_0) && r->Ok_0.event == event
                && r->Ok_0.index == old(self)@.len(),
    {
        let aggregate_id = self.initial_aggregate_id(&event);
        if aggregate_id.id_str().is_empty() {
            return Err(EventStoreError::InvalidInitialEvent);
        }
        Ok(self.append_unchecked(aggregate_id, event))
    }

    /// Adds every event in turn under one identifier and seals the history.
    pub fn append_all(self, event_list: &[A::Event]) -> (r: Result<
        StoredEventList<A>,
        EventStoreError,
    >)
        requires
            self.wf(),
        ensures
            r is Err <==> event_list@.len() == 0 || (self@.len() == 0 && bound_id::<A>(
                event_list@[0],
            ).len() == 0),
            event_list@.len() == 0 ==> r is Err && r->Err_0 is EmptyEventList,
            event_list@.len() > 0 && r is Err ==> r->Err_0 is InvalidInitialEvent,
            r is Ok ==> r->Ok_0.wf() && appended::<A>(self@, r->Ok_0@, event_list@),
    {
        let mut this = self;
        if event_list.len() == 0 {
            return Err(EventStoreError::EmptyEventList);
        }
        let aggregate_id = this.initial_aggregate_id(&event_list[0]);
        if aggregate_id.id_str().is_empty() {
            return Err(EventStoreError::InvalidInitialEvent);
        }
        let ghost before = this@;
        let mut i: usize = 0;
        while i < event_list.len()
            invariant
                this.wf(),
                i <= event_list@.len(),
                aggregate_id.id_text() == joining_id::<A>(before, event_list@[0]),
                aggregate_id.id_text().len() > 0,
                this@.len() == before.len() + i,
                this@.subrange(0, before.len() as int) == before,
                this@.len() > 0 ==> bound_id::<A>(this@[0].event) == aggregate_id.id_text(),
                forall|k: int| 0 <= k < i ==> this@[before.len() + k].event == #[trigger] event_list@[k],
            decreases event_list@.len() - i,
        {
            let ghost prev = this@;
            let event = event_list[i].clone_event();
            this.append_unchecked(aggregate_id.clone_id(), event);
            assert(this@.subrange(0, before.len() as int) == prev.subrange(0, before.len() as int));
            i = i + 1;
        }
        Ok(StoredEventList(this))
    }

    pub fn snapshot(&self) -> (r: Option<Snapshot<A>>)
        requires
            self.wf(),
        ensures
            r is None <==> self@.len() == 0,
            r is Some ==> r->0.aggregate@ == fold_prefix::<A>(self@, self@.len())
                && r->0.index == self@.len() - 1,
    {
        let events_count = self.0.len();
        if events_count < 1 {
            return None;
        }
        Some(self.snapshot_unchecked())
    }

    fn snapshot_unchecked(&self) -> (r: Snapshot<A>)
        requires
            self.wf(),
            self@.len() > 0,
        ensures
            r.aggregate@ == fold_prefix::<A>(self@, self@.len()),
            r.index == self@.len() - 1,
    {
        let mut aggregate = A::default_aggregate();
        let mut i: usize = 0;
        while i < self.0.len()
            invariant
                i <= self@.len(),
                aggregate@ == fold_prefix::<A>(self@, i as nat),
            decreases self@.len() - i,
        {
            aggregate.apply(self.0[i].event.clone_event());
            i = i + 1;
        }
        Snapshot { aggregate, index: (self.0.len() as EventIndex) - 1 }
    }

    pub fn snapshot_at(&self, index: EventIndex) -> (r: Option<Snapshot<A>>)
        requires
            self.wf(),
        ensures
            r is None <==> self@.len() <= index,
            r is Some ==> r->0.aggregate@ == fold_prefix::<A>(self@, index as nat + 1)
                && r->0.index == index,
    {
        let events_count = self.0.len();
        if events_count < 1 || (events_count as EventIndex - 1) < index {
            return None;
        }
        Some(self.snapshot_at_unchecked(index))
    }

    /// Folds events up to and including the one at `index`.
    fn snapshot_at_unchecked(&self, index: EventIndex) -> (r: Snapshot<A>)
        requires
            self.wf(),
            index < self@.len(),
        ensures
            r.aggregate@ == fold_prefix::<A>(self@, index as nat + 1),
            r.index == index,
    {
        let mut aggregate = A::default_aggregate();
        let mut i: usize = 0;
        let mut reached = false;
        while i < self.0.len() && !reached
            invariant
                self.wf(),
                i <= self@.len(),
                reached ==> i == index + 1,
                !reached ==> i <= index,
                aggregate@ == fold_prefix::<A>(self@, i as nat),
            decreases self@.len() - i,
        {
            aggregate.apply(self.0[i].event.clone_event());
            if self.0[i].index == index {
                reached = true;
            }
            i = i + 1;
        }
        Snapshot { aggregate, index }
    }

    /// Walks the history and reports the first event whose identifier or
    /// index breaks the invariant; a well-formed history has none.
    pub fn check_consistency(&self) -> (r: Result<(), EventStoreError>)
        requires
            self.wf(),
        ensures
            r is Ok,
    {
        if self.0.len() == 0 {
            return Ok(());
        }
        let aggregate_id = self.0[0].aggregate_id();
        let mut event_index: EventIndex = 0;
        let mut i: usize = 0;
        while i < self.0.len()
            invariant
                self.wf(),
                self@.len() > 0,
                aggregate_id@ == bound_id::<A>(self@[0].event),
                i <= self@.len(),
                event_index == i,
            decreases self@.len() - i,
        {
            if !same_text(self.0[i].aggregate_id(), aggregate_id) {
                return Err(EventStoreError::InconsistentEventAggregateId);
            }
            if self.0[i].index != event_index {
                return Err(EventStoreError::InconsistentEventIndex);
            }
            event_index = event_index + 1;
            i = i + 1;
        }
        Ok(())
    }

    pub fn is_empty(&self) -> (r: bool)
        ensures
            r == (self@.len() == 0),
    {
        self.0.len() == 0
    }

    /// A borrowed view of the events.
    pub fn as_slice(&self) -> (r: StoredEventRefList<'_, A>)
        ensures
            r@ == self@,
    {
        StoredEventRefList::new(self.0.as_slice())
    }

    pub fn len(&self) -> (r: usize)
        ensures
            r == self@.len(),
    {
        self.0.len()
    }

    /// Seals a non-empty history.
    pub fn not_empty(self) -> (r: Option<StoredEventList<A>>)
        requires
            self.wf(),
        ensures
            r is None <==> self@.len() == 0,
            r is Some ==> r->0@ == self@ && r->0.wf(),
    {
        if self.0.len() == 0 {
            None
        } else {
            Some(StoredEventList(self))
        }
    }
}

/// A borrowed view of the events of a history.
pub struct StoredEventRefList<'a, A: Aggregate>(&'a [StoredEvent<A>]);

impl<'a, A: Aggregate> View for StoredEventRefList<'a, A> {
    type V = Seq<StoredEvent<A>>;

    closed spec fn view(&self) -> Seq<StoredEvent<A>> {
        self.0@
    }
}

impl<'a, A: Aggregate> StoredEventRefList<'a, A> {
    fn new(s: &'a [StoredEvent<A>]) -> (r: Self)
        ensures
            r@ == s@,
    {
        StoredEventRefList(s)
    }

    pub fn len(&self) -> (r: usize)
        ensures
            r == self@.len(),
    {
        self.0.len()
    }

    /// The event at position `i`.
    pub fn get(&self, i: usize) -> (r: &StoredEvent<A>)
        requires
            i < self@.len(),
        ensures
            *r == self@[i as int],
    {
        &self.0[i]
    }

    /// Copies the events into a history under construction.
    pub fn to_owned(&self) -> (r: StoredEventRawList<A>)
        ensures
            r@ == self@,
    {
        let mut events: Vec<StoredEvent<A>> = Vec::new();
        let mut i: usize = 0;
        while i < self.0.len()
            invariant
                i <= self@.len(),
                events@ == self@.subrange(0, i as int),
            decreases self@.len() - i,
        {
            events.push(self.0[i].clone());
            i = i + 1;
        }
        assert(self@.subrange(0, self@.len() as int) == self@);
        StoredEventRawList(events)
    }
}

impl<A: Aggregate> Clone for StoredEventRawList<A> {
    fn clone(&self) -> (r: Self)
        ensures
            r@ == self@,
    {
        self.as_slice().to_owned()
    }
}

/// A sealed history: non-empty and bound to one identifier.
pub struct StoredEventList<A: Aggregate>(StoredEventRawList<A>);

impl<A: Aggregate> View for StoredEventList<A> {
    type V = Seq<StoredEvent<A>>;

    closed spec fn view(&self) -> Seq<StoredEvent<A>> {
        self.0@
    }
}

impl<A: Aggregate> StoredEventList<A> {
    pub open spec fn wf(&self) -> bool {
        &&& events_wf::<A>(self@)
        &&& self@.len() > 0
    }

    /// The identifier of the history.
    pub open spec fn spec_aggregate_id(&self) -> Seq<char> {
        bound_id::<A>(self@[0].event)
    }

    /// A history of `event_list`, bound to the identifier its first event gives.
    pub fn new(event_list: &[A::Event]) -> (r: Result<StoredEventList<A>, EventStoreError>)
        ensures
            r is Err <==> event_list@.len() == 0 || bound_id::<A>(event_list@[0]).len() == 0,
            event_list@.len() == 0 ==> r is Err && r->Err_0 is EmptyEventList,
            event_list@.len() > 0 && r is Err ==> r->Err_0 is InvalidInitialEvent,
            r is Ok ==> r->Ok_0.wf() && appended::<A>(
                Seq::<StoredEvent<A>>::empty(),
                r->Ok_0@,
                event_list@,
            ) && r->Ok_0.spec_aggregate_id() == bound_id::<A>(event_list@[0]),
    {
        let r = StoredEventRawList::new().append_all(event_list);
        proof {
            if r is Ok {
                let l = r->Ok_0;
                assert(l@[0int].event == event_list@[0int]);
            }
        }
        r
    }

    pub fn aggregate_id(&self) -> (r: &str)
        requires
            self.wf(),
        ensures
            r@ == self.spec_aggregate_id(),
    {
        self.0.aggregate_id_unchecked()
    }

    pub fn snapshot(&self) -> (r: Snapshot<A>)
        requires
            self.wf(),
        ensures
            r.aggregate@ == fold_prefix::<A>(self@, self@.len()),
            r.index == self@.len() - 1,
    {
        self.0.snapshot_unchecked()
    }

    /// Folds events up to and including the one at `index`, which the history
    /// must reach.
    pub fn snapshot_at(&self, index: EventIndex) -> (r: Snapshot<A>)
        requires
            self.wf(),
            index < self@.len(),
        ensures
            r.aggregate@ == fold_prefix::<A>(self@, index as nat + 1),
            r.index == index,
    {
        self.0.snapshot_at_unchecked(index)
    }

    pub fn append(&mut self, event: A::Event) -> (r: StoredEvent<A>)
        requires
            old(self).wf(),
        ensures
            final(self).wf(),
            final(self)@ == old(self)@.push(r),
            r.event == event,
            r.index == old(self)@.len(),
    {
        let aggregate_id = A::Id::from_id_str(self.aggregate_id());
        self.0.append_unchecked(aggregate_id, event)
    }

    pub fn append_all(self, event_list: &[A::Event]) -> (r: StoredEventList<A>)
        requires
            self.wf(),
        ensures
            r.wf(),
            appended::<A>(self@, r@, event_list@),
    {
        let aggregate_id = A::Id::from_id_str(self.aggregate_id());
        let ghost before = self@;
        let mut this = self;
        let mut i: usize = 0;
        while i < event_list.len()
            invariant
                this.wf(),
                i <= event_list@.len(),
                before.len() > 0,
                this@[0] == before[0],
                aggregate_id.id_text() == bound_id::<A>(before[0].event),
                this@.len() == before.len() + i,
                this@.subrange(0, before.len() as int) == before,
                forall|k: int| 0 <= k < i ==> this@[before.len() + k].event == #[trigger] event_list@[k],
            decreases event_list@.len() - i,
        {
            let ghost prev = this@;
            let event = event_list[i].clone_event();
            this.0.append_unchecked(aggregate_id.clone_id(), event);
            assert(this@.subrange(0, before.len() as int) == prev.subrange(0, before.len() as int));
            i = i + 1;
        }
        this
    }

    pub fn is_empty(&self) -> (r: bool)
        ensures
            r == (self@.len() == 0),
    {
        self.0.is_empty()
    }

    pub fn len(&self) -> (r: usize)
        ensures
            r == self@.len(),
    {
        self.0.len()
    }

    /// A borrowed view of the events.
    pub fn as_slice(&self) -> (r: StoredEventRefList<'_, A>)
        ensures
            r@ == self@,
    {
        self.0.as_slice()
    }

    pub fn raw(self) -> (r: StoredEventRawList<A>)
        ensures
            r@ == self@,
    {
        self.0
    }
}

impl<A: Aggregate> Clone for StoredEventList<A> {
    fn clone(&self) -> (r: Self)
        ensures
            r@ == self@,
    {
        StoredEventList(self.0.as_slice().to_owned())
    }
}

/// In every history, the event at position `i` has index `i`.
pub proof fn lemma_index_contiguity<A: Aggregate>(list: StoredEventList<A>)
    requires
        list.wf(),
    ensures
        forall|i: int| 0 <= i < list@.len() ==> (#[trigger] list@[i]).index == i,
{
}

/// Folding the first `n` events reads those events only: it equals folding
/// the history cut after them.
pub proof fn lemma_fold_reads_prefix<A: Aggregate>(events: Seq<StoredEvent<A>>, n: nat)
    requires
        n <= events.len(),
    ensures
        fold_prefix::<A>(events, n) == fold_prefix::<A>(events.take(n as int), n),
    decreases n,
{
    if n > 0 {
        lemma_fold_reads_prefix::<A>(events, (n - 1) as nat);
        lemma_fold_reads_prefix::<A>(events.take(n as int), (n - 1) as nat);
        assert(events.take(n as int).take(n - 1) == events.take(n - 1));
    }
}

/// A snapshot of the whole history has the last index and the fold of every
/// event; one at index `k` of a history that reaches `k` folds exactly the
/// events up to and including `k`.
pub proof fn lemma_snapshot_fold<A: Aggregate>(
    list: StoredEventList<A>,
    whole: Snapshot<A>,
    k: EventIndex,
    at_k: Snapshot<A>,
)
    requires
        list.wf(),
        whole.aggregate@ == fold_prefix::<A>(list@, list@.len()),
        whole.index == list@.len() - 1,
        k < list@.len(),
        at_k.aggregate@ == fold_prefix::<A>(list@, k as nat + 1),
        at_k.index == k,
    ensures
        whole.index == list@.len() - 1,
        whole.aggregate@ == fold_prefix::<A>(list@, list@.len()),
        at_k.aggregate@ == fold_prefix::<A>(list@.take(k + 1), k as nat + 1),
        at_k.index == k,
{
    lemma_fold_reads_prefix::<A>(list@, k as nat + 1);
}

/// Storage of histories by aggregate identifier, whatever the backend.
pub trait EventStore<A: Aggregate> {
    /// The histories held, by identifier.
    spec fn histories(&self) -> Map<Seq<char>, Seq<StoredEvent<A>>>;

    /// The backend's own invariant.
    spec fn inv(&self) -> bool;

    /// The history of `aggregate_id`, which is absent where nothing was
    /// committed under it.
    fn fetch(&self, aggregate_id: &str) -> (r: Result<StoredEventList<A>, EventStoreError>)
        requires
            self.inv(),
        ensures
            r is Ok ==> self.histories().contains_key(aggregate_id@) && r->Ok_0@
                == self.histories()[aggregate_id@] && r->Ok_0.wf(),
            r is Err ==> r->Err_0 is StorageError || (r->Err_0 is AggregateIsNotExist
                && !self.histories().contains_key(aggregate_id@)),
            !self.histories().contains_key(aggregate_id@) ==> r is Err,
    ;

    fn is_exist(&self, aggregate_id: &str) -> (r: Result<bool, EventStoreError>)
        requires
            self.inv(),
        ensures
            r is Ok ==> r->Ok_0 == self.histories().contains_key(aggregate_id@),
            r is Err ==> r->Err_0 is StorageError,
    ;

    /// Stores `event_list` in place of any history under its identifier.
    fn commit(&mut self, event_list: StoredEventList<A>) -> (r: Result<(), EventStoreError>)
        requires
            old(self).inv(),
            event_list.wf(),
        ensures
            final(self).inv(),
            r is Ok ==> final(self).histories() == old(self).histories().insert(
                event_list.spec_aggregate_id(),
                event_list@,
            ),
            r is Err ==> r->Err_0 is StorageError,
    ;

    /// Takes the history of `aggregate_id` out of the store.
    fn remove(&mut self, aggregate_id: &str) -> (r: Result<StoredEventList<A>, EventStoreError>)
        requires
            old(self).inv(),
        ensures
            final(self).inv(),
            r is Ok ==> old(self).histories().contains_key(aggregate_id@) && r->Ok_0@ == old(
                self,
            ).histories()[aggregate_id@] && r->Ok_0.wf() && final(self).histories() == old(
                self,
            ).histories().remove(aggregate_id@),
            r is Err ==> r->Err_0 is StorageError || (r->Err_0 is AggregateIsNotExist
                && !old(self).histories().contains_key(aggregate_id@) && final(self).histories()
                == old(self).histories()),
            !old(self).histories().contains_key(aggregate_id@) ==> r is Err,
    ;
}

} // verus!
