//! Contracts of domain events and aggregates, and the event store built on them.
use vstd::prelude::*;

pub mod aggregate_id;
pub mod mem_store;
pub mod store;

pub use aggregate_id::{AggregateIdContract, AggregateIdRefContract, IsEmptyAggregateId};

verus! {

/// An immutable fact about one aggregate.
pub trait DomainEvent: Sized {
    /// The tag shared by every event of the type.
    fn event_type() -> &'static str;

    /// The name of the event's variant.
    fn event_name(&self) -> &'static str;

    /// A copy of the event.
    fn clone_event(&self) -> (r: Self)
        ensures
            r == *self,
    ;
}

/// A state folded from its events, reasoned about through its view.
pub trait Aggregate: Sized + View {
    type Event: DomainEvent;

    type Id: AggregateIdContract;

    /// The state before any event.
    spec fn initial() -> Self::V;

    /// The text of the identifier of a state.
    spec fn spec_id(state: Self::V) -> Seq<char>;

    /// The state after `event`.
    spec fn applied(state: Self::V, event: Self::Event) -> Self::V;

    fn default_aggregate() -> (r: Self)
        ensures
            r@ == Self::initial(),
    ;

    fn aggregate_type() -> &'static str;

    fn aggregate_id(&self) -> (r: &str)
        ensures
            r@ == Self::spec_id(self@),
    ;

    fn apply(&mut self, event: Self::Event)
        ensures
            final(self)@ == Self::applied(old(self)@, event),
    ;

    fn clone_aggregate(&self) -> (r: Self)
        ensures
            r@ == self@,
    ;
}

/// Decides which events a command produces.
pub trait CommandHandler<A: Aggregate> {
    type Error;

    type Command;

    type Services;

    fn handle(&self, command: Self::Command, services: Self::Services) -> Result<
        Vec<A::Event>,
        Self::Error,
    >;
}

} // verus!
