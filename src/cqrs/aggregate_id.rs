//! Identifiers of aggregates: an owned form and a borrowed view of the same text.
use vstd::prelude::*;

verus! {

/// An owned identifier that holds its text.
pub trait AggregateIdContract: Sized {
    spec fn id_text(&self) -> Seq<char>;

    fn id_str(&self) -> (r: &str)
        ensures
            r@ == self.id_text(),
    ;

    fn from_id_str(s: &str) -> (r: Self)
        ensures
            r.id_text() == s@,
    ;

    fn clone_id(&self) -> (r: Self)
        ensures
            r == *self,
    ;
}

/// A borrowed view of an identifier's text, which copies into the owned form.
pub trait AggregateIdRefContract {
    type OwnedAggregateId: AggregateIdContract;

    spec fn ref_text(&self) -> Seq<char>;

    fn to_owned_id(&self) -> (r: Self::OwnedAggregateId)
        ensures
            r.id_text() == self.ref_text(),
    ;
}

/// Whether an identifier's text is empty.
pub trait IsEmptyAggregateId {
    spec fn spec_is_empty(&self) -> bool;

    fn is_empty(&self) -> (r: bool)
        ensures
            r == self.spec_is_empty(),
    ;
}

impl AggregateIdContract for String {
    open spec fn id_text(&self) -> Seq<char> {
        self@
    }

    fn id_str(&self) -> (r: &str) {
        self.as_str()
    }

    fn from_id_str(s: &str) -> (r: String) {
        s.to_owned()
    }

    fn clone_id(&self) -> (r: String) {
        self.clone()
    }
}

impl IsEmptyAggregateId for String {
    open spec fn spec_is_empty(&self) -> bool {
        self@.len() == 0
    }

    fn is_empty(&self) -> (r: bool) {
        self.as_str().is_empty()
    }
}

/// Whether two strings hold the same characters.
pub(crate) fn same_text(a: &str, b: &str) -> (r: bool)
    ensures
        r == (a@ == b@),
{
    let x = a.to_owned();
    let y = b.to_owned();
    x == y
}

} // verus!
