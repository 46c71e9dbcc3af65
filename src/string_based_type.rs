//! String-based identifier types, each an owned value paired with a borrowed
//! view of the same text.
use vstd::prelude::*;
use vstd::utf8::encode_utf8;

use crate::cqrs::aggregate_id::same_text;
use crate::cqrs::{AggregateIdContract, AggregateIdRefContract, IsEmptyAggregateId};

verus! {

/// A unique string (or alias) that stands for the shortened URL.
#[derive(Clone, Debug, PartialEq, Eq, Hash)]
pub struct Slug(pub String);

/// A borrowed view of a [`Slug`]'s text.
#[derive(Clone, Copy, Debug, PartialEq, Eq, Hash)]
pub struct SlugRef<'a>(pub &'a str);

impl View for Slug {
    type V = Seq<char>;

    open spec fn view(&self) -> Seq<char> {
        self.0@
    }
}

impl<'a> View for SlugRef<'a> {
    type V = Seq<char>;

    open spec fn view(&self) -> Seq<char> {
        self.0@
    }
}

impl Slug {
    pub fn new(s: &str) -> (r: Slug)
        ensures
            r@ == s@,
    {
        Slug(s.to_owned())
    }

    /// The length of the text in bytes.
    pub fn len(&self) -> (r: usize)
        ensures
            r == encode_utf8(self@).len() as usize,
    {
        self.0.as_str().len()
    }

    pub fn is_empty(&self) -> (r: bool)
        ensures
            r == (self@.len() == 0),
    {
        self.0.as_str().is_empty()
    }

    pub fn as_str(&self) -> (r: &str)
        ensures
            r@ == self@,
    {
        self.0.as_str()
    }

    pub fn borrow(&self) -> (r: SlugRef<'_>)
        ensures
            r@ == self@,
    {
        SlugRef(self.0.as_str())
    }

    /// Whether the text equals that of a borrowed view.
    pub fn eq_ref(&self, other: &SlugRef) -> (r: bool)
        ensures
            r == (self@ == other@),
    {
        same_text(self.0.as_str(), other.0)
    }

    pub fn to_string(&self) -> (r: String)
        ensures
            r@ == self@,
    {
        self.0.clone()
    }
}

impl<'a> SlugRef<'a> {
    pub fn new(s: &'a str) -> (r: SlugRef<'a>)
        ensures
            r@ == s@,
    {
        SlugRef(s)
    }

    pub fn from_str(s: &'a str) -> (r: SlugRef<'a>)
        ensures
            r@ == s@,
    {
        SlugRef(s)
    }

    /// The length of the text in bytes.
    pub fn len(&self) -> (r: usize)
        ensures
            r == encode_utf8(self@).len() as usize,
    {
        self.0.len()
    }

    pub fn is_empty(&self) -> (r: bool)
        ensures
            r == (self@.len() == 0),
    {
        self.0.is_empty()
    }

    pub fn as_str(&self) -> (r: &'a str)
        ensures
            r@ == self@,
    {
        self.0
    }

    /// Copies the text into a new owned identifier.
    pub fn to_owned(&self) -> (r: Slug)
        ensures
            r@ == self@,
    {
        Slug(self.0.to_owned())
    }

    /// Whether the text equals that of an owned identifier.
    pub fn eq_owned(&self, other: &Slug) -> (r: bool)
        ensures
            r == (self@ == other@),
    {
        same_text(self.0, other.0.as_str())
    }
}

impl From<String> for Slug {
    fn from(s: String) -> (r: Slug) {
        Slug(s)
    }
}

impl vstd::std_specs::convert::FromSpecImpl<String> for Slug {
    open spec fn obeys_from_spec() -> bool {
        true
    }

    open spec fn from_spec(s: String) -> Slug {
        Slug(s)
    }
}

impl AggregateIdContract for Slug {
    open spec fn id_text(&self) -> Seq<char> {
        self@
    }

    fn id_str(&self) -> (r: &str) {
        self.0.as_str()
    }

    fn from_id_str(s: &str) -> (r: Slug) {
        Slug(s.to_owned())
    }

    fn clone_id(&self) -> (r: Slug) {
        Slug(self.0.clone())
    }
}

impl<'a> AggregateIdRefContract for SlugRef<'a> {
    type OwnedAggregateId = Slug;

    open spec fn ref_text(&self) -> Seq<char> {
        self@
    }

    fn to_owned_id(&self) -> (r: Slug) {
        Slug(self.0.to_owned())
    }
}

impl IsEmptyAggregateId for Slug {
    open spec fn spec_is_empty(&self) -> bool {
        self@.len() == 0
    }

    fn is_empty(&self) -> (r: bool) {
        self.0.as_str().is_empty()
    }
}

impl<'a> IsEmptyAggregateId for SlugRef<'a> {
    open spec fn spec_is_empty(&self) -> bool {
        self@.len() == 0
    }

    fn is_empty(&self) -> (r: bool) {
        self.0.is_empty()
    }
}

/// The full URL that a short link points to.
#[derive(Clone, Debug, PartialEq, Eq, Hash)]
pub struct Url(pub String);

/// A borrowed view of a [`Url`]'s text.
#[derive(Clone, Copy, Debug, PartialEq, Eq, Hash)]
pub struct UrlRef<'a>(pub &'a str);

impl View for Url {
    type V = Seq<char>;

    open spec fn view(&self) -> Seq<char> {
        self.0@
    }
}

impl<'a> View for UrlRef<'a> {
    type V = Seq<char>;

    open spec fn view(&self) -> Seq<char> {
        self.0@
    }
}

impl Url {
    pub fn new(s: &str) -> (r: Url)
        ensures
            r@ == s@,
    {
        Url(s.to_owned())
    }

    /// The length of the text in bytes.
    pub fn len(&self) -> (r: usize)
        ensures
            r == encode_utf8(self@).len() as usize,
    {
        self.0.as_str().len()
    }

    pub fn is_empty(&self) -> (r: bool)
        ensures
            r == (self@.len() == 0),
    {
        self.0.as_str().is_empty()
    }

    pub fn as_str(&self) -> (r: &str)
        ensures
            r@ == self@,
    {
        self.0.as_str()
    }

    pub fn borrow(&self) -> (r: UrlRef<'_>)
        ensures
            r@ == self@,
    {
        UrlRef(self.0.as_str())
    }

    /// Whether the text equals that of a borrowed view.
    pub fn eq_ref(&self, other: &UrlRef) -> (r: bool)
        ensures
            r == (self@ == other@),
    {
        same_text(self.0.as_str(), other.0)
    }

    pub fn to_string(&self) -> (r: String)
        ensures
            r@ == self@,
    {
        self.0.clone()
    }
}

impl<'a> UrlRef<'a> {
    pub fn new(s: &'a str) -> (r: UrlRef<'a>)
        ensures
            r@ == s@,
    {
        UrlRef(s)
    }

    pub fn from_str(s: &'a str) -> (r: UrlRef<'a>)
        ensures
            r@ == s@,
    {
        UrlRef(s)
    }

    /// The length of the text in bytes.
    pub fn len(&self) -> (r: usize)
        ensures
            r == encode_utf8(self@).len() as usize,
    {
        self.0.len()
    }

    pub fn is_empty(&self) -> (r: bool)
        ensures
            r == (self@.len() == 0),
    {
        self.0.is_empty()
    }

    pub fn as_str(&self) -> (r: &'a str)
        ensures
            r@ == self@,
    {
        self.0
    }

    /// Copies the text into a new owned identifier.
    pub fn to_owned(&self) -> (r: Url)
        ensures
            r@ == self@,
    {
        Url(self.0.to_owned())
    }

    /// Whether the text equals that of an owned identifier.
    pub fn eq_owned(&self, other: &Url) -> (r: bool)
        ensures
            r == (self@ == other@),
    {
        same_text(self.0, other.0.as_str())
    }
}

impl From<String> for Url {
    fn from(s: String) -> (r: Url) {
        Url(s)
    }
}

impl vstd::std_specs::convert::FromSpecImpl<String> for Url {
    open spec fn obeys_from_spec() -> bool {
        true
    }

    open spec fn from_spec(s: String) -> Url {
        Url(s)
    }
}

impl AggregateIdContract for Url {
    open spec fn id_text(&self) -> Seq<char> {
        self@
    }

    fn id_str(&self) -> (r: &str) {
        self.0.as_str()
    }

    fn from_id_str(s: &str) -> (r: Url) {
        Url(s.to_owned())
    }

    fn clone_id(&self) -> (r: Url) {
        Url(self.0.clone())
    }
}

impl<'a> AggregateIdRefContract for UrlRef<'a> {
    type OwnedAggregateId = Url;

    open spec fn ref_text(&self) -> Seq<char> {
        self@
    }

    fn to_owned_id(&self) -> (r: Url) {
        Url(self.0.to_owned())
    }
}

impl IsEmptyAggregateId for Url {
    open spec fn spec_is_empty(&self) -> bool {
        self@.len() == 0
    }

    fn is_empty(&self) -> (r: bool) {
        self.0.as_str().is_empty()
    }
}

impl<'a> IsEmptyAggregateId for UrlRef<'a> {
    open spec fn spec_is_empty(&self) -> bool {
        self@.len() == 0
    }

    fn is_empty(&self) -> (r: bool) {
        self.0.is_empty()
    }
}

/// Owned and borrowed identifiers made from one text are equal, and copying
/// the borrowed view gives an owned identifier equal to both.
pub proof fn lemma_identifier_pair_equivalence(s: Seq<char>, owned: Slug, view: SlugRef, copied: Slug)
    requires
        owned@ == s,
        view@ == s,
        copied@ == view@,
    ensures
        owned@ == view@,
        copied@ == owned@,
        owned.id_text() == view.ref_text(),
        owned.spec_is_empty() == view.spec_is_empty(),
{
}

} // verus!
