//! The URL shortening service: commands and queries over the event store.
use vstd::prelude::*;
use vstd::set_lib::lemma_len_subset;

use crate::cqrs::mem_store::MemEventStore;
use crate::cqrs::store::{appended, fold_prefix, EventStoreError, StoredEvent, StoredEventList};
use crate::gen::SlugGenerator;
use crate::shortener::{ShortLink, ShortLinkStatEvent, ShortenerError, ShortenerEvent, Stats};
use crate::string_based_type::{Slug, Url};

verus! {

/// Whether `url::Url::parse` accepts the text as an absolute URL.
pub uninterp spec fn parses_as_url(s: Seq<char>) -> bool;

/// Relies on `url::Url::parse`: whether it parses the text, which depends on
/// the text alone.
#[verifier::external_body]
fn url_parses(s: &str) -> (r: bool)
    ensures
        r == parses_as_url(s@),
{
    url::Url::parse(s).is_ok()
}

/// The most slugs that the generator tries for one link.
pub const MAX_BUMPS: u16 = 65535;

/// A history that holds one creation of the link from `slug` to `url`, at
/// index zero.
pub open spec fn created_history(h: Seq<StoredEvent<Stats>>, slug: Seq<char>, url: Seq<char>) -> bool {
    &&& h.len() == 1
    &&& h[0].index == 0
    &&& h[0].event matches ShortenerEvent::Create(s, u) && s@ == slug && u@ == url
}

/// Whether the generator makes `slug` from `input` with some bump in range.
pub open spec fn made_in_range<G: SlugGenerator>(generator: G, input: Seq<char>, slug: Seq<char>) -> bool {
    exists|b: u16| b < MAX_BUMPS && generator.makes(input, b, slug)
}

/// What creating a link does to the links held, given whether the URL is
/// valid: the URL is judged first, then a supplied slug must be free and not
/// empty, and a generated slug is one the generator makes with a bump in range.
pub open spec fn create_outcome<G: SlugGenerator>(
    generator: G,
    before: Map<Seq<char>, Seq<StoredEvent<Stats>>>,
    after: Map<Seq<char>, Seq<StoredEvent<Stats>>>,
    url: Seq<char>,
    slug: Option<Slug>,
    url_valid: bool,
    r: Result<ShortLink, ShortenerError>,
) -> bool {
    &&& !url_valid ==> r == Err::<ShortLink, ShortenerError>(ShortenerError::InvalidUrl)
    &&& url_valid && slug is Some && before.contains_key(slug->0@) ==> r == Err::<
        ShortLink,
        ShortenerError,
    >(ShortenerError::SlugAlreadyInUse)
    &&& url_valid && slug is Some && !before.contains_key(slug->0@) && slug->0@.len() == 0 ==> r
        == Err::<ShortLink, ShortenerError>(ShortenerError::InvalidUrl)
    &&& url_valid && (slug is None || (!before.contains_key(slug->0@) && slug->0@.len() > 0))
        ==> r is Ok
    &&& r is Err ==> after == before
    &&& r is Ok ==> {
        let link = r->Ok_0;
        &&& slug is Some ==> link.slug@ == slug->0@
        &&& slug is None ==> made_in_range(generator, url, link.slug@)
        &&& link.url@ == url
        &&& !before.contains_key(link.slug@)
        &&& after == before.insert(link.slug@, after[link.slug@])
        &&& created_history(after[link.slug@], link.slug@, url)
    }
}

/// A shortening service over an in-memory event store.
pub struct UrlShortenerService<G: SlugGenerator> {
    storage: MemEventStore<Stats>,
    slug_generator: G,
}

/// Maps the absence of a history to the absence of a link.
fn map_fetch_err_to_shortener_err(e: EventStoreError) -> (r: ShortenerError)
    requires
        e is AggregateIsNotExist,
    ensures
        r == ShortenerError::SlugNotFound,
{
    match e {
        EventStoreError::AggregateIsNotExist => ShortenerError::SlugNotFound,
        _ => ShortenerError::SlugNotFound,
    }
}

impl<G: SlugGenerator> UrlShortenerService<G> {
    /// The history of each link, by slug.
    pub closed spec fn links(&self) -> Map<Seq<char>, Seq<StoredEvent<Stats>>> {
        self.storage.spec_histories()
    }

    pub closed spec fn generator(&self) -> G {
        self.slug_generator
    }

    pub closed spec fn wf(&self) -> bool {
        self.storage.wf()
    }

    pub fn new(storage: MemEventStore<Stats>, generator: G) -> (r: Self)
        requires
            storage.wf(),
        ensures
            r.wf(),
            r.links() == storage.spec_histories(),
            r.generator() == generator,
    {
        UrlShortenerService { storage, slug_generator: generator }
    }

    /// The number of links held.
    pub fn link_count(&self) -> (r: usize)
        requires
            self.wf(),
        ensures
            r == self.links().dom().len(),
    {
        self.storage.len()
    }

    /// Tries bumps from zero up until the generator gives a slug that no link
    /// holds; with fewer links than bumps, one is always found.
    pub fn generate_free_slug(&self, input: &str) -> (r: Slug)
        requires
            self.wf(),
            self.links().dom().len() < MAX_BUMPS,
        ensures
            !self.links().contains_key(r@),
            made_in_range(self.generator(), input@, r@),
            0 <= self.generator().carried_bump(r@) < MAX_BUMPS,
            r@.len() > 0,
    {
        let mut bump: u16 = 0;
        let ghost mut tried: Set<Seq<char>> = Set::empty();
        proof {
            self.storage.lemma_finite();
        }
        loop
            invariant
                self.wf(),
                self.links().dom().len() < MAX_BUMPS,
                self.links().dom().finite(),
                bump < MAX_BUMPS,
                tried.finite(),
                tried.len() == bump,
                tried.subset_of(self.links().dom()),
                forall|s: Seq<char>|
                    #[trigger] tried.contains(s) ==> self.generator().carried_bump(s) < bump,
            decreases MAX_BUMPS - bump,
        {
            let candidate = self.slug_generator.generate(input, bump);
            if !self.storage.is_exist(candidate.as_str()) {
                assert(self.generator().makes(input@, bump, candidate@));
                return candidate;
            }
            proof {
                assert(!tried.contains(candidate@));
                tried = tried.insert(candidate@);
                lemma_len_subset(tried, self.links().dom());
            }
            bump = bump + 1;
        }
    }

    /// Creates a link once the URL has been judged: `url_valid` tells whether
    /// it is valid.
    pub fn handle_create_short_link_with(
        &mut self,
        url: Url,
        slug: Option<Slug>,
        url_valid: bool,
    ) -> (r: Result<ShortLink, ShortenerError>)
        requires
            old(self).wf(),
            url_valid && slug is None ==> old(self).links().dom().len() < MAX_BUMPS,
        ensures
            final(self).wf(),
            final(self).generator() == old(self).generator(),
            create_outcome(
                old(self).generator(),
                old(self).links(),
                final(self).links(),
                url@,
                slug,
                url_valid,
                r,
            ),
    {
        if !url_valid {
            return Err(ShortenerError::InvalidUrl);
        }
        let ghost none_given = slug is None;
        let ghost generator = self.generator();
        let ghost mut witness: u16 = 0;
        let slug = match slug {
            Some(slug) => {
                if self.storage.is_exist(slug.as_str()) {
                    return Err(ShortenerError::SlugAlreadyInUse);
                }
                slug
            },
            None => {
                let generated = self.generate_free_slug(url.as_str());
                proof {
                    witness = choose|b: u16|
                        b < MAX_BUMPS && #[trigger] self.generator().makes(url@, b, generated@);
                }
                generated
            },
        };
        let ghost slug_text = slug@;
        let ghost url_text = url@;
        let ghost before = self.links();
        assert(!before.contains_key(slug_text));
        let ghost created = ShortenerEvent::Create(slug, url);
        let events = vec![ShortenerEvent::Create(slug, url)];
        assert(events@ == seq![created]);
        assert(events@[0] == created);
        let event_list = match StoredEventList::<Stats>::new(events.as_slice()) {
            Ok(event_list) => event_list,
            Err(_) => {
                // the creation binds the list to the slug, which was given empty
                return Err(ShortenerError::InvalidUrl);
            },
        };
        let snapshot = event_list.snapshot();
        assert(event_list@[0].event == events@[0]);
        assert(event_list.spec_aggregate_id() == slug_text);
        assert(event_list@[0].index == 0);
        let ghost h = event_list@;
        self.storage.commit(event_list);
        let link = snapshot.into_aggregate().link;
        assert(link.slug@ == slug_text);
        assert(link.url@ == url_text);
        assert(self.links()[slug_text] == h);
        assert(created_history(h, slug_text, url_text));
        assert(self.links() == before.insert(slug_text, h));
        assert(none_given ==> witness < MAX_BUMPS && generator.makes(url_text, witness, link.slug@));
        assert(none_given ==> made_in_range(generator, url_text, link.slug@));
        Ok(link)
    }

    /// Creates a link to `url` under `slug`, or under a generated slug.
    pub fn handle_create_short_link(&mut self, url: Url, slug: Option<Slug>) -> (r: Result<
        ShortLink,
        ShortenerError,
    >)
        requires
            old(self).wf(),
            slug is None ==> old(self).links().dom().len() < MAX_BUMPS,
        ensures
            final(self).wf(),
            final(self).generator() == old(self).generator(),
            create_outcome(
                old(self).generator(),
                old(self).links(),
                final(self).links(),
                url@,
                slug,
                parses_as_url(url@),
                r,
            ),
    {
        let url_valid = url_parses(url.as_str());
        self.handle_create_short_link_with(url, slug, url_valid)
    }

    /// Records a redirect through the link under `slug` and returns the link.
    pub fn handle_redirect(&mut self, slug: Slug) -> (r: Result<ShortLink, ShortenerError>)
        requires
            old(self).wf(),
        ensures
            final(self).wf(),
            final(self).generator() == old(self).generator(),
            r is Err <==> !old(self).links().contains_key(slug@),
            r is Err ==> r->Err_0 == ShortenerError::SlugNotFound && final(self).links() == old(
                self,
            ).links(),
            r is Ok ==> {
                let h = final(self).links()[slug@];
                &&& final(self).links() == old(self).links().insert(slug@, h)
                &&& appended::<Stats>(
                    old(self).links()[slug@],
                    h,
                    seq![ShortenerEvent::ShortLinkStatEvent(slug, ShortLinkStatEvent::Redirect)],
                )
                &&& r->Ok_0.slug@ == fold_prefix::<Stats>(h, h.len()).0
                &&& r->Ok_0.url@ == fold_prefix::<Stats>(h, h.len()).1
            },
    {
        let ghost key = slug@;
        let ghost redirect = ShortenerEvent::ShortLinkStatEvent(slug, ShortLinkStatEvent::Redirect);
        let event_list = match self.storage.fetch(slug.as_str()) {
            Ok(event_list) => event_list,
            Err(e) => {
                return Err(map_fetch_err_to_shortener_err(e));
            },
        };
        proof {
            self.storage.lemma_histories_keyed(key);
        }
        let events = vec![ShortenerEvent::ShortLinkStatEvent(slug, ShortLinkStatEvent::Redirect)];
        assert(events@ == seq![redirect]);
        let ghost before = event_list@;
        let event_list = event_list.append_all(events.as_slice());
        assert(event_list@[0] == before[0]);
        let snapshot = event_list.snapshot();
        self.storage.commit(event_list);
        Ok(snapshot.into_aggregate().link)
    }

    /// The link under `slug` with its redirect count.
    pub fn get_stats(&self, slug: Slug) -> (r: Result<Stats, ShortenerError>)
        requires
            self.wf(),
        ensures
            r is Err <==> !self.links().contains_key(slug@),
            r is Err ==> r->Err_0 == ShortenerError::SlugNotFound,
            r is Ok ==> r->Ok_0@ == fold_prefix::<Stats>(
                self.links()[slug@],
                self.links()[slug@].len(),
            ),
    {
        match self.storage.fetch(slug.as_str()) {
            Ok(event_list) => Ok(event_list.snapshot().into_aggregate()),
            Err(e) => Err(map_fetch_err_to_shortener_err(e)),
        }
    }
}

} // verus!
