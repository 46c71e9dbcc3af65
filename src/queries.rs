//! The query side of the service.
use vstd::prelude::*;

use crate::cqrs::store::{fold_prefix, StoredEvent};
use crate::gen::SlugGenerator;
use crate::service::UrlShortenerService;
use crate::shortener::{ShortenerError, Stats};
use crate::string_based_type::Slug;

verus! {

/// Handles the queries on links.
pub trait QueryHandler {
    /// Whether the handler is in a state to take queries.
    spec fn ready(&self) -> bool;

    /// The history of each link, by slug.
    spec fn link_histories(&self) -> Map<Seq<char>, Seq<StoredEvent<Stats>>>;

    /// The link under `slug` with its redirect count.
    fn get_stats(&self, slug: Slug) -> (r: Result<Stats, ShortenerError>)
        requires
            self.ready(),
        ensures
            r is Err <==> !self.link_histories().contains_key(slug@),
            r is Err ==> r->Err_0 == ShortenerError::SlugNotFound,
            r is Ok ==> r->Ok_0@ == fold_prefix::<Stats>(
                self.link_histories()[slug@],
                self.link_histories()[slug@].len(),
            ),
    ;
}

impl<G: SlugGenerator> QueryHandler for UrlShortenerService<G> {
    open spec fn ready(&self) -> bool {
        self.wf()
    }

    open spec fn link_histories(&self) -> Map<Seq<char>, Seq<StoredEvent<Stats>>> {
        self.links()
    }

    fn get_stats(&self, slug: Slug) -> (r: Result<Stats, ShortenerError>) {
        UrlShortenerService::<G>::get_stats(self, slug)
    }
}

} // verus!
