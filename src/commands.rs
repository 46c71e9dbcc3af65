//! The command side of the service.
use vstd::prelude::*;

use crate::cqrs::store::{appended, fold_prefix, StoredEvent};
use crate::gen::SlugGenerator;
use crate::service::{create_outcome, parses_as_url, UrlShortenerService, MAX_BUMPS};
use crate::shortener::{ShortLink, ShortLinkStatEvent, ShortenerError, ShortenerEvent, Stats};
use crate::string_based_type::{Slug, Url};

verus! {

/// Handles the commands that change links.
pub trait CommandHandler: Sized {
    type Generator: SlugGenerator;

    /// Whether the handler is in a state to take commands.
    spec fn ready(&self) -> bool;

    /// The history of each link, by slug.
    spec fn link_histories(&self) -> Map<Seq<char>, Seq<StoredEvent<Stats>>>;

    /// The generator of slugs for links created without one.
    spec fn link_generator(&self) -> Self::Generator;

    /// Creates a link to `url` under `slug`, or under a generated slug.
    fn handle_create_short_link(&mut self, url: Url, slug: Option<Slug>) -> (r: Result<
        ShortLink,
        ShortenerError,
    >)
        requires
            old(self).ready(),
            slug is None ==> old(self).link_histories().dom().len() < MAX_BUMPS,
        ensures
            final(self).ready(),
            final(self).link_generator() == old(self).link_generator(),
            create_outcome(
                old(self).link_generator(),
                old(self).link_histories(),
                final(self).link_histories(),
                url@,
                slug,
                parses_as_url(url@),
                r,
            ),
    ;

    /// Records a redirect through the link under `slug`.
    fn handle_redirect(&mut self, slug: Slug) -> (r: Result<ShortLink, ShortenerError>)
        requires
            old(self).ready(),
        ensures
            final(self).ready(),
            final(self).link_generator() == old(self).link_generator(),
            r is Err <==> !old(self).link_histories().contains_key(slug@),
            r is Err ==> r->Err_0 == ShortenerError::SlugNotFound && final(self).link_histories()
                == old(self).link_histories(),
            r is Ok ==> {
                let h = final(self).link_histories()[slug@];
                &&& final(self).link_histories() == old(self).link_histories().insert(slug@, h)
                &&& appended::<Stats>(
                    old(self).link_histories()[slug@],
                    h,
                    seq![ShortenerEvent::ShortLinkStatEvent(slug, ShortLinkStatEvent::Redirect)],
                )
                &&& r->Ok_0.slug@ == fold_prefix::<Stats>(h, h.len()).0
                &&& r->Ok_0.url@ == fold_prefix::<Stats>(h, h.len()).1
            },
    ;
}

impl<G: SlugGenerator> CommandHandler for UrlShortenerService<G> {
    type Generator = G;

    open spec fn ready(&self) -> bool {
        self.wf()
    }

    open spec fn link_histories(&self) -> Map<Seq<char>, Seq<StoredEvent<Stats>>> {
        self.links()
    }

    open spec fn link_generator(&self) -> G {
        self.generator()
    }

    fn handle_create_short_link(&mut self, url: Url, slug: Option<Slug>) -> (r: Result<
        ShortLink,
        ShortenerError,
    >) {
        UrlShortenerService::<G>::handle_create_short_link(self, url, slug)
    }

    fn handle_redirect(&mut self, slug: Slug) -> (r: Result<ShortLink, ShortenerError>) {
        UrlShortenerService::<G>::handle_redirect(self, slug)
    }
}

} // verus!
