//! The short-link aggregate: its state, its events and its errors.
use vstd::prelude::*;

use crate::cqrs::aggregate_id::same_text;
use crate::cqrs::{Aggregate, DomainEvent};
use crate::string_based_type::{Slug, Url};

verus! {

/// All the errors of the shortening service.
#[derive(Debug, PartialEq, Eq, Structural)]
pub enum ShortenerError {
    /// An invalid [`Url`] was given for shortening.
    InvalidUrl,
    /// The requested slug is already taken.
    SlugAlreadyInUse,
    /// No short link exists under the given slug.
    SlugNotFound,
}

impl ShortenerError {
    /// A description of the error.
    pub fn message(&self) -> &'static str {
        match self {
            ShortenerError::InvalidUrl => "invalid url",
            ShortenerError::SlugAlreadyInUse => "slug already in use",
            ShortenerError::SlugNotFound => "slug not found",
        }
    }
}

/// A shortened URL.
#[derive(Debug, Clone, PartialEq)]
pub struct ShortLink {
    /// The alias that stands for the URL.
    pub slug: Slug,
    /// The URL that the link points to.
    pub url: Url,
}

/// A short link and the number of redirects through it.
#[derive(Debug, Clone, PartialEq)]
pub struct Stats {
    pub link: ShortLink,
    pub redirects: u64,
}

/// Events of a short link.
#[derive(Debug)]
pub enum ShortenerEvent {
    Create(Slug, Url),
    ShortLinkStatEvent(Slug, ShortLinkStatEvent),
}

/// Events that count uses of a short link.
#[derive(Debug)]
pub enum ShortLinkStatEvent {
    Redirect,
}

impl Clone for ShortenerEvent {
    fn clone(&self) -> (r: Self)
        ensures
            r == *self,
    {
        self.clone_event()
    }
}

impl Clone for ShortLinkStatEvent {
    fn clone(&self) -> (r: Self)
        ensures
            r == *self,
    {
        self.clone_event()
    }
}

impl DomainEvent for ShortenerEvent {
    fn event_type() -> &'static str {
        "ShortenerEvent"
    }

    fn event_name(&self) -> &'static str {
        match self {
            ShortenerEvent::Create(_, _) => "Create",
            ShortenerEvent::ShortLinkStatEvent(_, _) => "ShortLinkStatEvent",
        }
    }

    fn clone_event(&self) -> (r: Self) {
        match self {
            ShortenerEvent::Create(slug, url) => ShortenerEvent::Create(
                Slug(slug.0.clone()),
                Url(url.0.clone()),
            ),
            ShortenerEvent::ShortLinkStatEvent(slug, stat) => ShortenerEvent::ShortLinkStatEvent(
                Slug(slug.0.clone()),
                stat.clone_event(),
            ),
        }
    }
}

impl DomainEvent for ShortLinkStatEvent {
    fn event_type() -> &'static str {
        "ShortLinkStatEvent"
    }

    fn event_name(&self) -> &'static str {
        match self {
            ShortLinkStatEvent::Redirect => "Redirect",
        }
    }

    fn clone_event(&self) -> (r: Self) {
        match self {
            ShortLinkStatEvent::Redirect => ShortLinkStatEvent::Redirect,
        }
    }
}

/// The redirect count after one more redirect; it stays at its largest value.
pub open spec fn bumped(count: u64) -> u64 {
    if count < u64::MAX {
        (count + 1) as u64
    } else {
        count
    }
}

/// The state after an event: creation sets the link and clears the count; a
/// redirect for this link's slug counts one, and one for another slug changes
/// nothing.
pub open spec fn stats_after(
    state: (Seq<char>, Seq<char>, u64),
    event: ShortenerEvent,
) -> (Seq<char>, Seq<char>, u64) {
    match event {
        ShortenerEvent::Create(slug, url) => (slug@, url@, 0),
        ShortenerEvent::ShortLinkStatEvent(slug, _) => if slug@ == state.0 {
            (state.0, state.1, bumped(state.2))
        } else {
            state
        },
    }
}

impl View for Stats {
    /// The slug, the URL and the redirect count.
    type V = (Seq<char>, Seq<char>, u64);

    open spec fn view(&self) -> (Seq<char>, Seq<char>, u64) {
        (self.link.slug@, self.link.url@, self.redirects)
    }
}

impl Default for Stats {
    fn default() -> (r: Stats)
        ensures
            r@ == (Seq::<char>::empty(), Seq::<char>::empty(), 0u64),
    {
        Stats {
            link: ShortLink { slug: Slug(String::new()), url: Url(String::new()) },
            redirects: 0,
        }
    }
}

impl Aggregate for Stats {
    type Event = ShortenerEvent;

    type Id = Slug;

    open spec fn initial() -> (Seq<char>, Seq<char>, u64) {
        (Seq::<char>::empty(), Seq::<char>::empty(), 0u64)
    }

    open spec fn spec_id(state: (Seq<char>, Seq<char>, u64)) -> Seq<char> {
        state.0
    }

    open spec fn applied(state: (Seq<char>, Seq<char>, u64), event: ShortenerEvent) -> (
        Seq<char>,
        Seq<char>,
        u64,
    ) {
        stats_after(state, event)
    }

    fn default_aggregate() -> (r: Stats) {
        Stats {
            link: ShortLink { slug: Slug(String::new()), url: Url(String::new()) },
            redirects: 0,
        }
    }

    fn aggregate_type() -> &'static str {
        "short_link"
    }

    fn aggregate_id(&self) -> (r: &str) {
        self.link.slug.0.as_str()
    }

    fn apply(&mut self, event: ShortenerEvent) {
        match event {
            ShortenerEvent::Create(slug, url) => {
                self.link = ShortLink { slug, url };
                self.redirects = 0;
            },
            ShortenerEvent::ShortLinkStatEvent(slug, stat_event) => {
                if same_text(slug.0.as_str(), self.link.slug.0.as_str()) {
                    match stat_event {
                        ShortLinkStatEvent::Redirect => {
                            if self.redirects < u64::MAX {
                                self.redirects = self.redirects + 1;
                            }
                        },
                    }
                }
            },
        }
    }

    fn clone_aggregate(&self) -> (r: Stats) {
        Stats {
            link: ShortLink {
                slug: Slug(self.link.slug.0.clone()),
                url: Url(self.link.url.0.clone()),
            },
            redirects: self.redirects,
        }
    }
}

} // verus!
