//! An event-sourced aggregate store, and a URL shortening service built on it.
//!
//! A domain object's history is kept as an append-only list of events under
//! the object's identifier; its current state is the fold of that list. The
//! shortening service keeps one such history per short link: its creation and
//! every redirect through it.
pub mod base64;
pub mod commands;
pub mod cqrs;
pub mod gen;
pub mod queries;
pub mod service;
pub mod shortener;
pub mod string_based_type;

pub use service::UrlShortenerService;
pub use shortener::{ShortLink, ShortLinkStatEvent, ShortenerError, ShortenerEvent, Stats};
pub use string_based_type::{Slug, SlugRef, Url, UrlRef};
