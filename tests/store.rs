use url_shortener::cqrs::mem_store::MemEventStore;
use url_shortener::cqrs::store::{EventStoreError, StoredEventList, StoredEventRawList};
use url_shortener::{ShortLinkStatEvent, ShortenerEvent, Slug, SlugRef, Stats, Url};

fn create(slug: &str, url: &str) -> ShortenerEvent {
    ShortenerEvent::Create(Slug::new(slug), Url::new(url))
}

fn redirect(slug: &str) -> ShortenerEvent {
    ShortenerEvent::ShortLinkStatEvent(Slug::new(slug), ShortLinkStatEvent::Redirect)
}

#[test]
fn list_is_bound_to_first_event_identifier() {
    let list = StoredEventList::<Stats>::new(&[create("abc", "https://x.example"), redirect("abc")])
        .unwrap();
    assert_eq!(list.aggregate_id(), "abc");
    assert_eq!(list.len(), 2);
}

#[test]
fn empty_event_list_is_refused() {
    let r = StoredEventList::<Stats>::new(&[]);
    assert!(matches!(r, Err(EventStoreError::EmptyEventList)));
}

#[test]
fn initial_event_without_identifier_is_refused() {
    let r = StoredEventList::<Stats>::new(&[redirect("abc")]);
    assert!(matches!(r, Err(EventStoreError::InvalidInitialEvent)));
    let r = StoredEventList::<Stats>::new(&[create("", "https://x.example")]);
    assert!(matches!(r, Err(EventStoreError::InvalidInitialEvent)));
}

#[test]
fn raw_list_binds_on_first_append() {
    let mut raw = StoredEventRawList::<Stats>::new();
    assert!(raw.aggregate_id().is_none());
    assert!(matches!(raw.append(redirect("abc")), Err(EventStoreError::InvalidInitialEvent)));
    assert!(raw.is_empty());
    let first = raw.append(create("abc", "https://x.example")).unwrap();
    assert_eq!(first.index, 0);
    let second = raw.append(redirect("other")).unwrap();
    assert_eq!(second.index, 1);
    assert_eq!(second.aggregate_id(), "abc");
    assert_eq!(raw.aggregate_id(), Some("abc"));
    assert!(raw.check_consistency().is_ok());
    assert!(raw.not_empty().is_some());
}

#[test]
fn indices_are_contiguous() {
    let list = StoredEventList::<Stats>::new(&[create("abc", "u"), redirect("abc"), redirect("abc")])
        .unwrap();
    let list = list.append_all(&[redirect("abc"), redirect("abc")]);
    let mut list = list;
    let e = list.append(redirect("abc"));
    assert_eq!(e.index, 5);
    let raw = list.raw();
    assert_eq!(raw.len(), 6);
    assert!(raw.check_consistency().is_ok());
}

#[test]
fn snapshots_fold_events() {
    let list = StoredEventList::<Stats>::new(&[
        create("abc", "https://x.example"),
        redirect("abc"),
        redirect("zzz"),
        redirect("abc"),
    ])
    .unwrap();
    let whole = list.snapshot();
    assert_eq!(whole.index(), 3);
    assert_eq!(whole.aggregate().redirects, 2);
    let at1 = list.snapshot_at(1);
    assert_eq!(at1.index(), 1);
    assert_eq!(at1.to_aggregate().redirects, 1);
    let at0 = list.snapshot_at(0);
    assert_eq!(at0.into_aggregate().link.url, Url::new("https://x.example"));
    let raw = list.raw();
    assert!(raw.snapshot_at(4).is_none());
    assert_eq!(raw.snapshot_at(2).unwrap().aggregate().redirects, 1);
    assert_eq!(raw.snapshot().unwrap().index(), 3);
    assert!(StoredEventRawList::<Stats>::new().snapshot().is_none());
}

#[test]
fn store_round_trip() {
    let mut store = MemEventStore::<Stats>::new();
    let list = StoredEventList::<Stats>::new(&[create("abc", "u"), redirect("abc")]).unwrap();
    store.commit(list.clone());
    let fetched = store.fetch("abc").unwrap();
    assert_eq!(fetched.len(), 2);
    assert_eq!(fetched.aggregate_id(), list.aggregate_id());
    assert_eq!(fetched.snapshot().aggregate().redirects, 1);
    assert!(store.is_exist("abc"));
    let removed = store.remove("abc").unwrap();
    assert_eq!(removed.len(), 2);
    assert!(!store.is_exist("abc"));
}

#[test]
fn commit_replaces_history() {
    let mut store = MemEventStore::<Stats>::new();
    store.commit(StoredEventList::<Stats>::new(&[create("abc", "u")]).unwrap());
    store.commit(StoredEventList::<Stats>::new(&[create("abc", "v"), redirect("abc")]).unwrap());
    assert_eq!(store.len(), 1);
    assert_eq!(store.fetch("abc").unwrap().len(), 2);
}

#[test]
fn absent_identifier_is_reported() {
    let mut store = MemEventStore::<Stats>::new();
    assert!(matches!(store.fetch("abc"), Err(EventStoreError::AggregateIsNotExist)));
    assert!(matches!(store.remove("abc"), Err(EventStoreError::AggregateIsNotExist)));
    assert!(!store.is_exist("abc"));
}

#[test]
fn error_messages() {
    assert_eq!(EventStoreError::AggregateIsNotExist.message(), "aggregate does not exist");
    assert_eq!(EventStoreError::StorageError("x".to_string()).message(), "event storage error: x");
}

#[test]
fn identifier_pair_equivalence() {
    let owned = Slug::new("abc");
    let view = SlugRef::new("abc");
    assert!(owned.eq_ref(&view));
    assert!(view.eq_owned(&owned));
    assert_eq!(view.to_owned(), owned);
    assert_eq!(owned.borrow(), view);
    assert!(!owned.eq_ref(&SlugRef::new("abd")));
    assert!(Slug::new("").is_empty());
}
