use url_shortener::cqrs::mem_store::MemEventStore;
use url_shortener::gen::SimplestSlugGenerator;
use url_shortener::{ShortenerError, Slug, Stats, Url, UrlRef, UrlShortenerService};

fn create_service() -> UrlShortenerService<SimplestSlugGenerator> {
    let storage = MemEventStore::<Stats>::new();
    let shortener = SimplestSlugGenerator;
    UrlShortenerService::new(storage, shortener)
}

fn invalid_url() -> UrlRef<'static> {
    UrlRef::from_str("http://[:::1]")
}

fn valid_url() -> UrlRef<'static> {
    UrlRef::from_str("https://github.com/rust-lang/rust/issues?labels=E-easy&state=open")
}

fn test_url(x: usize) -> String {
    format!("https://github.com/rust-lang/rust/issues?labels=E-easy&state=open&x={}", x)
}

#[test]
fn service_handle_create_short_link_on_invalid_url() {
    let mut service = create_service();

    let result = service.handle_create_short_link(invalid_url().to_owned(), None);
    match result {
        Ok(_) => panic!("invalid url accepted"),
        Err(ShortenerError::InvalidUrl) => {}
        Err(e) => panic!("wrong error type on invalid url: error = {e:?}"),
    }
}

#[test]
fn service_handle_create_short_link_on_valid_url() {
    let mut service = create_service();
    let link = service.handle_create_short_link(valid_url().to_owned(), None).unwrap();
    assert_eq!(link.url.borrow(), valid_url());
    assert_eq!(link.slug.len(), 8);
}

#[test]
fn service_handle_redirect() {
    let mut service = create_service();
    let link = service.handle_create_short_link(valid_url().to_owned(), None).unwrap();
    assert_eq!(link.url.borrow(), valid_url());
    assert_eq!(link.slug.len(), 8);

    for _ in [0..10] {
        service.handle_redirect(link.slug.clone()).unwrap();
    }
}

#[test]
fn service_handle_many_links() {
    let mut service = create_service();
    let links = (0..10)
        .map(test_url)
        .map(|url| service.handle_create_short_link(Url(url), None).unwrap())
        .collect::<Vec<_>>();

    for (i, link) in links.iter().enumerate() {
        assert_eq!(test_url(i), link.url.0);
        assert_eq!(link.slug.len(), 8)
    }

    for link in links.iter() {
        let stats = service.get_stats(link.slug.clone()).unwrap();
        assert_eq!(stats.redirects, 0);
        const REDIRECTS: u64 = 123;
        for _ in 0..REDIRECTS {
            service.handle_redirect(link.slug.clone()).unwrap();
        }
        let stats = service.get_stats(link.slug.clone()).unwrap();
        assert_eq!(stats.redirects, REDIRECTS);
    }
}

#[test]
fn create_with_same_slug_twice_is_refused() {
    let mut service = create_service();
    let slug = Slug::new("mine");
    let link = service
        .handle_create_short_link(valid_url().to_owned(), Some(slug.clone()))
        .unwrap();
    assert_eq!(link.slug, slug);
    let again = service.handle_create_short_link(Url::new("https://example.net"), Some(slug));
    assert_eq!(again, Err(ShortenerError::SlugAlreadyInUse));
    assert_eq!(service.link_count(), 1);
}

#[test]
fn create_with_judged_url_follows_the_judgement() {
    let mut service = create_service();
    let refused = service.handle_create_short_link_with(Url::new("https://example.net"), None, false);
    assert_eq!(refused, Err(ShortenerError::InvalidUrl));
    let accepted = service.handle_create_short_link_with(Url::new("not a url"), Some(Slug::new("s")), true);
    assert_eq!(accepted.unwrap().url, Url::new("not a url"));
}

#[test]
fn unknown_slug_is_not_found() {
    let mut service = create_service();
    assert_eq!(service.handle_redirect(Slug::new("nope")), Err(ShortenerError::SlugNotFound));
    assert_eq!(service.get_stats(Slug::new("nope")), Err(ShortenerError::SlugNotFound));
}

#[test]
fn redirects_are_counted_per_link() {
    let mut service = create_service();
    service.handle_create_short_link(Url::new("https://a.example"), Some(Slug::new("a"))).unwrap();
    service.handle_create_short_link(Url::new("https://b.example"), Some(Slug::new("b"))).unwrap();
    for _ in 0..3 {
        service.handle_redirect(Slug::new("a")).unwrap();
    }
    let link = service.handle_redirect(Slug::new("b")).unwrap();
    assert_eq!(link.url, Url::new("https://b.example"));
    assert_eq!(service.get_stats(Slug::new("a")).unwrap().redirects, 3);
    assert_eq!(service.get_stats(Slug::new("b")).unwrap().redirects, 1);
}

#[test]
fn generated_slug_avoids_taken_slugs() {
    let mut service = create_service();
    let first = service.handle_create_short_link(Url::new("https://a.example"), None).unwrap();
    let free = service.generate_free_slug("https://a.example");
    assert_ne!(free, first.slug);
    assert_eq!(free.len(), 8);
}

#[test]
fn shortener_error_messages() {
    assert_eq!(ShortenerError::InvalidUrl.message(), "invalid url");
    assert_eq!(ShortenerError::SlugAlreadyInUse.message(), "slug already in use");
    assert_eq!(ShortenerError::SlugNotFound.message(), "slug not found");
}

#[test]
fn empty_supplied_slug_is_invalid_input() {
    let mut service = create_service();
    let r = service.handle_create_short_link(valid_url().to_owned(), Some(Slug::new("")));
    assert_eq!(r, Err(ShortenerError::InvalidUrl));
    assert_eq!(service.link_count(), 0);
}

#[test]
fn url_is_judged_before_the_slug() {
    let mut service = create_service();
    service.handle_create_short_link(valid_url().to_owned(), Some(Slug::new("taken"))).unwrap();
    let r = service.handle_create_short_link(invalid_url().to_owned(), Some(Slug::new("taken")));
    assert_eq!(r, Err(ShortenerError::InvalidUrl));
    let r = service.handle_create_short_link(invalid_url().to_owned(), Some(Slug::new("")));
    assert_eq!(r, Err(ShortenerError::InvalidUrl));
    assert_eq!(service.link_count(), 1);
}
