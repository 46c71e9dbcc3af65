use url_shortener::base64::Url;
use url_shortener::gen::SimplestSlugGenerator;

#[test]
fn test_generated_slug_len() {
    assert_eq!(SimplestSlugGenerator.generate(128).len(), 8)
}

#[test]
fn generate_from_encodes_seed_then_bump() {
    let slug = SimplestSlugGenerator::generate_from(0x01020304, 0x0506);
    assert_eq!(slug.as_str(), Url::encode(&[1, 2, 3, 4, 5, 6]));
    assert_eq!(slug.as_str(), "AQIDBAUG");
}

#[test]
fn generate_from_differs_by_bump() {
    let a = SimplestSlugGenerator::generate_from(7, 0);
    let b = SimplestSlugGenerator::generate_from(7, 1);
    assert_ne!(a, b);
}
