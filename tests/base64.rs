use url_shortener::base64::{encode, Std, Url};

#[test]
fn test_encode() {
    assert_eq!(Url::encode("fluffy pancakes".as_bytes()), "Zmx1ZmZ5IHBhbmNha2Vz");
    assert_eq!(Std::encode("fluffy pancakes".as_bytes()), "Zmx1ZmZ5IHBhbmNha2Vz");
    assert_eq!(Url::encode("eightsym".as_bytes()), "ZWlnaHRzeW0=");
    assert_eq!(Std::encode("eightsym".as_bytes()), "ZWlnaHRzeW0=");
}

#[test]
fn encode_alphabets_differ_in_last_two_symbols() {
    assert_eq!(Std::encode(&[0xfb, 0xff]), "+/8=");
    assert_eq!(Url::encode(&[0xfb, 0xff]), "-_8=");
}

#[test]
fn encode_empty_and_one_byte() {
    assert_eq!(encode::<Std>(&[]), "");
    assert_eq!(encode::<Std>(b"M"), "TQ==");
    assert_eq!(encode::<Std>(b"Ma"), "TWE=");
    assert_eq!(encode::<Std>(b"Man"), "TWFu");
}
