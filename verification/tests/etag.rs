use object_store::etag::{compute_etag, key_etag, provider_etag_or, to_hex, BodyDigest};

#[test]
fn hex_is_lowercase_two_digits_per_byte() {
    assert_eq!(to_hex(&[]), "");
    assert_eq!(to_hex(&[0x00, 0x0f, 0xa0, 0xff]), "000fa0ff");
    assert_eq!(to_hex(&[1, 2, 3, 15, 16]), "0102030f10");
    assert_eq!(to_hex(b"Hello world!"), "48656c6c6f20776f726c6421");
}

#[test]
fn etag_is_the_sha256_of_the_body() {
    assert_eq!(
        compute_etag(b""),
        "e3b0c44298fc1c149afbf4c8996fb92427ae41e4649b934ca495991b7852b855"
    );
    assert_eq!(
        compute_etag(b"abc"),
        "ba7816bf8f01cfea414140de5dae2223b00361a396177a9cb410ff61f20015ad"
    );
    assert_eq!(
        compute_etag(b"Hello, World!"),
        "dffd6021bb2bd5b0af676290809ec3a53191dd81c7f70a4b28688a362182986f"
    );
    assert_eq!(compute_etag(&[0u8; 1000]).len(), 64);
}

#[test]
fn digest_does_not_depend_on_the_chunking() {
    let mut whole = BodyDigest::new();
    whole.update(b"Hello, World!");
    let mut parts = BodyDigest::new();
    parts.update(b"Hello");
    parts.update(b"");
    parts.update(b", ");
    parts.update(b"World!");
    let expected = "dffd6021bb2bd5b0af676290809ec3a53191dd81c7f70a4b28688a362182986f";
    assert_eq!(whole.finish(), expected);
    assert_eq!(parts.finish(), expected);
    assert_eq!(
        BodyDigest::new().finish(),
        "e3b0c44298fc1c149afbf4c8996fb92427ae41e4649b934ca495991b7852b855"
    );
}

#[test]
fn key_etag_is_stable_per_key() {
    assert_eq!(key_etag("abc"), compute_etag(b"abc"));
    assert_eq!(key_etag("abc"), key_etag("abc"));
    assert_ne!(key_etag("abc"), key_etag("abd"));
    assert_eq!(key_etag("ü"), compute_etag(&[0xc3, 0xbc]));
}

#[test]
fn provider_etag_wins() {
    assert_eq!(provider_etag_or(Some("\"strong\"".to_string()), "x".to_string()), "\"strong\"");
    assert_eq!(provider_etag_or(None, "x".to_string()), "x");
}
