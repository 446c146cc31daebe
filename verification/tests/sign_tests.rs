use cloudinary_upload::sign::sign_request;

// Golden value: the standard SHA-256 hex digest of the exact byte string
// "timestamp=1700000000abcd".
const GOLDEN_ABCD_1700000000: &str =
    "29886ed878035abc09e29f7e8ce19b01d9f3caa3ad0851d5d5c2aaa5ab812369";

#[test]
fn golden_signature_for_known_secret_and_timestamp() {
    assert_eq!(sign_request("abcd", 1700000000), GOLDEN_ABCD_1700000000);
}

#[test]
fn golden_signature_for_zero_timestamp() {
    // SHA-256 of "timestamp=0secret".
    assert_eq!(
        sign_request("secret", 0),
        "951b3180dcfbbac4b1a23acd0c0db03090bed5f878ac72955156d89b8f73c0bd"
    );
}

#[test]
fn golden_signature_for_largest_timestamp() {
    // SHA-256 of "timestamp=18446744073709551615x".
    assert_eq!(
        sign_request("x", u64::MAX),
        "2b8c2832cc0f2af56a96c684089b0550b6560af5ccd02b6163342dda048c3acc"
    );
}

#[test]
fn signing_twice_yields_identical_signatures() {
    let first = sign_request("abcd", 1700000000);
    let second = sign_request("abcd", 1700000000);
    assert_eq!(first, second);
}

#[test]
fn different_timestamps_yield_different_signatures() {
    assert_ne!(sign_request("abcd", 1700000000), sign_request("abcd", 1700000001));
}

#[test]
fn different_secrets_yield_different_signatures() {
    assert_ne!(sign_request("abcd", 1700000000), sign_request("abce", 1700000000));
}

#[test]
fn signature_is_exactly_64_lowercase_hex_characters() {
    for (secret, ts) in [("abcd", 1700000000u64), ("", 0), ("long secret value", u64::MAX)] {
        let sig = sign_request(secret, ts);
        assert_eq!(sig.len(), 64);
        assert!(sig.chars().all(|c| c.is_ascii_hexdigit() && !c.is_ascii_uppercase()));
    }
}
