use patron::identity::MessageIdentity;
use patron::message_id::digest_of;
use patron::message_id::u64_to_decimal;

#[test]
fn identical_payloads_share_one_identity() {
    let a = MessageIdentity::from_payload(b"abcdefg");
    let b = MessageIdentity::from_payload(b"abcdefg");
    assert!(a.same_as(&b));
    assert_eq!(a.bytes, b.bytes);
}

#[test]
fn distinct_payloads_get_distinct_identities() {
    let a = MessageIdentity::from_payload(b"abcdefg");
    let b = MessageIdentity::from_payload(b"abcdefh");
    assert!(!a.same_as(&b));
}

#[test]
fn empty_and_nonempty_payloads_differ() {
    let a = MessageIdentity::from_payload(b"");
    let b = MessageIdentity::from_payload(b"a");
    assert!(!a.same_as(&b));
}

#[test]
fn identity_is_the_decimal_rendering_of_the_digest() {
    let digest = digest_of(b"abc");
    let id = MessageIdentity::from_payload(b"abc");
    assert_eq!(id.bytes, u64_to_decimal(digest));
    for d in id.bytes {
        assert!(d.is_ascii_digit());
    }
}

#[test]
fn digest_is_deterministic_across_fresh_hashers() {
    assert_eq!(digest_of(b"abcdefg"), digest_of(b"abcdefg"));
}

#[test]
fn decimal_rendering_is_exact() {
    assert_eq!(u64_to_decimal(0), b"0".to_vec());
    assert_eq!(u64_to_decimal(7), b"7".to_vec());
    assert_eq!(u64_to_decimal(10), b"10".to_vec());
    assert_eq!(u64_to_decimal(12345), b"12345".to_vec());
    assert_eq!(u64_to_decimal(u64::MAX), b"18446744073709551615".to_vec());
}
