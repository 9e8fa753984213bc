use expiry_cache::cache::{evaluate_expiry, ExpiryRead};
use expiry_cache::codec::{decode_expiry, encode_expiry};

#[test]
fn encoding_is_big_endian() {
    assert_eq!(
        encode_expiry(0x0102030405060708),
        vec![1, 2, 3, 4, 5, 6, 7, 8]
    );
    assert_eq!(encode_expiry(0), vec![0; 8]);
    assert_eq!(encode_expiry(u64::MAX), vec![0xff; 8]);
    assert_eq!(
        encode_expiry(1_700_000_000),
        vec![0x00, 0x00, 0x00, 0x00, 0x65, 0x53, 0xf1, 0x00]
    );
}

#[test]
fn decoding_undoes_encoding() {
    for v in [0u64, 1, 255, 256, 1_700_000_000, u64::MAX] {
        assert_eq!(decode_expiry(&encode_expiry(v)), Some(v));
    }
}

#[test]
fn any_length_other_than_eight_is_malformed() {
    assert_eq!(decode_expiry(&Vec::new()), None);
    assert_eq!(decode_expiry(&vec![1, 2, 3]), None);
    assert_eq!(decode_expiry(&vec![0; 7]), None);
    assert_eq!(decode_expiry(&vec![0; 9]), None);
    assert_eq!(decode_expiry(&vec![0; 8]), Some(0));
}

#[test]
fn expiry_verdicts_follow_the_fail_safe_rule() {
    // No record: never stale.
    assert!(!evaluate_expiry(&ExpiryRead::Absent, u64::MAX));
    // Unreadable record: always stale.
    assert!(evaluate_expiry(&ExpiryRead::Unreadable, 0));
    // Malformed record: always stale.
    assert!(evaluate_expiry(&ExpiryRead::Found(vec![9, 9]), 0));
    // Well-formed record: stale exactly when the current time passes it.
    let at_100 = ExpiryRead::Found(encode_expiry(100));
    assert!(!evaluate_expiry(&at_100, 99));
    assert!(!evaluate_expiry(&at_100, 100));
    assert!(evaluate_expiry(&at_100, 101));
}
