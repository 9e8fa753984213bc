use std::cell::Cell;

use expiry_cache::cache::{CacheExpiry, CacheFile, CacheManager, CachePolicy, CacheRequest};

fn manager() -> CacheManager {
    CacheManager::new(String::from("cache_root"))
}

fn request(key: &str, policy: CachePolicy) -> CacheRequest {
    CacheRequest::for_resource(String::from(key), policy)
}

#[test]
fn round_trip_never_expiry_reads_back_content() {
    let mut m = manager();
    m.write_cache_file("album", b"hello".to_vec(), CacheExpiry::Never);
    for now in [0u64, 1_000, u64::MAX] {
        match m.read_cache_file("album", CachePolicy::Default, now) {
            CacheFile::Content(b) => assert_eq!(b, b"hello".to_vec()),
            _ => panic!("expected content"),
        }
    }
    let req = request("album", CachePolicy::Default);
    assert_eq!(req.get(&m, 123).as_deref(), Some("hello"));
}

#[test]
fn expiry_boundary_flips_from_content_to_expired() {
    let now = 1_000u64;
    let mut m = manager();
    let expiry = CacheExpiry::expire_in_seconds(now, 1);
    m.write_cache_file("track", b"data".to_vec(), expiry);
    assert!(matches!(
        m.read_cache_file("track", CachePolicy::Default, now),
        CacheFile::Content(_)
    ));
    assert!(matches!(
        m.read_cache_file("track", CachePolicy::Default, now + 1),
        CacheFile::Content(_)
    ));
    assert!(matches!(
        m.read_cache_file("track", CachePolicy::Default, now + 2),
        CacheFile::Expired
    ));
}

#[test]
fn ignore_expiry_policy_bypasses_a_stale_entry() {
    let mut m = manager();
    m.write_cache_file("key", b"stale".to_vec(), CacheExpiry::AtUnixTimestamp(10));
    assert!(matches!(
        m.read_cache_file("key", CachePolicy::Default, 100),
        CacheFile::Expired
    ));
    match m.read_cache_file("key", CachePolicy::IgnoreExpiry, 100) {
        CacheFile::Content(b) => assert_eq!(b, b"stale".to_vec()),
        _ => panic!("expected content under IgnoreExpiry"),
    }
}

#[test]
fn missing_expiry_record_defaults_to_fresh() {
    let mut m = manager();
    m.write_cache_file("key", b"c".to_vec(), CacheExpiry::Never);
    for now in [0u64, 42, u64::MAX] {
        match m.read_cache_file("key", CachePolicy::Default, now) {
            CacheFile::Content(b) => assert_eq!(b, b"c".to_vec()),
            CacheFile::Expired => panic!("never expected Expired without an expiry record"),
            CacheFile::Missing => panic!("entry exists"),
        }
    }
}

#[test]
fn corrupt_expiry_record_fails_safe_to_expired() {
    let mut m = manager();
    m.write_cache_file("key", b"payload".to_vec(), CacheExpiry::Never);
    // The metadata path of "key" is the content path of "key.expiry":
    // planting a 3-byte record there makes the expiry payload malformed.
    m.write_cache_file("key.expiry", vec![1, 2, 3], CacheExpiry::Never);
    assert!(matches!(
        m.read_cache_file("key", CachePolicy::Default, 0),
        CacheFile::Expired
    ));
    match m.read_cache_file("key", CachePolicy::IgnoreExpiry, 0) {
        CacheFile::Content(b) => assert_eq!(b, b"payload".to_vec()),
        _ => panic!("expected content under IgnoreExpiry"),
    }
}

#[test]
fn set_expiry_for_replaces_the_expiry_record() {
    let mut m = manager();
    m.write_cache_file("key", b"v".to_vec(), CacheExpiry::Never);
    m.set_expiry_for("key", 5);
    assert!(matches!(
        m.read_cache_file("key", CachePolicy::Default, 6),
        CacheFile::Expired
    ));
    assert!(matches!(
        m.read_cache_file("key", CachePolicy::Default, 5),
        CacheFile::Content(_)
    ));
}

#[test]
fn never_write_leaves_an_old_expiry_record_in_place() {
    let mut m = manager();
    m.write_cache_file("key", b"old".to_vec(), CacheExpiry::AtUnixTimestamp(5));
    m.write_cache_file("key", b"new".to_vec(), CacheExpiry::Never);
    // The stale record from the first write still applies.
    assert!(matches!(
        m.read_cache_file("key", CachePolicy::Default, 10),
        CacheFile::Expired
    ));
    match m.read_cache_file("key", CachePolicy::IgnoreExpiry, 10) {
        CacheFile::Content(b) => assert_eq!(b, b"new".to_vec()),
        _ => panic!("expected the overwritten content"),
    }
}

#[test]
fn overwriting_a_key_serves_the_latest_content() {
    let mut m = manager();
    m.write_cache_file("key", b"first".to_vec(), CacheExpiry::Never);
    m.write_cache_file("key", b"second".to_vec(), CacheExpiry::Never);
    match m.read_cache_file("key", CachePolicy::Default, 0) {
        CacheFile::Content(b) => assert_eq!(b, b"second".to_vec()),
        _ => panic!("expected content"),
    }
}

#[test]
fn unknown_key_reads_as_missing() {
    let m = manager();
    assert!(matches!(
        m.read_cache_file("nothing", CachePolicy::Default, 0),
        CacheFile::Missing
    ));
    assert!(matches!(
        m.read_cache_file("nothing", CachePolicy::IgnoreExpiry, 0),
        CacheFile::Missing
    ));
    let req = request("nothing", CachePolicy::Default);
    assert_eq!(req.get(&m, 0), None);
}

#[test]
fn empty_content_round_trips() {
    let mut m = manager();
    m.write_cache_file("empty", Vec::new(), CacheExpiry::Never);
    match m.read_cache_file("empty", CachePolicy::Default, 0) {
        CacheFile::Content(b) => assert!(b.is_empty()),
        _ => panic!("expected empty content"),
    }
    let req = request("empty", CachePolicy::Default);
    assert_eq!(req.get(&m, 0).as_deref(), Some(""));
}

#[test]
fn invalid_utf8_content_reads_as_absent_text() {
    let mut m = manager();
    m.write_cache_file("binary", vec![0xff, 0xfe, 0x00], CacheExpiry::Never);
    // The entry exists as bytes...
    assert!(matches!(
        m.read_cache_file("binary", CachePolicy::Default, 0),
        CacheFile::Content(_)
    ));
    // ...but the text API treats the undecodable bytes as a miss.
    let req = request("binary", CachePolicy::Default);
    assert_eq!(req.get(&m, 0), None);
}

#[test]
fn non_ascii_text_round_trips_through_storage() {
    let mut m = manager();
    let req = request("greeting", CachePolicy::Default);
    let r: Result<String, ()> = req.or_else_try_write(
        &mut m,
        || Ok(String::from("héllo wörld — καλημέρα")),
        CacheExpiry::Never,
        0,
    );
    assert_eq!(r.as_deref(), Ok("héllo wörld — καλημέρα"));
    assert_eq!(req.get(&m, 0).as_deref(), Some("héllo wörld — καλημέρα"));
}

#[test]
fn a_hit_never_invokes_the_producer() {
    let mut m = manager();
    m.write_cache_file("key", b"cached".to_vec(), CacheExpiry::Never);
    let req = request("key", CachePolicy::Default);
    let r: Result<String, ()> = req.or_else_try_write(
        &mut m,
        || panic!("producer must not run on a hit"),
        CacheExpiry::Never,
        0,
    );
    assert_eq!(r.as_deref(), Ok("cached"));
}

#[test]
fn a_miss_populates_exactly_once_per_call() {
    let mut m = manager();
    let req = request("key", CachePolicy::Default);
    let calls = Cell::new(0u32);
    let r: Result<String, ()> = req.or_else_try_write(
        &mut m,
        || {
            calls.set(calls.get() + 1);
            Ok(String::from("fresh"))
        },
        CacheExpiry::Never,
        0,
    );
    assert_eq!(calls.get(), 1);
    assert_eq!(r.as_deref(), Ok("fresh"));
    // The result was persisted: the next call is a hit and the producer
    // stays silent.
    let r2: Result<String, ()> = req.or_else_try_write(
        &mut m,
        || panic!("second call must be a hit"),
        CacheExpiry::Never,
        0,
    );
    assert_eq!(r2.as_deref(), Ok("fresh"));
}

#[test]
fn a_failed_producer_leaves_no_entry_behind() {
    let mut m = manager();
    let req = request("key", CachePolicy::Default);
    let r: Result<String, String> = req.or_else_try_write(
        &mut m,
        || Err(String::from("upstream down")),
        CacheExpiry::AtUnixTimestamp(99),
        0,
    );
    assert_eq!(r, Err(String::from("upstream down")));
    assert!(matches!(
        m.read_cache_file("key", CachePolicy::Default, 0),
        CacheFile::Missing
    ));
    assert!(matches!(
        m.read_cache_file("key", CachePolicy::IgnoreExpiry, 0),
        CacheFile::Missing
    ));
    assert_eq!(req.get(&m, 0), None);
}

#[test]
fn expired_entry_makes_the_request_populate_again() {
    let mut m = manager();
    let req = request("key", CachePolicy::Default);
    m.write_cache_file("key", b"old".to_vec(), CacheExpiry::AtUnixTimestamp(10));
    // At time 20 the entry is stale, so the producer runs and its fresh
    // value replaces the stored one.
    let r: Result<String, ()> = req.or_else_try_write(
        &mut m,
        || Ok(String::from("renewed")),
        CacheExpiry::AtUnixTimestamp(30),
        20,
    );
    assert_eq!(r.as_deref(), Ok("renewed"));
    assert_eq!(req.get(&m, 25).as_deref(), Some("renewed"));
    assert_eq!(req.get(&m, 31), None);
}

#[test]
fn expire_in_helpers_compute_absolute_timestamps() {
    assert!(matches!(
        CacheExpiry::expire_in_seconds(100, 50),
        CacheExpiry::AtUnixTimestamp(150)
    ));
    assert!(matches!(
        CacheExpiry::expire_in_hours(1_000, 2),
        CacheExpiry::AtUnixTimestamp(8_200)
    ));
}
