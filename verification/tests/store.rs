use checkup::cache::{
    decode_timestamp, encode_timestamp, next_write, timestamp_or_error, CacheManager, Record,
    HTML_FILE, RELEASES_FILE, TIMESTAMP_FILE,
};
use checkup::keys::{ErrorMap, KeySet};
use checkup::model::AppError;
use checkup::time::{is_expired_at, Timestamp};

const HOUR: i64 = 3600;

#[test]
fn entry_is_fresh_up_to_the_time_to_live() {
    let t0 = Timestamp::new(1_700_000_000, 500);
    let ttl = 24;
    assert!(!is_expired_at(t0, t0, ttl));
    assert!(!is_expired_at(t0, Timestamp::new(1_700_000_000 + 24 * HOUR - 1, 999_999_999), ttl));
    assert!(!is_expired_at(t0, Timestamp::new(1_700_000_000 + 24 * HOUR, 499), ttl));
    assert!(!is_expired_at(t0, Timestamp::new(1_700_000_000 + 24 * HOUR, 500), ttl));
}

#[test]
fn entry_is_expired_after_the_time_to_live() {
    let t0 = Timestamp::new(1_700_000_000, 500);
    let ttl = 24;
    assert!(is_expired_at(t0, Timestamp::new(1_700_000_000 + 24 * HOUR, 501), ttl));
    assert!(is_expired_at(t0, Timestamp::new(1_700_000_000 + 24 * HOUR + 1, 0), ttl));
    assert!(is_expired_at(t0, Timestamp::new(1_800_000_000, 0), ttl));
}

#[test]
fn expiry_for_several_times_to_live() {
    for ttl in [0i64, 1, 2, 24, 168, 8760] {
        for t0 in [-5_000_000_000i64, -1, 0, 1, 1_700_000_000] {
            let stored = Timestamp::new(t0, 0);
            let edge = t0 + ttl * HOUR;
            assert!(!is_expired_at(stored, Timestamp::new(edge, 0), ttl));
            assert!(is_expired_at(stored, Timestamp::new(edge, 1), ttl));
            assert!(!is_expired_at(stored, Timestamp::new(edge - 1, 999_999_999), ttl));
        }
    }
}

#[test]
fn entry_from_the_future_is_fresh() {
    assert!(!is_expired_at(Timestamp::new(2000, 0), Timestamp::new(1000, 0), 1));
}

#[test]
fn negative_time_to_live_expires_at_once() {
    assert!(is_expired_at(Timestamp::new(1000, 0), Timestamp::new(1000, 0), -1));
    assert!(!is_expired_at(Timestamp::new(1000 + HOUR, 0), Timestamp::new(1000, 0), -1));
}

#[test]
fn expiry_at_the_limits_of_the_integers() {
    let first = Timestamp::new(i64::MIN, 0);
    let last = Timestamp::new(i64::MAX, 1_999_999_999);
    assert!(is_expired_at(first, last, 24));
    assert!(!is_expired_at(last, first, 24));
    assert!(!is_expired_at(first, Timestamp::new(0, 0), i64::MAX));
    assert!(is_expired_at(first, Timestamp::new(0, 0), i64::MIN));
}

#[test]
fn manager_tells_expired_and_fresh() {
    let manager = CacheManager::new("data/cache".to_string(), 2);
    let t0 = Timestamp::new(100, 0);
    assert!(!manager.is_expired(t0, Timestamp::new(100 + 2 * HOUR, 0)));
    assert!(manager.is_expired(t0, Timestamp::new(100 + 2 * HOUR, 1)));
    assert!(manager.is_fresh(Some(t0), Timestamp::new(100 + 2 * HOUR, 0)));
    assert!(!manager.is_fresh(Some(t0), Timestamp::new(100 + 2 * HOUR, 1)));
    assert!(!manager.is_fresh(None, Timestamp::new(100, 0)));
}

#[test]
fn entry_directory_has_five_components() {
    let manager = CacheManager::new("data/cache".to_string(), 24);
    assert_eq!(
        manager.get_repo_dir("github.com", "sharkdp", "bat"),
        vec!["data/cache", "repo", "github.com", "sharkdp", "bat"]
    );
    assert_eq!(
        manager.get_repo_dir("git.kernel.org", "", "pub/scm/linux.git"),
        vec!["data/cache", "repo", "git.kernel.org", "", "pub/scm/linux.git"]
    );
}

#[test]
fn entry_file_names() {
    assert_eq!(TIMESTAMP_FILE, ".current");
    assert_eq!(RELEASES_FILE, ".json");
    assert_eq!(HTML_FILE, "index.html");
}

#[test]
fn timestamp_is_read_from_rfc3339() {
    assert_eq!(decode_timestamp("2024-01-02T03:04:05Z"), Ok(Timestamp::new(1_704_164_645, 0)));
    assert_eq!(
        decode_timestamp("2024-01-02T03:04:05.250+00:00"),
        Ok(Timestamp::new(1_704_164_645, 250_000_000))
    );
    assert_eq!(
        decode_timestamp("2024-01-02T05:04:05+02:00"),
        Ok(Timestamp::new(1_704_164_645, 0))
    );
    assert_eq!(decode_timestamp("1969-12-31T23:59:59Z"), Ok(Timestamp::new(-1, 0)));
}

#[test]
fn timestamp_is_read_without_surrounding_white_space() {
    assert_eq!(
        decode_timestamp("  2024-01-02T03:04:05Z\n"),
        Ok(Timestamp::new(1_704_164_645, 0))
    );
    assert_eq!(
        decode_timestamp("\t2024-01-02T03:04:05+00:00\r\n"),
        Ok(Timestamp::new(1_704_164_645, 0))
    );
}

#[test]
fn malformed_timestamp_is_reported() {
    let expected = Err(AppError::CacheError("Failed to parse timestamp".to_string()));
    assert_eq!(decode_timestamp(""), expected);
    assert_eq!(decode_timestamp("yesterday"), expected);
    assert_eq!(decode_timestamp("2024-01-02"), expected);
    assert_eq!(decode_timestamp("2024-13-02T03:04:05Z"), expected);
    assert_eq!(decode_timestamp("2024-01-02T03:04:05"), expected);
}

#[test]
fn parse_outcome_maps_to_timestamp_or_error() {
    let good = chrono::DateTime::parse_from_rfc3339("2024-01-02T03:04:05Z")
        .map(|d| Timestamp::new(d.timestamp(), d.timestamp_subsec_nanos()));
    assert_eq!(timestamp_or_error(good), Ok(Timestamp::new(1_704_164_645, 0)));
    let bad = chrono::DateTime::parse_from_rfc3339("nope").map(|_| Timestamp::new(0, 0));
    assert_eq!(
        timestamp_or_error(bad),
        Err(AppError::CacheError("Failed to parse timestamp".to_string()))
    );
}

#[test]
fn timestamp_is_written_as_rfc3339() {
    assert_eq!(
        encode_timestamp(Timestamp::new(1_704_164_645, 0)),
        Some("2024-01-02T03:04:05+00:00".to_string())
    );
    assert_eq!(
        encode_timestamp(Timestamp::new(1_704_164_645, 250_000_000)),
        Some("2024-01-02T03:04:05.250+00:00".to_string())
    );
    assert_eq!(encode_timestamp(Timestamp::new(0, 0)), Some("1970-01-01T00:00:00+00:00".to_string()));
}

#[test]
fn timestamp_outside_the_calendar_is_not_written() {
    assert_eq!(encode_timestamp(Timestamp::new(i64::MAX, 0)), None);
    assert_eq!(encode_timestamp(Timestamp::new(0, 2_000_000_000)), None);
}

#[test]
fn written_timestamp_reads_back() {
    for t in [
        Timestamp::new(0, 0),
        Timestamp::new(1_704_164_645, 123_456_789),
        Timestamp::new(-86_400, 1),
        Timestamp::new(4_102_444_800, 999_999_999),
    ] {
        let text = encode_timestamp(t).unwrap();
        assert_eq!(decode_timestamp(&text), Ok(t));
    }
}

#[test]
fn key_set_holds_what_was_put_in() {
    let mut set = KeySet::new();
    let a = "github.com/a/b".to_string();
    let b = "github.com/a/c".to_string();
    assert!(!set.contains(&a));
    set.insert(a.clone());
    set.insert(a.clone());
    assert!(set.contains(&a));
    assert!(!set.contains(&b));
    set.insert(b.clone());
    set.remove(&a);
    assert!(!set.contains(&a));
    assert!(set.contains(&b));
    set.remove(&a);
    assert!(!set.contains(&a));
}

#[test]
fn error_map_keeps_the_last_message() {
    let mut map = ErrorMap::new();
    let a = "github.com/a/b".to_string();
    let b = "github.com/a/c".to_string();
    assert_eq!(map.get(&a), None);
    map.insert(a.clone(), "first".to_string());
    map.insert(b.clone(), "other".to_string());
    map.insert(a.clone(), "second".to_string());
    assert_eq!(map.get(&a), Some("second".to_string()));
    assert_eq!(map.get(&b), Some("other".to_string()));
    map.remove(&a);
    assert_eq!(map.get(&a), None);
    assert_eq!(map.get(&b), Some("other".to_string()));
}

#[test]
fn payload_is_written_before_the_timestamp() {
    assert_eq!(next_write(0, true), Some(Record::Releases));
    assert_eq!(next_write(1, true), Some(Record::Html));
    assert_eq!(next_write(2, true), Some(Record::Timestamp));
    assert_eq!(next_write(3, true), None);
    assert_eq!(next_write(usize::MAX, true), None);
}

#[test]
fn failed_write_ends_the_writing() {
    for written in 0..5 {
        assert_eq!(next_write(written, false), None);
    }
}
