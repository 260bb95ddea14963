use public_trading::clock::Timestamp;
use public_trading::creds::{Creds, CredsData, TOKEN_REFRESH, TOKEN_TTL};

fn at(secs: i64) -> Timestamp {
    Timestamp::new(secs, 0)
}

#[test]
fn empty_store_offers_nothing() {
    let creds = Creds::new(None);
    assert_eq!(creds.access_token_at(at(0)), None);
    assert_eq!(creds.access_token_at(at(i64::MAX)), None);
    assert_eq!(creds.access_token(), None);
    assert!(creds.data().is_none());
}

#[test]
fn token_is_offered_strictly_before_expiry() {
    let expiry = Timestamp::new(1_000, 500);
    let creds = Creds::new(Some(CredsData { token: "tok".to_string(), token_ttl: expiry }));
    assert_eq!(creds.access_token_at(Timestamp::new(999, 999_999_999)), Some("tok"));
    assert_eq!(creds.access_token_at(Timestamp::new(1_000, 499)), Some("tok"));
    assert_eq!(creds.access_token_at(Timestamp::new(1_000, 500)), None);
    assert_eq!(creds.access_token_at(Timestamp::new(1_000, 501)), None);
    assert_eq!(creds.access_token_at(Timestamp::new(1_001, 0)), None);
    assert_eq!(creds.access_token_at(Timestamp::new(i64::MIN, 0)), Some("tok"));
}

#[test]
fn expired_token_stays_in_the_store() {
    let expiry = at(10);
    let creds = Creds::new(Some(CredsData { token: "old".to_string(), token_ttl: expiry }));
    assert_eq!(creds.access_token_at(at(11)), None);
    assert_eq!(creds.data(), Some(&CredsData { token: "old".to_string(), token_ttl: expiry }));
    assert_eq!(creds.access_token_at(at(9)), Some("old"));
}

#[test]
fn refresh_sets_expiry_one_minute_short_of_the_ttl() {
    let mut creds = Creds::new(None);
    let now = Timestamp::new(1_700_000_000, 123);
    creds.refresh_at("tok", now);
    let data = creds.data().unwrap();
    assert_eq!(data.token, "tok");
    assert_eq!(data.token_ttl, Timestamp::new(1_700_000_000 + 59 * 60, 123));
    assert_ne!(data.token_ttl, Timestamp::new(1_700_000_000 + 60 * 60, 123));
    assert_eq!(TOKEN_TTL, 60);
    assert_eq!(TOKEN_REFRESH, 59);
    assert_eq!(creds.ttl(), 60);
}

#[test]
fn second_refresh_supersedes_the_first() {
    let mut creds = Creds::new(None);
    creds.refresh_at("t1", at(5_000));
    creds.refresh_at("t2", at(100));
    assert_eq!(creds.access_token_at(at(100)), Some("t2"));
    assert_eq!(creds.data().unwrap().token, "t2");
    assert_eq!(creds.data().unwrap().token_ttl, at(100 + 3_540));
    // the first token's later expiry does not outlive the overwrite
    assert_eq!(creds.access_token_at(at(100 + 3_540)), None);
    assert_eq!(creds.access_token_at(at(5_000)), None);
}

#[test]
fn restarted_store_offers_the_saved_token() {
    let mut creds = Creds::new(None);
    creds.refresh_at("t", at(1_000));
    let saved = creds.data().cloned();
    let restarted = Creds::new(saved);
    assert_eq!(restarted.access_token_at(at(1_000 + 3_539)), Some("t"));
    assert_eq!(restarted.access_token_at(at(1_000 + 3_540)), None);
}

#[test]
fn token_lifecycle_from_empty_to_expired() {
    let mut creds = Creds::new(None);
    let now = at(1_000_000);
    assert_eq!(creds.access_token_at(now), None);
    assert_eq!(creds.ttl(), 60);
    creds.refresh_at("tok-abc", now);
    assert_eq!(creds.data().unwrap().token_ttl, at(1_000_000 + 59 * 60));
    assert_eq!(creds.access_token_at(now), Some("tok-abc"));
    assert_eq!(creds.access_token_at(at(1_000_000 + 58 * 60)), Some("tok-abc"));
    assert_eq!(creds.access_token_at(Timestamp::new(1_000_000 + 59 * 60 - 1, 999_999_999)), Some("tok-abc"));
    assert_eq!(creds.access_token_at(at(1_000_000 + 59 * 60)), None);
    assert_eq!(creds.access_token_at(at(1_000_000 + 60 * 60)), None);
}

#[test]
fn refresh_by_the_clock_lasts_fifty_nine_minutes() {
    let before = chrono::Utc::now().timestamp();
    let mut creds = Creds::new(None);
    creds.refresh("live");
    let after = chrono::Utc::now().timestamp();
    assert_eq!(creds.access_token(), Some("live"));
    let expiry = creds.data().unwrap().token_ttl;
    assert!(before + 3_540 <= expiry.secs);
    assert!(expiry.secs <= after + 3_540);
    assert!(expiry.nanos < 1_000_000_000);
}

#[test]
fn clock_reads_the_present() {
    let past = Creds::new(Some(CredsData { token: "p".to_string(), token_ttl: at(0) }));
    assert_eq!(past.access_token(), None);
    let ahead = chrono::Utc::now().timestamp() + 600;
    let future = Creds::new(Some(CredsData { token: "f".to_string(), token_ttl: at(ahead) }));
    assert_eq!(future.access_token(), Some("f"));
}

#[test]
fn timestamps_order_by_seconds_then_nanoseconds() {
    assert!(Timestamp::new(1, 0).before(&Timestamp::new(2, 0)));
    assert!(Timestamp::new(1, 5).before(&Timestamp::new(1, 6)));
    assert!(!Timestamp::new(1, 5).before(&Timestamp::new(1, 5)));
    assert!(!Timestamp::new(2, 0).before(&Timestamp::new(1, 999_999_999)));
    assert!(Timestamp::new(-1, 999_999_999).before(&Timestamp::new(0, 0)));
}

#[test]
fn advance_adds_whole_minutes_or_gives_up() {
    assert_eq!(Timestamp::new(10, 7).advance(59), Some(Timestamp::new(3_550, 7)));
    assert_eq!(Timestamp::new(10, 7).advance(-1), Some(Timestamp::new(-50, 7)));
    assert_eq!(Timestamp::new(10, 7).advance(0), Some(Timestamp::new(10, 7)));
    assert_eq!(Timestamp::new(i64::MAX, 0).advance(1), None);
    assert_eq!(Timestamp::new(i64::MAX - 60, 0).advance(1), Some(Timestamp::new(i64::MAX, 0)));
    assert_eq!(Timestamp::new(i64::MIN, 0).advance(-1), None);
    assert_eq!(Timestamp::new(0, 0).advance(i64::MAX), None);
    assert_eq!(Timestamp::new(0, 0).advance(i64::MIN), None);
}

#[test]
fn plus_adds_whole_minutes() {
    assert_eq!(Timestamp::new(0, 1).plus(1), Timestamp::new(60, 1));
    assert_eq!(Timestamp::new(100, 0).plus(-2), Timestamp::new(-20, 0));
    assert_eq!(Timestamp::new(i64::MAX - 3_540, 9).plus(59), Timestamp::new(i64::MAX, 9));
}
