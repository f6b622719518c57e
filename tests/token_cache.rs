use sso_credentials::token_cache::CACHE_FILE_EXTENSION;
use sso_credentials::{accept_cached_token, get_cache_filename, CachedSSOToken, Timestamp};

fn token(access_token: &str, secs: i64, nanos: u32) -> CachedSSOToken {
    CachedSSOToken {
        access_token: access_token.to_string(),
        expires_at: Timestamp { secs, nanos },
        region: "us-east-1".to_string(),
        start_url: "https://example.awsapps.com/start".to_string(),
    }
}

#[test]
fn cache_filename_of_empty_url_is_sha1_of_nothing() {
    assert_eq!(get_cache_filename(""), "da39a3ee5e6b4b0d3255bfef95601890afd80709.json");
}

#[test]
fn cache_filename_is_lowercase_hex_sha1_with_extension() {
    assert_eq!(get_cache_filename("abc"), "a9993e364706816aba3e25717850c26c9cd0d89d.json");
    assert!(get_cache_filename("abc").ends_with(CACHE_FILE_EXTENSION));
    assert_eq!(get_cache_filename("abc").len(), 45);
}

#[test]
fn cache_filename_is_deterministic() {
    let url = "https://my-sso-portal.awsapps.com/start";
    assert_eq!(get_cache_filename(url), get_cache_filename(url));
    assert_ne!(get_cache_filename(url), get_cache_filename("https://other.awsapps.com/start"));
}

#[test]
fn token_expiring_in_the_future_is_accepted() {
    let now = Timestamp { secs: 1_000, nanos: 0 };
    let kept = accept_cached_token(Some(token("tok", 4_600, 0)), now);
    assert_eq!(kept.map(|t| t.access_token), Some("tok".to_string()));
    let kept = accept_cached_token(Some(token("tok", 1_000, 1)), now);
    assert!(kept.is_some());
}

#[test]
fn token_expiring_now_is_rejected() {
    let now = Timestamp { secs: 1_000, nanos: 500 };
    assert!(accept_cached_token(Some(token("tok", 1_000, 500)), now).is_none());
}

#[test]
fn token_expired_in_the_past_is_rejected() {
    let now = Timestamp { secs: 1_000, nanos: 0 };
    assert!(accept_cached_token(Some(token("tok", 999, 999_999_999)), now).is_none());
    assert!(accept_cached_token(Some(token("tok", -5, 0)), now).is_none());
}

#[test]
fn token_with_empty_access_token_is_rejected() {
    let now = Timestamp { secs: 1_000, nanos: 0 };
    assert!(accept_cached_token(Some(token("", 10_000, 0)), now).is_none());
}

#[test]
fn missing_token_stays_missing() {
    assert!(accept_cached_token(None, Timestamp { secs: 0, nanos: 0 }).is_none());
}

#[test]
fn token_expiry_checks() {
    let t = token("tok", 100, 0);
    assert!(t.is_expired_at(&Timestamp { secs: 100, nanos: 0 }));
    assert!(t.is_expired_at(&Timestamp { secs: 101, nanos: 0 }));
    assert!(!t.is_expired_at(&Timestamp { secs: 99, nanos: 999 }));
    assert!(t.is_usable_at(&Timestamp { secs: 99, nanos: 0 }));
    assert!(!token("", 100, 0).is_usable_at(&Timestamp { secs: 99, nanos: 0 }));
}

#[test]
fn timestamps_order_by_seconds_then_nanoseconds() {
    let a = Timestamp { secs: 5, nanos: 1_500_000_000 };
    let b = Timestamp { secs: 6, nanos: 0 };
    assert!(a.is_before(&b));
    assert!(!b.is_before(&a));
    assert!(!a.is_before(&a));
    assert_eq!(Timestamp::from_epoch_seconds(42), Timestamp { secs: 42, nanos: 0 });
}
