use imgd::clock::Timestamp;
use imgd::digest::token_fingerprint;
use imgd::token::{TokenEntry, TokenFile, TokenStore, TokenStoreError};

fn entry(name: &str, token: &str, expires_at: Option<&str>, limit: Option<usize>) -> TokenEntry {
    TokenEntry {
        name: name.to_string(),
        token: token.to_string(),
        expires_at: expires_at.map(|s| s.to_string()),
        rate_limit_per_minute: limit,
    }
}

fn at(secs: i64, nanos: u32) -> Timestamp {
    Timestamp { secs, nanos }
}

#[test]
fn fingerprint_is_first_twelve_hex_digits_of_sha256() {
    assert_eq!(token_fingerprint("secret"), "2bb80d537b1d");
    assert_eq!(token_fingerprint("alpha-secret"), "3f8ad42d6dc5");
}

#[test]
fn authorize_resolves_identity_with_limit() {
    let file = TokenFile { tokens: vec![entry("alpha", "alpha-secret", None, Some(5))] };
    let store = TokenStore::from_config(&file, None).expect("store");
    let id = store.authorize_at("alpha-secret", at(0, 0)).expect("identity");
    assert_eq!(id.name, "alpha");
    assert_eq!(id.token_id, "3f8ad42d6dc5");
    assert_eq!(id.rate_limit_per_minute, Some(5));
    assert!(store.authorize("alpha-secret").is_some());
    assert!(store.authorize("alpha").is_none());
}

#[test]
fn expiry_is_compared_at_full_precision() {
    let file = TokenFile {
        tokens: vec![entry("t", "tok", Some("2024-01-01T00:00:00.5Z"), None)],
    };
    let store = TokenStore::from_config(&file, None).expect("store");
    let exp = 1_704_067_200;
    assert!(store.authorize_at("tok", at(exp, 500_000_000)).is_some());
    assert!(store.authorize_at("tok", at(exp, 500_000_001)).is_none());
    assert!(store.authorize_at("tok", at(exp - 1, 999_999_999)).is_some());
}

#[test]
fn expiry_with_offset_is_read_in_utc() {
    let file = TokenFile {
        tokens: vec![entry("t", "tok", Some("2024-01-01T02:00:00+02:00"), None)],
    };
    let store = TokenStore::from_config(&file, None).expect("store");
    assert!(store.authorize_at("tok", at(1_704_067_200, 0)).is_some());
    assert!(store.authorize_at("tok", at(1_704_067_201, 0)).is_none());
}

#[test]
fn invalid_expiry_is_refused() {
    let file = TokenFile {
        tokens: vec![
            entry("a", "x", None, None),
            entry("b", "y", Some("next tuesday"), None),
        ],
    };
    assert_eq!(
        TokenStore::from_config(&file, Some("legacy")).err(),
        Some(TokenStoreError::InvalidExpiry)
    );
}

#[test]
fn empty_configuration_is_refused() {
    let file = TokenFile { tokens: vec![] };
    assert_eq!(TokenStore::from_config(&file, None).err(), Some(TokenStoreError::NoTokens));
}

#[test]
fn legacy_token_alone_is_enough() {
    let file = TokenFile { tokens: vec![] };
    let store = TokenStore::from_config(&file, Some("secret")).expect("store");
    let id = store.authorize_at("secret", at(0, 0)).expect("identity");
    assert_eq!(id.name, "legacy-default");
    assert_eq!(id.token_id, "2bb80d537b1d");
    assert_eq!(id.rate_limit_per_minute, None);
}

#[test]
fn file_record_wins_over_legacy_and_later_record_wins() {
    let file = TokenFile {
        tokens: vec![
            entry("first", "same", None, Some(1)),
            entry("second", "same", None, Some(2)),
        ],
    };
    let store = TokenStore::from_config(&file, Some("same")).expect("store");
    let id = store.authorize_at("same", at(0, 0)).expect("identity");
    assert_eq!(id.name, "second");
    assert_eq!(id.rate_limit_per_minute, Some(2));
}
