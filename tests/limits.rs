use imgd::error::AppError;
use imgd::metrics::{Metrics, Outcome};
use imgd::rate_limit::{
    address_key, admit_request, forwarded_first_hop, identity_key, source_address, SimpleRateLimiter,
};
use imgd::slots::UploadSlots;
use imgd::token::AuthorizedToken;

#[test]
fn sliding_window_admits_up_to_limit() {
    let mut rl = SimpleRateLimiter::new(60_000);
    assert!(rl.check("ip:a".to_string(), 2, 0));
    assert!(rl.check("ip:a".to_string(), 2, 1));
    assert!(!rl.check("ip:a".to_string(), 2, 60_000));
    assert!(rl.check("ip:a".to_string(), 2, 60_001));
    assert!(!rl.check("ip:a".to_string(), 2, 60_001));
}

#[test]
fn distinct_keys_have_independent_windows() {
    let mut rl = SimpleRateLimiter::new(60_000);
    assert!(rl.check("ip:a".to_string(), 1, 0));
    assert!(!rl.check("ip:a".to_string(), 1, 5));
    assert!(rl.check("ip:b".to_string(), 1, 5));
}

#[test]
fn zero_limit_refuses_everything() {
    let mut rl = SimpleRateLimiter::new(60_000);
    assert!(!rl.check("k".to_string(), 0, 0));
}

#[test]
fn keys_are_prefixed() {
    assert_eq!(address_key("10.0.0.1"), "ip:10.0.0.1");
    assert_eq!(identity_key("2bb80d537b1d"), "token:2bb80d537b1d");
}

#[test]
fn identity_limit_is_layered_on_address_limit() {
    let mut rl = SimpleRateLimiter::new(60_000);
    let t = AuthorizedToken {
        name: "n".to_string(),
        token_id: "abc".to_string(),
        rate_limit_per_minute: Some(1),
    };
    assert_eq!(admit_request(&mut rl, "1.1.1.1", Some(&t), 10, 0), Ok(()));
    assert_eq!(
        admit_request(&mut rl, "2.2.2.2", Some(&t), 10, 1),
        Err(AppError::TooManyRequests)
    );
    let free = AuthorizedToken {
        name: "m".to_string(),
        token_id: "def".to_string(),
        rate_limit_per_minute: None,
    };
    assert_eq!(admit_request(&mut rl, "3.3.3.3", Some(&free), 1, 2), Ok(()));
    assert_eq!(
        admit_request(&mut rl, "3.3.3.3", Some(&free), 1, 3),
        Err(AppError::TooManyRequests)
    );
    assert_eq!(AppError::TooManyRequests.status(), 429);
    assert_eq!(AppError::TooManyRequests.code(), "too_many_requests");
}

#[test]
fn excess_concurrent_uploads_are_refused_at_once() {
    let slots = UploadSlots::new(2);
    let a = slots.try_acquire().expect("first");
    let _b = slots.clone().try_acquire().expect("second");
    assert_eq!(slots.try_acquire().err(), Some(AppError::TooManyRequests));
    drop(a);
    assert!(slots.try_acquire().is_ok());
}

#[test]
fn metrics_count_each_outcome_once() {
    let mut m = Metrics::default();
    m.record(Outcome::Succeeded);
    m.record(Outcome::Failed);
    m.record(Outcome::Failed);
    m.record(Outcome::Limited);
    assert_eq!((m.upload_ok, m.upload_fail, m.upload_limited), (1, 2, 1));
    let mut top = Metrics { upload_ok: u64::MAX, upload_fail: 0, upload_limited: 0 };
    top.record(Outcome::Succeeded);
    assert_eq!(top.upload_ok, 0);
}

#[test]
fn forwarded_address_comes_first() {
    assert_eq!(forwarded_first_hop("10.0.0.1, 10.0.0.2"), "10.0.0.1");
    assert_eq!(forwarded_first_hop("10.0.0.9"), "10.0.0.9");
    assert_eq!(forwarded_first_hop(",x"), "");
    assert_eq!(
        source_address(Some("10.0.0.1".to_string()), Some("192.168.1.1".to_string())),
        "10.0.0.1"
    );
    assert_eq!(source_address(None, Some("192.168.1.1".to_string())), "192.168.1.1");
    assert_eq!(source_address(None, None), "127.0.0.1");
}

#[test]
fn slot_pool_of_zero_refuses_at_once() {
    let slots = UploadSlots::new(0);
    assert_eq!(slots.try_acquire().err(), Some(AppError::TooManyRequests));
}

#[test]
fn concurrency_refusal_counts_as_limited() {
    let slots = UploadSlots::new(1);
    let mut m = Metrics::new();
    let held = slots.enter(&mut m).expect("first");
    assert_eq!(slots.enter(&mut m).err(), Some(AppError::TooManyRequests));
    assert_eq!((m.upload_ok, m.upload_fail, m.upload_limited), (0, 0, 1));
    drop(held);
    assert!(slots.enter(&mut m).is_ok());
    assert_eq!(m.upload_limited, 1);
}
