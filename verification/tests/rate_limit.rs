use lanai_infrastructure::rate_limit::{
    create_limiter, select_backend, window_floor, Admission, InMemoryRateLimiter, LimiterBackend,
    RateLimiterBackend, RedisRateLimiter, StoreCheck, StoreReply, REDIS_URL_ENV,
};
use std::cell::RefCell;

/// A stand-in for the shared store: one ordered set of instants.
fn purge_and_count(set: &RefCell<Vec<i64>>, check: &StoreCheck) -> StoreReply {
    let mut set = set.borrow_mut();
    set.retain(|instant| *instant >= check.window_start);
    StoreReply::Count(set.len() as i64)
}

#[test]
fn three_in_ten_seconds_then_denied_then_allowed_again() {
    let mut limiter = InMemoryRateLimiter::new();
    let start = 1_700_000_000_000i64;
    assert!(limiter.is_allowed_at("client", 3, 10, start));
    assert!(limiter.is_allowed_at("client", 3, 10, start + 1_000));
    assert!(limiter.is_allowed_at("client", 3, 10, start + 2_000));
    assert!(!limiter.is_allowed_at("client", 3, 10, start + 3_000));
    assert!(!limiter.is_allowed_at("client", 3, 10, start + 9_999));
    assert_eq!(limiter.history("client"), vec![start, start + 1_000, start + 2_000]);
    // The oldest event still counts while it is exactly ten seconds old.
    assert!(!limiter.is_allowed_at("client", 3, 10, start + 10_000));
    // One millisecond later it has aged out of the window.
    assert!(limiter.is_allowed_at("client", 3, 10, start + 10_001));
    assert_eq!(
        limiter.history("client"),
        vec![start + 1_000, start + 2_000, start + 10_001]
    );
}

#[test]
fn keys_are_counted_apart() {
    let mut limiter = InMemoryRateLimiter::new();
    assert!(limiter.is_allowed_at("a", 1, 60, 1_000));
    assert!(!limiter.is_allowed_at("a", 1, 60, 1_001));
    assert!(limiter.is_allowed_at("b", 1, 60, 1_002));
    assert_eq!(limiter.history("a"), vec![1_000]);
    assert_eq!(limiter.history("b"), vec![1_002]);
    assert_eq!(limiter.history("c"), Vec::<i64>::new());
}

#[test]
fn limit_of_zero_denies_everything() {
    let mut limiter = InMemoryRateLimiter::new();
    assert!(!limiter.is_allowed_at("k", 0, 10, 5));
    assert_eq!(limiter.history("k"), Vec::<i64>::new());
}

#[test]
fn window_of_zero_counts_only_the_present_instant() {
    let mut limiter = InMemoryRateLimiter::new();
    assert!(limiter.is_allowed_at("k", 1, 0, 5));
    assert!(!limiter.is_allowed_at("k", 1, 0, 5));
    assert!(limiter.is_allowed_at("k", 1, 0, 6));
    assert_eq!(limiter.history("k"), vec![6]);
}

#[test]
fn huge_windows_do_not_overflow() {
    let mut limiter = InMemoryRateLimiter::new();
    assert!(limiter.is_allowed_at("k", 2, u64::MAX, i64::MIN));
    assert!(limiter.is_allowed_at("k", 2, u64::MAX, i64::MAX));
    assert!(!limiter.is_allowed_at("k", 2, u64::MAX, 0));
    assert_eq!(window_floor(0, u64::MAX), i64::MIN);
    assert_eq!(window_floor(i64::MIN, 1), i64::MIN);
    assert_eq!(window_floor(10_000, 3), 7_000);
    assert_eq!(window_floor(-5, 0), -5);
}

#[test]
fn wall_clock_checks_fill_the_window() {
    let mut limiter = InMemoryRateLimiter::new();
    assert!(limiter.is_allowed("wall", 2, 3_600));
    assert!(limiter.is_allowed("wall", 2, 3_600));
    assert!(!limiter.is_allowed("wall", 2, 3_600));
    let history = limiter.history("wall");
    assert_eq!(history.len(), 2);
    // A reading of the wall clock, not a constant: later than the year 2020.
    assert!(history[0] > 1_577_836_800_000);
    assert!(history[1] >= history[0]);
}

#[test]
fn unreachable_store_always_allows() {
    for limit in [0u32, 1, 3, u32::MAX] {
        assert_eq!(
            RedisRateLimiter::decide(StoreReply::Unreachable, limit),
            Admission { allowed: true, record: false }
        );
        assert_eq!(
            RedisRateLimiter::decide(StoreReply::Failed, limit),
            Admission { allowed: true, record: false }
        );
    }
}

#[test]
fn store_count_decides() {
    let allow = Admission { allowed: true, record: true };
    let deny = Admission { allowed: false, record: false };
    assert_eq!(RedisRateLimiter::decide(StoreReply::Count(0), 3), allow);
    assert_eq!(RedisRateLimiter::decide(StoreReply::Count(2), 3), allow);
    assert_eq!(RedisRateLimiter::decide(StoreReply::Count(3), 3), deny);
    assert_eq!(RedisRateLimiter::decide(StoreReply::Count(4), 3), deny);
    assert_eq!(RedisRateLimiter::decide(StoreReply::Count(0), 0), deny);
    assert_eq!(RedisRateLimiter::decide(StoreReply::Count(-1), 0), allow);
    assert_eq!(RedisRateLimiter::decide(StoreReply::Count(i64::MAX), u32::MAX), deny);
}

#[test]
fn store_check_is_planned() {
    let check = RedisRateLimiter::plan_at("api:abc|ip:10.0.0.1", 10, 1_700_000_000_000);
    assert_eq!(check.store_key, "rate_limit:api:abc|ip:10.0.0.1");
    assert_eq!(check.window_start, 1_699_999_990_000);
    assert_eq!(check.now, 1_700_000_000_000);
    assert_eq!(check.expiry_secs, 10);
    let wide = RedisRateLimiter::plan_at("", u64::MAX, 0);
    assert_eq!(wide.store_key, "rate_limit:");
    assert_eq!(wide.window_start, i64::MIN);
    assert_eq!(wide.expiry_secs, i64::MAX);
    let live = RedisRateLimiter::plan("k", 60);
    assert_eq!(live.store_key, "rate_limit:k");
    assert_eq!(live.window_start, live.now - 60_000);
    assert_eq!(RedisRateLimiter::store_key("x"), "rate_limit:x");
}

#[test]
fn backend_is_chosen_once() {
    assert_eq!(REDIS_URL_ENV, "REDIS_URL");
    let address = "redis://127.0.0.1:6379";
    // A store that is configured and was reached is chosen.
    assert!(matches!(create_limiter(Some(address), true), LimiterBackend::Shared(_)));
    // A store that is configured and could not be reached is not.
    assert!(matches!(create_limiter(Some(address), false), LimiterBackend::Local(_)));
    assert!(matches!(create_limiter(None, false), LimiterBackend::Local(_)));
    assert!(matches!(create_limiter(None, true), LimiterBackend::Local(_)));
    assert!(matches!(create_limiter(Some("not a url"), true), LimiterBackend::Local(_)));
    assert!(matches!(create_limiter(Some("not a url"), false), LimiterBackend::Local(_)));
    assert!(RedisRateLimiter::new("redis://127.0.0.1/").is_ok());
    assert!(RedisRateLimiter::new("http://127.0.0.1/").is_err());
    // The fallback still throttles.
    match create_limiter(Some(address), false) {
        LimiterBackend::Local(mut local) => {
            assert!(local.is_allowed_at("k", 1, 60, 0));
            assert!(!local.is_allowed_at("k", 1, 60, 1));
        }
        LimiterBackend::Shared(_) => panic!("the store was not reached"),
    }
    match create_limiter(None, false) {
        LimiterBackend::Local(mut local) => {
            assert!(local.is_allowed_at("k", 1, 1, 0));
        }
        LimiterBackend::Shared(_) => panic!("no store was configured"),
    }
}

#[test]
fn shared_store_three_in_ten_seconds() {
    let limiter = RedisRateLimiter::new("redis://127.0.0.1/").unwrap();
    let set = RefCell::new(Vec::new());
    let check = |now: i64| {
        limiter.is_allowed_at(
            "client",
            3,
            10,
            now,
            |check: &StoreCheck| purge_and_count(&set, check),
            |check: &StoreCheck| set.borrow_mut().push(check.now),
        )
    };
    let start = 1_700_000_000_000i64;
    assert!(check(start));
    assert!(check(start + 1_000));
    assert!(check(start + 2_000));
    assert!(!check(start + 3_000));
    assert!(!check(start + 10_000));
    assert_eq!(*set.borrow(), vec![start, start + 1_000, start + 2_000]);
    assert!(check(start + 10_001));
    assert_eq!(*set.borrow(), vec![start + 1_000, start + 2_000, start + 10_001]);
}

#[test]
fn shared_store_out_of_reach_allows_and_records_nothing() {
    let limiter = RedisRateLimiter::new("redis://127.0.0.1/").unwrap();
    for reply in [StoreReply::Unreachable, StoreReply::Failed] {
        for key in ["", "a", "api:k|ip:10.0.0.1"] {
            for limit in [0u32, 1, 3, u32::MAX] {
                for window in [0u64, 10, u64::MAX] {
                    let recorded = RefCell::new(0);
                    let asked = RefCell::new(Vec::new());
                    let allowed = limiter.is_allowed_at(
                        key,
                        limit,
                        window,
                        5_000,
                        |check: &StoreCheck| {
                            asked.borrow_mut().push(check.store_key.clone());
                            reply
                        },
                        |_: &StoreCheck| *recorded.borrow_mut() += 1,
                    );
                    assert!(allowed);
                    assert_eq!(*recorded.borrow(), 0);
                    assert_eq!(*asked.borrow(), vec![format!("rate_limit:{}", key)]);
                }
            }
        }
    }
    let recorded = RefCell::new(0);
    assert!(limiter.is_allowed(
        "wall",
        0,
        60,
        |_: &StoreCheck| StoreReply::Unreachable,
        |_: &StoreCheck| *recorded.borrow_mut() += 1,
    ));
    assert_eq!(*recorded.borrow(), 0);
}

#[test]
fn shared_store_records_only_what_it_allows() {
    let limiter = RedisRateLimiter::new("redis://127.0.0.1/").unwrap();
    let seen = RefCell::new(Vec::new());
    let allowed = limiter.is_allowed_at(
        "k",
        2,
        60,
        90_000,
        |_: &StoreCheck| StoreReply::Count(1),
        |check: &StoreCheck| seen.borrow_mut().push(check.clone()),
    );
    assert!(allowed);
    assert_eq!(
        *seen.borrow(),
        vec![StoreCheck {
            store_key: "rate_limit:k".to_string(),
            window_start: 30_000,
            now: 90_000,
            expiry_secs: 60,
        }]
    );
    let denied = limiter.is_allowed_at(
        "k",
        2,
        60,
        90_001,
        |_: &StoreCheck| StoreReply::Count(2),
        |check: &StoreCheck| seen.borrow_mut().push(check.clone()),
    );
    assert!(!denied);
    assert_eq!(seen.borrow().len(), 1);
}

#[test]
fn backend_follows_the_probe() {
    assert!(matches!(select_backend(None, true), LimiterBackend::Local(_)));
    let refused = redis::Client::open("http://127.0.0.1/");
    assert!(matches!(select_backend(Some(refused), true), LimiterBackend::Local(_)));
    let opened = redis::Client::open("redis://127.0.0.1/");
    assert!(matches!(select_backend(Some(opened), false), LimiterBackend::Local(_)));
    let opened = redis::Client::open("redis://127.0.0.1/");
    assert!(matches!(select_backend(Some(opened), true), LimiterBackend::Shared(_)));
}
