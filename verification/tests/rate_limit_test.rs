//! Rate limiting with a token bucket per client address.

use rproxy::config::RateLimitConfig;
use rproxy::middleware::rate_limit::RateLimitMiddleware;

fn create_rate_limiter(rps: u32, burst: u32) -> RateLimitMiddleware {
    RateLimitMiddleware::new(&RateLimitConfig { enabled: true, requests_per_second: rps, burst_size: burst })
}

#[test]
fn test_rate_limiter_allows_within_limit() {
    let mut limiter = create_rate_limiter(10, 10);
    let ip = "192.168.1.1";

    for i in 0..10 {
        assert!(limiter.check(ip), "Request {} should be allowed", i + 1);
    }
}

#[test]
fn test_rate_limiter_blocks_over_limit() {
    let mut limiter = create_rate_limiter(10, 10);
    let ip = "192.168.1.1";

    for _ in 0..10 {
        let _ = limiter.check(ip);
    }

    assert!(!limiter.check(ip));
}

#[test]
fn test_rate_limiter_different_ips_independent() {
    let mut limiter = create_rate_limiter(5, 5);
    let ip1 = "192.168.1.1";
    let ip2 = "192.168.1.2";

    for _ in 0..5 {
        let _ = limiter.check(ip1);
    }

    assert!(!limiter.check(ip1));

    assert!(limiter.check(ip2));
}

#[test]
fn test_rate_limiter_ipv6() {
    let mut limiter = create_rate_limiter(10, 10);
    let ip = "2001:db8::1";

    assert!(limiter.check(ip));
}

#[test]
fn test_rate_limiter_localhost() {
    let mut limiter = create_rate_limiter(10, 10);
    let ip = "127.0.0.1";

    assert!(limiter.check(ip));
}

#[test]
fn each_client_has_its_own_burst() {
    let mut limiter = create_rate_limiter(5, 5);
    for ip in ["10.0.0.1", "10.0.0.2", "::1"] {
        for i in 0..5 {
            assert!(limiter.check(ip), "request {} from {} should be allowed", i + 1, ip);
        }
        assert!(!limiter.check(ip));
    }
}

#[test]
fn rate_limiter_various_configs() {
    for (rps, burst) in [(1, 1), (10, 10), (100, 200), (1000, 2000)] {
        let mut limiter = create_rate_limiter(rps, burst);
        for i in 0..burst {
            assert!(limiter.check("10.0.0.1"), "Request {} of {} burst should be allowed", i + 1, burst);
        }
        assert!(!limiter.check("10.0.0.1"), "Request {} should be blocked (over burst)", burst + 1);
    }
}

#[test]
fn test_rate_limiter_burst_larger_than_rps() {
    let mut limiter = create_rate_limiter(10, 50);
    let ip = "192.168.1.1";

    for i in 0..50 {
        assert!(limiter.check(ip), "Request {} should be allowed", i + 1);
    }

    assert!(!limiter.check(ip));
}

#[test]
fn test_multiple_ips_high_load() {
    let mut limiter = create_rate_limiter(10, 10);

    for i in 0..100u8 {
        let ip = format!("192.168.1.{}", i);
        assert!(limiter.check(&ip), "First request from IP {} should be allowed", i);
    }
}

#[test]
fn disabled_limiter_lets_everything_through() {
    let mut limiter = RateLimitMiddleware::new(&RateLimitConfig { enabled: false, requests_per_second: 0, burst_size: 0 });
    for _ in 0..1000 {
        assert!(limiter.check("10.0.0.1"));
    }
}

#[test]
fn test_rate_limiter_refills_over_time() {
    let mut limiter = create_rate_limiter(100, 1);
    let ip = "192.168.1.1";

    assert!(limiter.check(ip));

    assert!(!limiter.check(ip));

    let start = std::time::Instant::now();
    while start.elapsed() < std::time::Duration::from_millis(15) {}

    assert!(limiter.check(ip));
}

#[test]
fn test_quota_per_second_calculation() {
    let quota = rproxy::middleware::rate_limit::quota_of(100, 100);

    let period = quota.replenish_interval();
    assert_eq!(period, std::time::Duration::from_millis(10));
}

#[test]
fn test_quota_with_burst() {
    let quota = rproxy::middleware::rate_limit::quota_of(10, 20);

    assert_eq!(quota.burst_size().get(), 20);
}

#[test]
fn a_new_address_always_passes_first() {
    let mut limiter = create_rate_limiter(1, 1);
    assert!(limiter.check("203.0.113.7"));
    assert!(!limiter.check("203.0.113.7"));
    assert!(limiter.check("203.0.113.8"));
}
