use maileroo::dns::IpAddress;
use maileroo::rate_limit::RateLimiter;

const LOCALHOST: IpAddress = IpAddress::V4(0x7F00_0001);

#[test]
fn test_record_failure_increments() {
    let mut limiter = RateLimiter::new();
    let ip = LOCALHOST;

    assert_eq!(limiter.record_failure(ip, 1_000), 1);
    assert_eq!(limiter.record_failure(ip, 2_000), 2);
    assert_eq!(limiter.record_failure(ip, 3_000), 3);
}

#[test]
fn test_multiple_ips_are_isolated() {
    let mut limiter = RateLimiter::new();
    let ip1 = LOCALHOST;
    let ip2 = IpAddress::V4(0x7F00_0002);

    assert_eq!(limiter.record_failure(ip1, 0), 1);
    assert_eq!(limiter.record_failure(ip2, 0), 1);
    assert_eq!(limiter.record_failure(ip1, 0), 2);
}

#[test]
fn test_cleanup_removes_old_entries() {
    let mut limiter = RateLimiter::new();
    let ip = LOCALHOST;
    // five failures seen 4000 s before "now"
    for _ in 0..5 {
        limiter.record_failure(ip, 0);
    }
    assert_eq!(limiter.failures(ip), 5);

    limiter.cleanup(3_600_000, 4_000_000);

    assert_eq!(limiter.failures(ip), 0);
    assert_eq!(limiter.record_failure(ip, 4_000_000), 1);
}

#[test]
fn cleanup_keeps_recent_entries() {
    let mut limiter = RateLimiter::new();
    let old_ip = IpAddress::V4(1);
    let new_ip = IpAddress::V6(1);
    limiter.record_failure(old_ip, 0);
    limiter.record_failure(new_ip, 3_000_000);
    limiter.cleanup(3_600_000, 3_700_000);
    assert_eq!(limiter.failures(old_ip), 0);
    assert_eq!(limiter.failures(new_ip), 1);
    // an entry exactly max_age old is dropped
    limiter.cleanup(700_000, 3_700_000);
    assert_eq!(limiter.failures(new_ip), 0);
}
