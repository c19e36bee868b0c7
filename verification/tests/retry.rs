use catalog_client::retry::{DEFAULT_MAX_DELAY_MS, DEFAULT_MAX_RETRIES, DEFAULT_MIN_DELAY_MS};
use catalog_client::{ClientOptions, Jitter, RetryConfig};
use reqwest_retry::policies::ExponentialBackoff;
use std::time::Duration;

#[test]
fn default_policy_gives_up_after_three_retries() {
    assert_eq!(DEFAULT_MAX_RETRIES, 3);
    let policy = ClientOptions::new().retry_policy();
    assert_eq!(policy, RetryConfig::default_policy());
    assert_eq!(policy.max_retries(), 3);
    assert_eq!(policy.min_delay_ms(), 1_000);
    assert_eq!(policy.max_delay_ms(), 1_800_000);
    assert_eq!(policy.jitter(), Jitter::Full);
}

#[test]
fn default_bounds_are_one_second_and_half_an_hour() {
    assert_eq!(DEFAULT_MIN_DELAY_MS, 1_000);
    assert_eq!(DEFAULT_MAX_DELAY_MS, 30 * 60 * 1_000);
}

#[test]
fn new_keeps_what_it_is_given() {
    let cfg = RetryConfig::new(50, 2_000, 5, Jitter::Bounded).unwrap();
    assert_eq!(cfg.min_delay_ms(), 50);
    assert_eq!(cfg.max_delay_ms(), 2_000);
    assert_eq!(cfg.max_retries(), 5);
    assert_eq!(cfg.jitter(), Jitter::Bounded);
}

#[test]
fn new_accepts_equal_bounds() {
    let cfg = RetryConfig::new(700, 700, 0, Jitter::Off).unwrap();
    assert_eq!(cfg.min_delay_ms(), 700);
    assert_eq!(cfg.max_delay_ms(), 700);
    assert_eq!(cfg.max_retries(), 0);
}

#[test]
fn new_refuses_inverted_bounds() {
    assert_eq!(RetryConfig::new(701, 700, 3, Jitter::Full), None);
    assert_eq!(RetryConfig::new(u32::MAX, 0, 3, Jitter::Full), None);
}

#[test]
fn new_accepts_the_widest_bounds() {
    let cfg = RetryConfig::new(0, u32::MAX, u32::MAX, Jitter::Off).unwrap();
    assert_eq!(cfg.max_delay_ms(), u32::MAX);
    assert_eq!(cfg.max_retries(), u32::MAX);
}

#[test]
fn with_max_retries_keeps_default_bounds() {
    let cfg = RetryConfig::with_max_retries(9);
    assert_eq!(cfg.max_retries(), 9);
    assert_eq!(cfg.min_delay_ms(), DEFAULT_MIN_DELAY_MS);
    assert_eq!(cfg.max_delay_ms(), DEFAULT_MAX_DELAY_MS);
    assert_eq!(cfg.jitter(), Jitter::Full);
    assert_eq!(RetryConfig::with_max_retries(3), RetryConfig::default_policy());
}

#[test]
fn configured_policy_replaces_default() {
    let cfg = RetryConfig::new(10, 20, 7, Jitter::Off).unwrap();
    let options = ClientOptions::new().with_retry_config(cfg);
    assert_eq!(options.retry_policy(), cfg);
    assert_eq!(options.retry_policy().max_retries(), 7);
}

#[test]
fn second_retry_config_replaces_first() {
    let first = RetryConfig::with_max_retries(1);
    let second = RetryConfig::with_max_retries(2);
    let options = ClientOptions::new()
        .with_retry_config(first)
        .with_http1_only()
        .with_retry_config(second);
    assert_eq!(options.retry_policy(), second);
}

#[test]
fn retry_config_leaves_transport_alone() {
    let options = ClientOptions::new().with_retry_config(RetryConfig::with_max_retries(0));
    assert_eq!(options.transport_settings(), ClientOptions::new().transport_settings());
}

#[test]
fn default_bounds_are_those_of_the_backoff_builder() {
    let policy = ExponentialBackoff::builder().build_with_max_retries(3);
    assert_eq!(policy.min_retry_interval, Duration::from_millis(DEFAULT_MIN_DELAY_MS.into()));
    assert_eq!(policy.max_retry_interval, Duration::from_millis(DEFAULT_MAX_DELAY_MS.into()));
    assert_eq!(policy.jitter, reqwest_retry::Jitter::Full);
    assert_eq!(policy.max_n_retries, Some(DEFAULT_MAX_RETRIES));
    assert_eq!(RetryConfig::default_policy().backoff(), policy);
    assert_eq!(ClientOptions::new().retry_policy().backoff(), policy);
}

#[test]
fn backoff_holds_what_the_configuration_holds() {
    let policy = RetryConfig::new(50, 2_000, 5, Jitter::Bounded).unwrap().backoff();
    assert_eq!(policy.min_retry_interval, Duration::from_millis(50));
    assert_eq!(policy.max_retry_interval, Duration::from_millis(2_000));
    assert_eq!(policy.max_n_retries, Some(5));
    assert_eq!(policy.jitter, reqwest_retry::Jitter::Bounded);
    assert_eq!(policy.base, 2);
}

#[test]
fn backoff_takes_each_jitter() {
    let off = RetryConfig::new(1, 2, 0, Jitter::Off).unwrap().backoff();
    let full = RetryConfig::new(1, 2, 0, Jitter::Full).unwrap().backoff();
    let bounded = RetryConfig::new(1, 2, 0, Jitter::Bounded).unwrap().backoff();
    assert_eq!(off.jitter, reqwest_retry::Jitter::None);
    assert_eq!(full.jitter, reqwest_retry::Jitter::Full);
    assert_eq!(bounded.jitter, reqwest_retry::Jitter::Bounded);
}

#[test]
fn backoff_takes_the_widest_bounds() {
    let policy = RetryConfig::new(0, u32::MAX, u32::MAX, Jitter::Off).unwrap().backoff();
    assert_eq!(policy.min_retry_interval, Duration::ZERO);
    assert_eq!(policy.max_retry_interval, Duration::from_millis(4_294_967_295));
    assert_eq!(policy.max_n_retries, Some(u32::MAX));
}
