use json_poller::{
    JsonPoller, JsonPollerBuilder, POLL_INTERVAL_MS, POOL_IDLE_TIMEOUT_SECS,
    POOL_MAX_IDLE_PER_HOST, REQUEST_TIMEOUT_MS, TCP_KEEPALIVE_SECS,
};
use std::time::Duration;

struct Slideshow;

#[test]
fn test_builder_defaults() {
    let poller = JsonPoller::<Slideshow>::builder("https://example.com")
        .build()
        .unwrap();

    assert_eq!(
        Duration::from_millis(poller.poll_interval_ms()),
        Duration::from_millis(POLL_INTERVAL_MS)
    );
    assert_eq!(poller.url(), "https://example.com");
}

#[test]
fn test_builder_custom_config() {
    let poller = JsonPoller::<Slideshow>::builder("https://example.com")
        .poll_interval_ms(1000)
        .request_timeout_ms(2000)
        .build()
        .unwrap();

    assert_eq!(Duration::from_millis(poller.poll_interval_ms()), Duration::from_millis(1000));
}

#[test]
fn default_settings_have_documented_values() {
    assert_eq!(POLL_INTERVAL_MS, 500);
    assert_eq!(POOL_MAX_IDLE_PER_HOST, 1);
    assert_eq!(POOL_IDLE_TIMEOUT_SECS, 90);
    assert_eq!(REQUEST_TIMEOUT_MS, 1000);
    assert_eq!(TCP_KEEPALIVE_SECS, 60);
}

#[test]
fn no_overrides_gives_every_default() {
    let poller = JsonPollerBuilder::<Slideshow>::new("http://localhost:8080/status")
        .build()
        .unwrap();
    assert_eq!(poller.url(), "http://localhost:8080/status");
    assert_eq!(poller.poll_interval_ms(), 500);
    assert_eq!(poller.pool_max_idle_per_host(), 1);
    assert_eq!(poller.pool_idle_timeout_secs(), 90);
    assert_eq!(poller.request_timeout_ms(), 1000);
    assert_eq!(poller.tcp_keepalive_secs(), 60);
}

#[test]
fn overrides_change_only_their_settings() {
    let poller = JsonPoller::<Slideshow>::builder("https://example.com")
        .request_timeout_ms(2000)
        .poll_interval_ms(1000)
        .build()
        .unwrap();
    assert_eq!(poller.url(), "https://example.com");
    assert_eq!(poller.poll_interval_ms(), 1000);
    assert_eq!(poller.request_timeout_ms(), 2000);
    assert_eq!(poller.pool_max_idle_per_host(), 1);
    assert_eq!(poller.pool_idle_timeout_secs(), 90);
    assert_eq!(poller.tcp_keepalive_secs(), 60);
}

#[test]
fn only_request_timeout_overridden() {
    let poller = JsonPoller::<Slideshow>::builder("https://example.com")
        .request_timeout_ms(250)
        .build()
        .unwrap();
    assert_eq!(poller.poll_interval_ms(), 500);
    assert_eq!(poller.request_timeout_ms(), 250);
}

#[test]
fn every_setting_can_be_overridden() {
    let poller = JsonPoller::<Slideshow>::builder("https://example.com/data")
        .poll_interval_ms(0)
        .pool_max_idle_per_host(8)
        .pool_idle_timeout_secs(30)
        .request_timeout_ms(u64::MAX / 4)
        .tcp_keepalive_secs(15)
        .build()
        .unwrap();
    assert_eq!(poller.url(), "https://example.com/data");
    assert_eq!(poller.poll_interval_ms(), 0);
    assert_eq!(poller.pool_max_idle_per_host(), 8);
    assert_eq!(poller.pool_idle_timeout_secs(), 30);
    assert_eq!(poller.request_timeout_ms(), u64::MAX / 4);
    assert_eq!(poller.tcp_keepalive_secs(), 15);
}

#[test]
fn later_override_of_same_setting_wins() {
    let poller = JsonPoller::<Slideshow>::builder("https://example.com")
        .poll_interval_ms(100)
        .poll_interval_ms(700)
        .build()
        .unwrap();
    assert_eq!(poller.poll_interval_ms(), 700);
}

#[test]
fn malformed_url_is_kept_as_given() {
    let poller = JsonPoller::<Slideshow>::builder("not a url")
        .build()
        .unwrap();
    assert_eq!(poller.url(), "not a url");
}
