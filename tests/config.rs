use std::time::Duration;

use appinsights::{Builder, Config, DefaultBuilder};

const DEFAULT_ENDPOINT: &str = "https://dc.services.visualstudio.com/v2/track";

#[test]
fn it_creates_config_with_default_values() {
    let config = Config::new("instrumentation key".into());

    assert_eq!(config.ikey(), "instrumentation key");
    assert_eq!(config.endpoint(), "https://dc.services.visualstudio.com/v2/track");
    assert_eq!(config.interval(), Duration::from_secs(2));
}

#[test]
fn it_builds_config_with_custom_parameters() {
    let config = Config::builder()
        .with_ikey("instrumentation key")
        .with_endpoint("https://google.com")
        .with_interval(Duration::from_micros(100))
        .build();

    assert_eq!(config.ikey(), "instrumentation key");
    assert_eq!(config.endpoint(), "https://google.com");
    assert_eq!(config.interval(), Duration::from_micros(100));
}

#[test]
fn new_keeps_key_and_seeds_defaults() {
    let config = Config::new("ik-1".into());
    assert_eq!(config.ikey(), "ik-1");
    assert_eq!(config.endpoint(), DEFAULT_ENDPOINT);
    assert_eq!(config.interval(), Duration::from_secs(2));
    assert_ne!(config.interval(), Duration::from_secs(0));
}

#[test]
fn builder_takes_all_overrides() {
    let config = Config::builder()
        .with_ikey("ik-2")
        .with_endpoint("https://example.com")
        .with_interval(Duration::from_micros(100))
        .build();
    assert_eq!(config.ikey(), "ik-2");
    assert_eq!(config.endpoint(), "https://example.com");
    assert_eq!(config.interval(), Duration::from_micros(100));
}

#[test]
fn override_order_does_not_matter() {
    let a = Config::builder()
        .with_ikey("seed")
        .with_interval(Duration::from_millis(250))
        .with_ikey("key")
        .with_endpoint("https://a.example")
        .build();
    let b = Config::builder()
        .with_ikey("other seed")
        .with_endpoint("https://a.example")
        .with_ikey("key")
        .with_interval(Duration::from_millis(250))
        .build();
    assert_eq!(a, b);
    assert_eq!(a.ikey(), "key");
    assert_eq!(a.endpoint(), "https://a.example");
    assert_eq!(a.interval(), Duration::from_millis(250));
}

#[test]
fn repeated_endpoint_override_last_wins() {
    let builder: Builder = Config::builder()
        .with_ikey("key")
        .with_interval(Duration::from_secs(7))
        .with_endpoint("https://first.example")
        .with_endpoint("https://second.example");
    assert_eq!(builder.endpoint(), "https://second.example");
    assert_eq!(builder.interval(), Duration::from_secs(7));
    let config = builder.build();
    assert_eq!(config.ikey(), "key");
    assert_eq!(config.endpoint(), "https://second.example");
    assert_eq!(config.interval(), Duration::from_secs(7));
}

#[test]
fn same_endpoint_twice_changes_nothing() {
    let once = Config::builder().with_ikey("key").with_endpoint("https://e.example").build();
    let twice = Config::builder()
        .with_ikey("key")
        .with_endpoint("https://e.example")
        .with_endpoint("https://e.example")
        .build();
    assert_eq!(once, twice);
}

#[test]
fn new_equals_builder_without_overrides() {
    let direct = Config::new("same key".into());
    let built = Config::builder().with_ikey("same key").build();
    assert_eq!(direct, built);
    let from_default = DefaultBuilder::default().with_ikey("same key").build();
    assert_eq!(direct, from_default);
}

#[test]
fn configs_that_differ_in_one_field_are_unequal() {
    let base = Config::new("k".into());
    assert_ne!(base, Config::new("k2".into()));
    assert_ne!(base, Config::builder().with_ikey("k").with_endpoint("https://x.example").build());
    assert_ne!(base, Config::builder().with_ikey("k").with_interval(Duration::from_secs(3)).build());
}

#[test]
fn empty_key_and_zero_interval_round_trip() {
    let config = Config::builder()
        .with_ikey("")
        .with_interval(Duration::from_secs(0))
        .build();
    assert_eq!(config.ikey(), "");
    assert_eq!(config.endpoint(), DEFAULT_ENDPOINT);
    assert_eq!(config.interval(), Duration::ZERO);

    let direct = Config::new(String::new());
    assert_eq!(direct.ikey(), "");
}

#[test]
fn builder_peeks_at_staged_defaults() {
    let builder = Config::builder().with_ikey("key");
    assert_eq!(builder.endpoint(), DEFAULT_ENDPOINT);
    assert_eq!(builder.interval(), Duration::from_secs(2));
}
