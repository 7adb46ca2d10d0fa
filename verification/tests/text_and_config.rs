use cloudflare_intra_dyndns::config::{
    open_store, store_url, Config, ConfigFile, DEFAULT_REDIS_POLL_INTERVAL,
};
use cloudflare_intra_dyndns::failure::{Failure, FailureKind};
use cloudflare_intra_dyndns::text::{join, same_text, starts_with};

fn file(interval: Option<u64>) -> ConfigFile {
    ConfigFile {
        cf_token: "secret".to_string(),
        zone_name: "example.org".to_string(),
        record_name: "home.example.org".to_string(),
        redis_host: "10.0.0.5".to_string(),
        redis_key: "wan_ip".to_string(),
        redis_poll_interval: interval,
    }
}

#[test]
fn starts_with_finds_a_prefix() {
    assert!(starts_with("redis://host", "redis://"));
    assert!(starts_with("redis://", "redis://"));
    assert!(starts_with("anything", ""));
}

#[test]
fn starts_with_refuses_what_is_no_prefix() {
    assert!(!starts_with("rediss://host", "redis://"));
    assert!(!starts_with("redis:/", "redis://"));
    assert!(!starts_with("", "redis://"));
    assert!(!starts_with("host/redis://", "redis://"));
}

#[test]
fn starts_with_counts_characters_not_bytes() {
    assert!(starts_with("żółw-host", "żół"));
    assert!(!starts_with("zolw-host", "żół"));
}

#[test]
fn same_text_compares_every_character() {
    assert!(same_text("example.org", "example.org"));
    assert!(same_text("", ""));
    assert!(!same_text("example.org", "example.com"));
    assert!(!same_text("example.org", "example.or"));
    assert!(!same_text("example.or", "example.org"));
}

#[test]
fn join_puts_the_tail_behind_the_head() {
    assert_eq!(join("Bearer ", "abc"), "Bearer abc");
    assert_eq!(join("", "abc"), "abc");
    assert_eq!(join("abc", ""), "abc");
}

#[test]
fn default_poll_interval_is_five_seconds() {
    assert_eq!(DEFAULT_REDIS_POLL_INTERVAL, 5000);
}

#[test]
fn from_file_fills_in_the_default_interval() {
    let config = Config::from_file(file(None));
    assert_eq!(
        config,
        Config {
            cf_token: "secret".to_string(),
            zone_name: "example.org".to_string(),
            record_name: "home.example.org".to_string(),
            redis_host: "10.0.0.5".to_string(),
            redis_key: "wan_ip".to_string(),
            redis_poll_interval: 5000,
        }
    );
}

#[test]
fn from_file_keeps_a_given_interval() {
    assert_eq!(Config::from_file(file(Some(250))).redis_poll_interval, 250);
    assert_eq!(Config::from_file(file(Some(0))).redis_poll_interval, 0);
    assert_eq!(Config::from_file(file(Some(u64::MAX))).redis_poll_interval, u64::MAX);
}

#[test]
fn config_clone_keeps_every_field() {
    let config = Config::from_file(file(Some(42)));
    assert_eq!(config.clone(), config);
}

#[test]
fn redis_url_adds_the_scheme_to_a_bare_host() {
    assert_eq!(Config::from_file(file(None)).redis_url(), "redis://10.0.0.5");
    assert_eq!(store_url("localhost:6379"), "redis://localhost:6379");
    assert_eq!(store_url(""), "redis://");
}

#[test]
fn redis_url_leaves_a_url_alone() {
    assert_eq!(store_url("redis://10.0.0.5/3"), "redis://10.0.0.5/3");
    assert_eq!(store_url("redis://"), "redis://");
}

#[test]
fn redis_url_knows_one_scheme_only() {
    assert_eq!(store_url("rediss://10.0.0.5"), "redis://rediss://10.0.0.5");
    assert_eq!(store_url("REDIS://10.0.0.5"), "redis://REDIS://10.0.0.5");
}

#[test]
fn redis_url_settles() {
    let once = store_url("cache.internal");
    assert_eq!(store_url(&once), once);
}

#[test]
fn open_store_takes_a_host() {
    assert!(open_store("127.0.0.1").is_ok());
    assert!(open_store("redis://127.0.0.1:6379/1").is_ok());
}

#[test]
fn open_store_reports_a_bad_address_as_a_failure_of_the_settings() {
    let failure = open_store("redis://[not-an-address").err().unwrap();
    assert_eq!(failure.kind, FailureKind::Config);
    assert!(!failure.message.is_empty());
}

#[test]
fn failure_to_string_is_its_message() {
    let failure = Failure::new(FailureKind::Remote, "Failed to list zones".to_string());
    assert_eq!(failure.kind, FailureKind::Remote);
    assert_eq!(failure.to_string(), "Failed to list zones");
    assert_eq!(failure.clone(), failure);
}
