//! The configuration model: defaults, startup validation, derived
//! values and the logging-level computation.

use krill::config::{
    AuthType, CA_REFRESH_SECONDS_MAX, CA_REFRESH_SECONDS_MIN, Config, ConfigDefaults, ConfigError,
    HttpsMode, LogLevel, LogType, RepositoryRetentionConfig,
};
use krill::decimal::decimal_string;
use krill::token::Token;

fn base_config() -> Config {
    Config::test(&"./test-data".to_string(), false, false, false)
}

#[test]
fn defaults_match_documented_values() {
    assert_eq!(ConfigDefaults::ip(), "127.0.0.1");
    assert_eq!(ConfigDefaults::port(), 3000);
    assert_eq!(ConfigDefaults::https_mode(), HttpsMode::Generate);
    assert_eq!(ConfigDefaults::data_dir(), "./data");
    assert!(!ConfigDefaults::always_recover_data());
    assert_eq!(ConfigDefaults::log_level(), LogLevel::Info);
    assert_eq!(ConfigDefaults::log_type(), LogType::File);
    assert_eq!(ConfigDefaults::log_file(), "./krill.log");
    assert_eq!(ConfigDefaults::syslog_facility(), "daemon");
    assert_eq!(ConfigDefaults::auth_type(), AuthType::AdminToken);
    assert!(ConfigDefaults::auth_policies().is_empty());
    assert!(ConfigDefaults::auth_private_attributes().is_empty());
    assert_eq!(ConfigDefaults::ca_refresh_seconds(), 600);
    assert_eq!(ConfigDefaults::ca_refresh_parents_batch_size(), 25);
    assert_eq!(ConfigDefaults::post_limit_api(), 256 * 1024);
    assert_eq!(ConfigDefaults::post_limit_rfc8181(), 32 * 1024 * 1024);
    assert_eq!(ConfigDefaults::post_limit_rfc6492(), 1024 * 1024);
    assert!(ConfigDefaults::rfc8181_log_dir().is_none());
    assert!(ConfigDefaults::rfc6492_log_dir().is_none());
    assert!(ConfigDefaults::bgp_risdumps_enabled());
    assert_eq!(
        ConfigDefaults::bgp_risdumps_v4_uri(),
        "http://www.ris.ripe.net/dumps/riswhoisdump.IPv4.gz"
    );
    assert_eq!(
        ConfigDefaults::bgp_risdumps_v6_uri(),
        "http://www.ris.ripe.net/dumps/riswhoisdump.IPv6.gz"
    );
    assert_eq!(ConfigDefaults::roa_aggregate_threshold(), 100);
    assert_eq!(ConfigDefaults::roa_deaggregate_threshold(), 90);
    assert_eq!(ConfigDefaults::timing_publish_next_hours(), 24);
    assert_eq!(ConfigDefaults::timing_publish_next_jitter_hours(), 4);
    assert_eq!(ConfigDefaults::timing_publish_hours_before_next(), 8);
    assert_eq!(ConfigDefaults::timing_child_certificate_valid_weeks(), 52);
    assert_eq!(ConfigDefaults::timing_child_certificate_reissue_weeks_before(), 4);
    assert_eq!(ConfigDefaults::timing_roa_valid_weeks(), 52);
    assert_eq!(ConfigDefaults::timing_roa_reissue_weeks_before(), 4);
    assert_eq!(ConfigDefaults::timing_aspa_valid_weeks(), 52);
    assert_eq!(ConfigDefaults::timing_aspa_reissue_weeks_before(), 4);
}

#[test]
fn retention_defaults_match_documented_values() {
    assert_eq!(
        RepositoryRetentionConfig::dflt_retention_old_notification_files_seconds(),
        600
    );
    assert_eq!(RepositoryRetentionConfig::dflt_retention_delta_files_min_nr(), 5);
    assert_eq!(RepositoryRetentionConfig::dflt_retention_delta_files_min_seconds(), 1200);
    assert_eq!(RepositoryRetentionConfig::dflt_retention_delta_files_max_nr(), 50);
    assert_eq!(RepositoryRetentionConfig::dflt_retention_delta_files_max_seconds(), 7200);
    assert!(!RepositoryRetentionConfig::dflt_retention_archive());
}

#[test]
fn test_config_uses_local_defaults_and_secret_token() {
    let config = base_config();
    assert_eq!(config.socket_addr(), "127.0.0.1:3000");
    assert_eq!(config.admin_token, Token::new("secret".to_string()));
    assert_eq!(config.auth_type, AuthType::AdminToken);
    assert!(config.testbed().is_none());
    assert!(config.verify().is_ok());
}

#[test]
fn test_config_can_enable_testbed() {
    let config = Config::test(&"./test-data".to_string(), true, false, false);
    let testbed = config.testbed().unwrap();
    assert_eq!(testbed.ta_aia().as_str(), "rsync://localhost/ta/ta.cer");
    assert_eq!(testbed.ta_uri().as_str(), "https://localhost/ta/ta.cer");
    let uris = testbed.publication_server_uris();
    assert_eq!(uris.rrdp_base_uri().as_str(), "https://localhost/rrdp/");
    assert_eq!(uris.rsync_jail().as_str(), "rsync://localhost/repo/");
}

#[test]
fn pubd_test_config_uses_its_own_port() {
    let config = Config::pubd_test(&"./test-data".to_string());
    assert_eq!(config.port, 3001);
    assert_eq!(config.socket_addr(), "127.0.0.1:3001");
}

#[test]
fn suspend_flag_sets_threshold_seconds() {
    let config = Config::test(&"./test-data".to_string(), false, false, true);
    assert_eq!(config.suspend_child_after_inactive_seconds(), Some(3));
    let config = base_config();
    assert_eq!(config.suspend_child_after_inactive_seconds(), None);
}

#[test]
fn suspend_hours_convert_to_seconds() {
    let mut config = base_config();
    config.suspend_child_after_inactive_hours = Some(48);
    assert_eq!(config.suspend_child_after_inactive_seconds(), Some(48 * 3600));
}

#[test]
fn service_uri_defaults_to_localhost() {
    let config = base_config();
    assert_eq!(config.service_uri(), "https://localhost:3000/");
}

#[test]
fn service_uri_uses_explicit_value_and_ip() {
    let mut config = base_config();
    config.service_uri = Some("https://rpki.example.com:3000/".to_string());
    assert_eq!(config.service_uri(), "https://rpki.example.com:3000/");

    let mut config = base_config();
    config.ip = "192.0.2.7".to_string();
    config.port = 8443;
    assert_eq!(config.service_uri(), "https://192.0.2.7:8443/");
}

#[test]
fn rfc8181_uri_extends_service_uri() {
    let config = base_config();
    assert_eq!(
        config.rfc8181_uri(&"publisher-one".to_string()),
        "https://localhost:3000/rfc8181/publisher-one/"
    );
}

#[test]
fn tls_files_and_pid_file_live_under_data_dir() {
    let config = base_config();
    assert_eq!(config.https_cert_file(), "./test-data/ssl/cert.pem");
    assert_eq!(config.https_key_file(), "./test-data/ssl/key.pem");
    assert_eq!(config.pid_file(), "./test-data/krill.pid");

    let mut config = base_config();
    config.pid_file = Some("/run/krill.pid".to_string());
    assert_eq!(config.pid_file(), "/run/krill.pid");
}

#[test]
fn republish_hours_is_the_remaining_interval() {
    let config = base_config();
    assert_eq!(config.republish_hours(), 24 - 8);

    let mut config = base_config();
    config.issuance_timing.timing_publish_hours_before_next = 30;
    assert_eq!(config.republish_hours(), 0);
}

#[test]
fn verify_rejects_low_ports() {
    let mut config = base_config();
    config.port = 1023;
    assert!(matches!(config.verify(), Err(ConfigError::Other(_))));
    config.port = 1024;
    assert!(config.verify().is_ok());
}

#[test]
fn verify_holds_service_uri_to_its_shape() {
    let mut config = base_config();
    config.service_uri = Some("https://rpki.example.com:3000/".to_string());
    assert!(config.verify().is_ok());

    config.service_uri = Some("https://rpki.example.com:3000".to_string());
    assert!(config.verify().is_err());

    config.service_uri = Some("https://rpki.example.com/path/".to_string());
    assert!(config.verify().is_err());
}

#[test]
fn verify_holds_issuance_timing_to_its_bounds() {
    let mut config = base_config();
    config.issuance_timing.timing_publish_next_hours = 1;
    assert!(config.verify().is_err());

    let mut config = base_config();
    config.issuance_timing.timing_publish_next_jitter_hours = 13;
    assert!(config.verify().is_err());
    config.issuance_timing.timing_publish_next_jitter_hours = 12;
    assert!(config.verify().is_ok());

    let mut config = base_config();
    config.issuance_timing.timing_publish_hours_before_next = 24;
    assert!(config.verify().is_err());

    let mut config = base_config();
    config.issuance_timing.timing_child_certificate_reissue_weeks_before = 52;
    assert!(config.verify().is_err());

    let mut config = base_config();
    config.issuance_timing.timing_roa_valid_weeks = 1;
    assert!(config.verify().is_err());
}

#[test]
fn verify_holds_suspension_threshold_to_its_minimum() {
    let mut config = base_config();
    config.suspend_child_after_inactive_hours = Some(47);
    assert!(config.verify().is_err());
    config.suspend_child_after_inactive_hours = Some(48);
    assert!(config.verify().is_ok());
}

#[test]
fn refresh_interval_is_clamped_into_range() {
    assert_eq!(Config::clamped_ca_refresh_seconds(0), CA_REFRESH_SECONDS_MIN);
    assert_eq!(Config::clamped_ca_refresh_seconds(3600), 3600);
    assert_eq!(Config::clamped_ca_refresh_seconds(4000), 4000);
    assert_eq!(
        Config::clamped_ca_refresh_seconds(u32::MAX),
        CA_REFRESH_SECONDS_MAX
    );
}

#[test]
fn level_and_type_names_parse_exactly() {
    assert_eq!(LogLevel::parse(&"off".to_string()), Some(LogLevel::Off));
    assert_eq!(LogLevel::parse(&"error".to_string()), Some(LogLevel::Error));
    assert_eq!(LogLevel::parse(&"warn".to_string()), Some(LogLevel::Warn));
    assert_eq!(LogLevel::parse(&"info".to_string()), Some(LogLevel::Info));
    assert_eq!(LogLevel::parse(&"debug".to_string()), Some(LogLevel::Debug));
    assert_eq!(LogLevel::parse(&"trace".to_string()), Some(LogLevel::Trace));
    assert_eq!(LogLevel::parse(&"verbose".to_string()), None);

    assert_eq!(LogType::parse(&"stderr".to_string()), Some(LogType::Stderr));
    assert_eq!(LogType::parse(&"file".to_string()), Some(LogType::File));
    assert_eq!(LogType::parse(&"syslog".to_string()), Some(LogType::Syslog));
    assert_eq!(LogType::parse(&"journal".to_string()), None);

    assert_eq!(HttpsMode::parse(&"existing".to_string()), Some(HttpsMode::Existing));
    assert_eq!(HttpsMode::parse(&"generate".to_string()), Some(HttpsMode::Generate));
    assert_eq!(HttpsMode::parse(&"disabled".to_string()), None);

    assert_eq!(AuthType::parse(&"admin-token".to_string()), Some(AuthType::AdminToken));
    assert_eq!(AuthType::parse(&"config-file".to_string()), Some(AuthType::ConfigFile));
    assert_eq!(
        AuthType::parse(&"openid-connect".to_string()),
        Some(AuthType::OpenIDConnect)
    );
    assert_eq!(AuthType::parse(&"ldap".to_string()), None);
}

// The logging levels mirror the logger the daemon builds: frameworks
// capped at warn, this daemon's own framework components at debug, the
// policy engine at info unless its environment variable is set.
#[test]
fn logging_levels_cap_noisy_components() {
    let mut config = base_config();

    config.log_level = LogLevel::Warn;
    let levels = config.logging_levels(false);
    assert_eq!(levels.base, LogLevel::Warn);
    assert_eq!(levels.framework, LogLevel::Warn);
    assert_eq!(levels.krill_framework, LogLevel::Warn);
    assert_eq!(levels.oso, LogLevel::Warn);
    assert!(!levels.show_target);

    config.log_level = LogLevel::Trace;
    let levels = config.logging_levels(false);
    assert_eq!(levels.base, LogLevel::Trace);
    assert_eq!(levels.framework, LogLevel::Warn);
    assert_eq!(levels.krill_framework, LogLevel::Debug);
    assert_eq!(levels.oso, LogLevel::Info);
    assert!(levels.show_target);

    let levels = config.logging_levels(true);
    assert_eq!(levels.oso, LogLevel::Trace);

    config.log_level = LogLevel::Debug;
    let levels = config.logging_levels(true);
    assert_eq!(levels.oso, LogLevel::Debug);
    assert!(levels.show_target);

    config.log_level = LogLevel::Info;
    let levels = config.logging_levels(false);
    assert_eq!(levels.framework, LogLevel::Warn);
    assert_eq!(levels.krill_framework, LogLevel::Info);
    assert_eq!(levels.oso, LogLevel::Info);
    assert!(!levels.show_target);
}

#[test]
fn decimal_rendering_is_exact() {
    assert_eq!(decimal_string(0), "0");
    assert_eq!(decimal_string(7), "7");
    assert_eq!(decimal_string(3000), "3000");
    assert_eq!(decimal_string(1234567890), "1234567890");
    assert_eq!(decimal_string(u64::MAX), "18446744073709551615");
}

// The next publication time is now plus the regular interval plus a
// jitter share drawn below the configured bound; drawn anew each call.
#[test]
fn publish_next_stays_within_the_jitter_window() {
    let mut config = base_config();
    config.issuance_timing.timing_publish_next_jitter_hours = 1;
    let timing = &config.issuance_timing;
    let regular_seconds = 24 * 3600;
    for _ in 0..100 {
        let before = chrono::Utc::now().timestamp();
        let at = timing.publish_next();
        let after = chrono::Utc::now().timestamp();
        assert!(at >= before + regular_seconds);
        assert!(at <= after + regular_seconds + 60 * 59);
    }
}

#[test]
fn publish_next_from_is_exact() {
    let config = base_config();
    let timing = &config.issuance_timing;
    assert_eq!(
        timing.publish_next_from(1_700_000_000, 0),
        1_700_000_000 + 24 * 3600
    );
    assert_eq!(
        timing.publish_next_from(1_700_000_000, 239),
        1_700_000_000 + 24 * 3600 + 239 * 60
    );
}

#[test]
fn config_error_other_keeps_its_message() {
    match ConfigError::other("something amiss") {
        ConfigError::Other(msg) => assert_eq!(msg, "something amiss"),
        other => panic!("expected the plain variant, got {:?}", other),
    }
}

#[test]
fn set_data_dir_replaces_only_the_data_dir() {
    let mut config = base_config();
    config.set_data_dir("/var/lib/krill".to_string());
    assert_eq!(config.data_dir, "/var/lib/krill");
    assert_eq!(config.https_cert_file(), "/var/lib/krill/ssl/cert.pem");
    assert_eq!(config.port, 3000);
    assert_eq!(config.socket_addr(), "127.0.0.1:3000");
}
