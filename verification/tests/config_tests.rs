use sink_pipeline::concurrency::{Concurrency, ConcurrencyOption, ConcurrencyParseError, ConfigValue};
use sink_pipeline::config::{
    TowerRequestConfig, RATE_LIMIT_DURATION_SECONDS_DEFAULT, RATE_LIMIT_NUM_DEFAULT,
    RETRY_ATTEMPTS_DEFAULT, RETRY_INITIAL_BACKOFF_SECONDS_DEFAULT,
    RETRY_MAX_DURATION_SECONDS_DEFAULT, TIMEOUT_SECONDS_DEFAULT,
};
use sink_pipeline::controller::AdaptiveConcurrencySettings;
use sink_pipeline::raw::{parse_raw_config, to_raw_config, ConfigError, ConfigField, RawRequestConfig};

/// Read the two concurrency keys out of a TOML snippet into the raw form
/// the library checks, as the file-reading shell does.
fn raw_from_toml(text: &str) -> RawRequestConfig {
    let value: toml::Value = text.parse().expect("test input must be valid TOML");
    let table = value.as_table().expect("test input must be a TOML table");
    let mut raw = RawRequestConfig::empty();
    for (key, entry) in table {
        let scalar = match entry {
            toml::Value::Integer(i) => ConfigValue::Int(*i),
            toml::Value::String(s) => ConfigValue::Text(s.clone()),
            other => panic!("unexpected TOML value in test: {:?}", other),
        };
        match key.as_str() {
            "concurrency" => raw.concurrency = Some(scalar),
            "in_flight_limit" => raw.in_flight_limit = Some(scalar),
            other => panic!("unexpected TOML key in test: {}", other),
        }
    }
    raw
}

#[test]
fn concurrency_param_works() {
    let cfg = TowerRequestConfig::<Concurrency>::default();
    let written = to_raw_config(&cfg);
    parse_raw_config(written).expect("Default config failed");

    let cfg = parse_raw_config(RawRequestConfig::empty()).expect("Empty config failed");
    assert_eq!(cfg.concurrency, Concurrency::Unset);

    let cfg = parse_raw_config(raw_from_toml("concurrency = 10")).expect("Fixed concurrency failed");
    assert_eq!(cfg.concurrency, Concurrency::Fixed(10));

    let cfg = parse_raw_config(raw_from_toml(r#"concurrency = "adaptive""#))
        .expect("Adaptive concurrency setting failed");
    assert_eq!(cfg.concurrency, Concurrency::Adaptive);

    parse_raw_config(raw_from_toml(r#"concurrency = "broken""#))
        .expect_err("Invalid concurrency setting didn't fail");

    parse_raw_config(raw_from_toml(r#"concurrency = 0"#))
        .expect_err("Invalid concurrency setting didn't fail on zero");

    parse_raw_config(raw_from_toml(r#"concurrency = -9"#))
        .expect_err("Invalid concurrency setting didn't fail on negative number");
}

#[test]
fn backward_compatibility_with_in_flight_limit_param_works() {
    let cfg = parse_raw_config(raw_from_toml("in_flight_limit = 10"))
        .expect("Fixed concurrency failed for in_flight_limit param");
    assert_eq!(cfg.concurrency(), &Concurrency::Fixed(10));
}

#[test]
fn fixed_concurrency_parses_and_resolves_to_ten() {
    let cfg = parse_raw_config(raw_from_toml("concurrency = 10")).expect("Fixed concurrency failed");
    assert_eq!(cfg.concurrency, Concurrency::Fixed(10));
    let defaults = TowerRequestConfig::<Concurrency>::default();
    let resolved = cfg.concurrency().parse_concurrency(defaults.concurrency());
    assert_eq!(resolved, Some(10));
}

#[test]
fn legacy_alias_resolves_to_fixed_ten() {
    let cfg = parse_raw_config(raw_from_toml("in_flight_limit = 10"))
        .expect("Fixed concurrency failed for in_flight_limit param");
    let defaults = TowerRequestConfig::<Concurrency>::default();
    let settings = cfg.unwrap_with(&defaults);
    assert_eq!(settings.concurrency, Some(10));
}

#[test]
fn canonical_key_wins_over_alias() {
    let cfg = parse_raw_config(raw_from_toml("concurrency = 7\nin_flight_limit = 10"))
        .expect("config with both spellings failed");
    assert_eq!(cfg.concurrency(), &Concurrency::Fixed(7));
}

#[test]
fn unset_concurrency_resolves_to_1024() {
    let cfg = parse_raw_config(RawRequestConfig::empty()).expect("Empty config failed");
    let defaults = TowerRequestConfig::<Concurrency>::default();
    let settings = cfg.unwrap_with(&defaults);
    assert_eq!(settings.concurrency, Some(1024));
}

#[test]
fn adaptive_concurrency_resolves_to_none() {
    let cfg = parse_raw_config(raw_from_toml(r#"concurrency = "adaptive""#))
        .expect("Adaptive concurrency setting failed");
    let defaults = TowerRequestConfig::<Concurrency>::default();
    let settings = cfg.unwrap_with(&defaults);
    assert_eq!(settings.concurrency, None);
}

#[test]
fn option_usize_concurrency_resolution() {
    let unset: Option<usize> = None;
    assert_eq!(unset.parse_concurrency(&None), Some(1024));
    assert_eq!(unset.parse_concurrency(&Some(5)), Some(5));
    assert_eq!(Some(7usize).parse_concurrency(&Some(5)), Some(7));
    assert!(ConcurrencyOption::is_none(&unset));
    assert!(Some(7usize).is_some());
}

#[test]
fn unwrap_with_fills_hardcoded_defaults() {
    let cfg = parse_raw_config(RawRequestConfig::empty()).expect("Empty config failed");
    let defaults = parse_raw_config(RawRequestConfig::empty()).expect("Empty config failed");
    let settings = cfg.unwrap_with(&defaults);
    assert_eq!(settings.timeout_secs, TIMEOUT_SECONDS_DEFAULT);
    assert_eq!(settings.rate_limit_duration_secs, RATE_LIMIT_DURATION_SECONDS_DEFAULT);
    assert_eq!(settings.rate_limit_num, RATE_LIMIT_NUM_DEFAULT);
    assert_eq!(settings.rate_limit_num, i64::MAX as u64);
    assert_eq!(settings.retry_attempts, RETRY_ATTEMPTS_DEFAULT);
    assert_eq!(settings.retry_max_duration_secs, RETRY_MAX_DURATION_SECONDS_DEFAULT);
    assert_eq!(settings.retry_initial_backoff_secs, RETRY_INITIAL_BACKOFF_SECONDS_DEFAULT);
}

#[test]
fn own_value_beats_caller_default() {
    let mut raw = RawRequestConfig::empty();
    raw.timeout_secs = Some(5);
    let cfg = parse_raw_config(raw).expect("config with timeout failed");
    let mut raw_defaults = RawRequestConfig::empty();
    raw_defaults.timeout_secs = Some(30);
    raw_defaults.rate_limit_num = Some(99);
    let defaults = parse_raw_config(raw_defaults).expect("defaults failed");
    let settings = cfg.unwrap_with(&defaults);
    assert_eq!(settings.timeout_secs, 5);
    assert_eq!(settings.rate_limit_num, 99);
}

#[test]
fn config_round_trip_preserves_every_field() {
    let mut raw = RawRequestConfig::empty();
    raw.concurrency = Some(ConfigValue::Int(7));
    raw.in_flight_limit = Some(ConfigValue::Text("adaptive".to_string()));
    raw.timeout_secs = Some(12);
    raw.rate_limit_duration_secs = Some(2);
    raw.rate_limit_num = Some(500);
    raw.retry_attempts = Some(4);
    raw.retry_max_duration_secs = Some(100);
    raw.retry_initial_backoff_secs = Some(3);
    raw.adaptive_decrease_ratio_permille = Some(800);
    raw.adaptive_ewma_alpha_permille = Some(600);
    raw.adaptive_rtt_deviation_scale_permille = Some(3000);
    let cfg = parse_raw_config(raw).expect("full config failed");
    assert_eq!(
        cfg.adaptive_concurrency,
        AdaptiveConcurrencySettings {
            decrease_ratio_permille: 800,
            ewma_alpha_permille: 600,
            rtt_deviation_scale_permille: 3000,
        }
    );
    let written = to_raw_config(&cfg);
    let reparsed = parse_raw_config(written).expect("round trip failed");
    assert_eq!(reparsed, cfg);
}

#[test]
fn parse_rejects_each_bad_field_with_its_error() {
    let err = parse_raw_config(raw_from_toml("concurrency = 0")).unwrap_err();
    assert_eq!(
        err,
        ConfigError::BadConcurrency(ConfigField::Concurrency, ConcurrencyParseError::NotPositive(0))
    );

    let err = parse_raw_config(raw_from_toml("concurrency = -9")).unwrap_err();
    assert_eq!(
        err,
        ConfigError::BadConcurrency(ConfigField::Concurrency, ConcurrencyParseError::NotPositive(-9))
    );

    let err = parse_raw_config(raw_from_toml(r#"concurrency = "broken""#)).unwrap_err();
    assert_eq!(
        err,
        ConfigError::BadConcurrency(
            ConfigField::Concurrency,
            ConcurrencyParseError::UnknownKeyword("broken".to_string())
        )
    );

    let err = parse_raw_config(raw_from_toml("in_flight_limit = 0")).unwrap_err();
    assert_eq!(
        err,
        ConfigError::BadConcurrency(ConfigField::InFlightLimit, ConcurrencyParseError::NotPositive(0))
    );

    let mut raw = RawRequestConfig::empty();
    raw.timeout_secs = Some(0);
    let err = parse_raw_config(raw).unwrap_err();
    assert_eq!(err, ConfigError::OutOfRange(ConfigField::TimeoutSecs, 0));

    let mut raw = RawRequestConfig::empty();
    raw.retry_initial_backoff_secs = Some(-1);
    let err = parse_raw_config(raw).unwrap_err();
    assert_eq!(err, ConfigError::OutOfRange(ConfigField::RetryInitialBackoffSecs, -1));

    let mut raw = RawRequestConfig::empty();
    raw.retry_attempts = Some(-2);
    let err = parse_raw_config(raw).unwrap_err();
    assert_eq!(err, ConfigError::OutOfRange(ConfigField::RetryAttempts, -2));

    let mut raw = RawRequestConfig::empty();
    raw.adaptive_decrease_ratio_permille = Some(1001);
    let err = parse_raw_config(raw).unwrap_err();
    assert_eq!(err, ConfigError::OutOfRange(ConfigField::AdaptiveDecreaseRatio, 1001));
}
