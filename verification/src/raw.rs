use vstd::prelude::*;
use vstd::string::StringExecFns;
use crate::concurrency::{
    Concurrency, ConcurrencyParseError, ConfigValue, spec_parse_concurrency_value,
};
use crate::config::{
    spec_or_default, TowerRequestConfig, TowerRequestSettings, RATE_LIMIT_DURATION_SECONDS_DEFAULT,
    RATE_LIMIT_NUM_DEFAULT, RETRY_INITIAL_BACKOFF_SECONDS_DEFAULT,
    RETRY_MAX_DURATION_SECONDS_DEFAULT, TIMEOUT_SECONDS_DEFAULT,
};
use crate::controller::AdaptiveConcurrencySettings;

verus! {

/// The request policy as the configuration file hands it over: every field
/// optional, integers still the file's signed 64-bit integers, the
/// concurrency knob still a bare scalar. Reading the file into this shape
/// is the file-format layer's job; everything after it is checked here.
#[derive(Clone, Debug, PartialEq)]
pub struct RawRequestConfig {
    pub concurrency: Option<ConfigValue>,
    pub in_flight_limit: Option<ConfigValue>,
    pub timeout_secs: Option<i64>,
    pub rate_limit_duration_secs: Option<i64>,
    pub rate_limit_num: Option<i64>,
    pub retry_attempts: Option<i64>,
    pub retry_max_duration_secs: Option<i64>,
    pub retry_initial_backoff_secs: Option<i64>,
    pub adaptive_decrease_ratio_permille: Option<i64>,
    pub adaptive_ewma_alpha_permille: Option<i64>,
    pub adaptive_rtt_deviation_scale_permille: Option<i64>,
}

impl RawRequestConfig {
    /// Nothing set: what reading an empty file yields.
    pub fn empty() -> (r: Self)
        ensures
            r == (RawRequestConfig {
                concurrency: None,
                in_flight_limit: None,
                timeout_secs: None,
                rate_limit_duration_secs: None,
                rate_limit_num: None,
                retry_attempts: None,
                retry_max_duration_secs: None,
                retry_initial_backoff_secs: None,
                adaptive_decrease_ratio_permille: None,
                adaptive_ewma_alpha_permille: None,
                adaptive_rtt_deviation_scale_permille: None,
            }),
    {
        RawRequestConfig {
            concurrency: None,
            in_flight_limit: None,
            timeout_secs: None,
            rate_limit_duration_secs: None,
            rate_limit_num: None,
            retry_attempts: None,
            retry_max_duration_secs: None,
            retry_initial_backoff_secs: None,
            adaptive_decrease_ratio_permille: None,
            adaptive_ewma_alpha_permille: None,
            adaptive_rtt_deviation_scale_permille: None,
        }
    }
}

/// Which configuration key a rejection is about.
#[derive(Clone, Copy, Debug, PartialEq, Eq, Structural)]
pub enum ConfigField {
    Concurrency,
    InFlightLimit,
    TimeoutSecs,
    RateLimitDurationSecs,
    RateLimitNum,
    RetryAttempts,
    RetryMaxDurationSecs,
    RetryInitialBackoffSecs,
    AdaptiveDecreaseRatio,
    AdaptiveEwmaAlpha,
    AdaptiveRttDeviationScale,
}

/// Why a configuration was rejected at parse time.
#[derive(Clone, Debug, PartialEq)]
pub enum ConfigError {
    /// A concurrency scalar that is neither a positive integer nor
    /// `"adaptive"`.
    BadConcurrency(ConfigField, ConcurrencyParseError),
    /// A numeric key outside its allowed range.
    OutOfRange(ConfigField, i64),
}

/// A concurrency key parses to `Unset` when absent, else by the scalar rule.
pub open spec fn spec_parse_concurrency_key(v: Option<ConfigValue>, f: ConfigField) -> Result<
    Concurrency,
    ConfigError,
> {
    match v {
        None => Ok(Concurrency::Unset),
        Some(x) => match spec_parse_concurrency_value(x) {
            Ok(c) => Ok(c),
            Err(e) => Err(ConfigError::BadConcurrency(f, e)),
        },
    }
}

/// A duration key must be at least one second.
pub open spec fn spec_parse_duration_key(v: Option<i64>, f: ConfigField) -> Result<
    Option<u64>,
    ConfigError,
> {
    match v {
        None => Ok(None),
        Some(x) => if x >= 1 {
            Ok(Some(x as u64))
        } else {
            Err(ConfigError::OutOfRange(f, x))
        },
    }
}

/// The retry-attempt count must be representable and non-negative.
pub open spec fn spec_parse_attempts_key(v: Option<i64>) -> Result<Option<usize>, ConfigError> {
    match v {
        None => Ok(None),
        Some(x) => if 0 <= x && x <= usize::MAX as int {
            Ok(Some(x as usize))
        } else {
            Err(ConfigError::OutOfRange(ConfigField::RetryAttempts, x))
        },
    }
}

/// A controller knob must lie in its range; an absent one takes its default.
pub open spec fn spec_parse_knob_key(
    v: Option<i64>,
    f: ConfigField,
    lo: i64,
    hi: i64,
    default: u64,
) -> Result<u64, ConfigError> {
    match v {
        None => Ok(default),
        Some(x) => if lo <= x <= hi {
            Ok(x as u64)
        } else {
            Err(ConfigError::OutOfRange(f, x))
        },
    }
}

/// What parsing a raw policy yields: each key checked in declaration
/// order, the first rejection surfaced.
pub open spec fn spec_parse_raw_config(raw: RawRequestConfig) -> Result<
    TowerRequestConfig<Concurrency>,
    ConfigError,
> {
    match spec_parse_concurrency_key(raw.concurrency, ConfigField::Concurrency) {
        Err(e) => Err(e),
        Ok(concurrency) => match spec_parse_concurrency_key(
            raw.in_flight_limit,
            ConfigField::InFlightLimit,
        ) {
            Err(e) => Err(e),
            Ok(in_flight_limit) => match spec_parse_duration_key(
                raw.timeout_secs,
                ConfigField::TimeoutSecs,
            ) {
                Err(e) => Err(e),
                Ok(timeout_secs) => match spec_parse_duration_key(
                    raw.rate_limit_duration_secs,
                    ConfigField::RateLimitDurationSecs,
                ) {
                    Err(e) => Err(e),
                    Ok(rate_limit_duration_secs) => match spec_parse_duration_key(
                        raw.rate_limit_num,
                        ConfigField::RateLimitNum,
                    ) {
                        Err(e) => Err(e),
                        Ok(rate_limit_num) => match spec_parse_attempts_key(raw.retry_attempts) {
                            Err(e) => Err(e),
                            Ok(retry_attempts) => match spec_parse_duration_key(
                                raw.retry_max_duration_secs,
                                ConfigField::RetryMaxDurationSecs,
                            ) {
                                Err(e) => Err(e),
                                Ok(retry_max_duration_secs) => match spec_parse_duration_key(
                                    raw.retry_initial_backoff_secs,
                                    ConfigField::RetryInitialBackoffSecs,
                                ) {
                                    Err(e) => Err(e),
                                    Ok(retry_initial_backoff_secs) => match spec_parse_knob_key(
                                        raw.adaptive_decrease_ratio_permille,
                                        ConfigField::AdaptiveDecreaseRatio,
                                        1,
                                        1000,
                                        900,
                                    ) {
                                        Err(e) => Err(e),
                                        Ok(decrease_ratio_permille) => match spec_parse_knob_key(
                                            raw.adaptive_ewma_alpha_permille,
                                            ConfigField::AdaptiveEwmaAlpha,
                                            1,
                                            1000,
                                            700,
                                        ) {
                                            Err(e) => Err(e),
                                            Ok(ewma_alpha_permille) => match spec_parse_knob_key(
                                                raw.adaptive_rtt_deviation_scale_permille,
                                                ConfigField::AdaptiveRttDeviationScale,
                                                0,
                                                1_000_000,
                                                2500,
                                            ) {
                                                Err(e) => Err(e),
                                                Ok(rtt_deviation_scale_permille) => Ok(
                                                    TowerRequestConfig {
                                                        concurrency,
                                                        in_flight_limit,
                                                        timeout_secs,
                                                        rate_limit_duration_secs,
                                                        rate_limit_num,
                                                        retry_attempts,
                                                        retry_max_duration_secs,
                                                        retry_initial_backoff_secs,
                                                        adaptive_concurrency: (
                                                        AdaptiveConcurrencySettings {
                                                            decrease_ratio_permille,
                                                            ewma_alpha_permille,
                                                            rtt_deviation_scale_permille,
                                                        }),
                                                    },
                                                ),
                                            },
                                        },
                                    },
                                },
                            },
                        },
                    },
                },
            },
        },
    }
}

fn parse_concurrency_key(v: Option<ConfigValue>, f: ConfigField) -> (r: Result<
    Concurrency,
    ConfigError,
>)
    ensures
        r == spec_parse_concurrency_key(v, f),
{
    match v {
        None => Ok(Concurrency::Unset),
        Some(x) => match Concurrency::parse_value(x) {
            Ok(c) => Ok(c),
            Err(e) => Err(ConfigError::BadConcurrency(f, e)),
        },
    }
}

fn parse_duration_key(v: Option<i64>, f: ConfigField) -> (r: Result<Option<u64>, ConfigError>)
    ensures
        r == spec_parse_duration_key(v, f),
{
    match v {
        None => Ok(None),
        Some(x) => if x >= 1 {
            Ok(Some(x as u64))
        } else {
            Err(ConfigError::OutOfRange(f, x))
        },
    }
}

fn parse_attempts_key(v: Option<i64>) -> (r: Result<Option<usize>, ConfigError>)
    ensures
        r == spec_parse_attempts_key(v),
{
    match v {
        None => Ok(None),
        Some(x) => if 0 <= x && (x as u64) <= (usize::MAX as u64) {
            Ok(Some(x as usize))
        } else {
            Err(ConfigError::OutOfRange(ConfigField::RetryAttempts, x))
        },
    }
}

fn parse_knob_key(v: Option<i64>, f: ConfigField, lo: i64, hi: i64, default: u64) -> (r: Result<
    u64,
    ConfigError,
>)
    requires
        0 <= lo,
        hi <= u64::MAX,
    ensures
        r == spec_parse_knob_key(v, f, lo, hi, default),
{
    match v {
        None => Ok(default),
        Some(x) => if lo <= x && x <= hi {
            Ok(x as u64)
        } else {
            Err(ConfigError::OutOfRange(f, x))
        },
    }
}

/// Check a raw policy and turn it into a typed one: the concurrency knobs
/// by the positive-integer-or-`"adaptive"` rule, durations positive, the
/// attempt count representable, the controller knobs in range. Exactly the
/// raw forms `spec_parse_raw_config` accepts come back `Ok`.
pub fn parse_raw_config(raw: RawRequestConfig) -> (r: Result<
    TowerRequestConfig<Concurrency>,
    ConfigError,
>)
    ensures
        r == spec_parse_raw_config(raw),
{
    let concurrency = match parse_concurrency_key(raw.concurrency, ConfigField::Concurrency) {
        Ok(c) => c,
        Err(e) => {
            return Err(e);
        },
    };
    let in_flight_limit = match parse_concurrency_key(
        raw.in_flight_limit,
        ConfigField::InFlightLimit,
    ) {
        Ok(c) => c,
        Err(e) => {
            return Err(e);
        },
    };
    let timeout_secs = match parse_duration_key(raw.timeout_secs, ConfigField::TimeoutSecs) {
        Ok(v) => v,
        Err(e) => {
            return Err(e);
        },
    };
    let rate_limit_duration_secs = match parse_duration_key(
        raw.rate_limit_duration_secs,
        ConfigField::RateLimitDurationSecs,
    ) {
        Ok(v) => v,
        Err(e) => {
            return Err(e);
        },
    };
    let rate_limit_num = match parse_duration_key(raw.rate_limit_num, ConfigField::RateLimitNum) {
        Ok(v) => v,
        Err(e) => {
            return Err(e);
        },
    };
    let retry_attempts = match parse_attempts_key(raw.retry_attempts) {
        Ok(v) => v,
        Err(e) => {
            return Err(e);
        },
    };
    let retry_max_duration_secs = match parse_duration_key(
        raw.retry_max_duration_secs,
        ConfigField::RetryMaxDurationSecs,
    ) {
        Ok(v) => v,
        Err(e) => {
            return Err(e);
        },
    };
    let retry_initial_backoff_secs = match parse_duration_key(
        raw.retry_initial_backoff_secs,
        ConfigField::RetryInitialBackoffSecs,
    ) {
        Ok(v) => v,
        Err(e) => {
            return Err(e);
        },
    };
    let decrease_ratio_permille = match parse_knob_key(
        raw.adaptive_decrease_ratio_permille,
        ConfigField::AdaptiveDecreaseRatio,
        1,
        1000,
        900,
    ) {
        Ok(v) => v,
        Err(e) => {
            return Err(e);
        },
    };
    let ewma_alpha_permille = match parse_knob_key(
        raw.adaptive_ewma_alpha_permille,
        ConfigField::AdaptiveEwmaAlpha,
        1,
        1000,
        700,
    ) {
        Ok(v) => v,
        Err(e) => {
            return Err(e);
        },
    };
    let rtt_deviation_scale_permille = match parse_knob_key(
        raw.adaptive_rtt_deviation_scale_permille,
        ConfigField::AdaptiveRttDeviationScale,
        0,
        1_000_000,
        2500,
    ) {
        Ok(v) => v,
        Err(e) => {
            return Err(e);
        },
    };
    Ok(
        TowerRequestConfig {
            concurrency,
            in_flight_limit,
            timeout_secs,
            rate_limit_duration_secs,
            rate_limit_num,
            retry_attempts,
            retry_max_duration_secs,
            retry_initial_backoff_secs,
            adaptive_concurrency: AdaptiveConcurrencySettings {
                decrease_ratio_permille,
                ewma_alpha_permille,
                rtt_deviation_scale_permille,
            },
        },
    )
}

impl TowerRequestConfig<Concurrency> {
    /// Whether this policy can be written back to a configuration file's
    /// signed integers and read in again unchanged.
    pub open spec fn file_representable(self) -> bool {
        &&& (match self.concurrency {
            Concurrency::Fixed(n) => 1 <= n && n <= 0x7fff_ffff_ffff_ffff,
            _ => true,
        })
        &&& (match self.in_flight_limit {
            Concurrency::Fixed(n) => 1 <= n && n <= 0x7fff_ffff_ffff_ffff,
            _ => true,
        })
        &&& (match self.timeout_secs {
            Some(v) => 1 <= v <= 0x7fff_ffff_ffff_ffff,
            None => true,
        })
        &&& (match self.rate_limit_duration_secs {
            Some(v) => 1 <= v <= 0x7fff_ffff_ffff_ffff,
            None => true,
        })
        &&& (match self.rate_limit_num {
            Some(v) => 1 <= v <= 0x7fff_ffff_ffff_ffff,
            None => true,
        })
        &&& (match self.retry_attempts {
            Some(v) => v <= 0x7fff_ffff_ffff_ffff,
            None => true,
        })
        &&& (match self.retry_max_duration_secs {
            Some(v) => 1 <= v <= 0x7fff_ffff_ffff_ffff,
            None => true,
        })
        &&& (match self.retry_initial_backoff_secs {
            Some(v) => 1 <= v <= 0x7fff_ffff_ffff_ffff,
            None => true,
        })
        &&& 1 <= self.adaptive_concurrency.decrease_ratio_permille <= 1000
        &&& 1 <= self.adaptive_concurrency.ewma_alpha_permille <= 1000
        &&& self.adaptive_concurrency.rtt_deviation_scale_permille <= 1_000_000
    }
}

/// Whether `v` is the file scalar that stands for the concurrency
/// setting `c`.
pub open spec fn spec_concurrency_written_as(c: Concurrency, v: Option<ConfigValue>) -> bool {
    match c {
        Concurrency::Unset => v is None,
        Concurrency::Adaptive => match v {
            Some(ConfigValue::Text(s)) => s@ == "adaptive"@,
            _ => false,
        },
        Concurrency::Fixed(n) => v == Some(ConfigValue::Int(n as i64)),
    }
}

/// Whether `raw` is the file form of the policy `cfg`, key by key.
pub open spec fn spec_written_as(cfg: TowerRequestConfig<Concurrency>, raw: RawRequestConfig)
    -> bool {
    &&& spec_concurrency_written_as(cfg.concurrency, raw.concurrency)
    &&& spec_concurrency_written_as(cfg.in_flight_limit, raw.in_flight_limit)
    &&& raw.timeout_secs == (match cfg.timeout_secs {
        Some(v) => Some(v as i64),
        None => None::<i64>,
    })
    &&& raw.rate_limit_duration_secs == (match cfg.rate_limit_duration_secs {
        Some(v) => Some(v as i64),
        None => None::<i64>,
    })
    &&& raw.rate_limit_num == (match cfg.rate_limit_num {
        Some(v) => Some(v as i64),
        None => None::<i64>,
    })
    &&& raw.retry_attempts == (match cfg.retry_attempts {
        Some(v) => Some(v as i64),
        None => None::<i64>,
    })
    &&& raw.retry_max_duration_secs == (match cfg.retry_max_duration_secs {
        Some(v) => Some(v as i64),
        None => None::<i64>,
    })
    &&& raw.retry_initial_backoff_secs == (match cfg.retry_initial_backoff_secs {
        Some(v) => Some(v as i64),
        None => None::<i64>,
    })
    &&& raw.adaptive_decrease_ratio_permille == Some(
        cfg.adaptive_concurrency.decrease_ratio_permille as i64,
    )
    &&& raw.adaptive_ewma_alpha_permille == Some(
        cfg.adaptive_concurrency.ewma_alpha_permille as i64,
    )
    &&& raw.adaptive_rtt_deviation_scale_permille == Some(
        cfg.adaptive_concurrency.rtt_deviation_scale_permille as i64,
    )
}

fn concurrency_to_value(c: Concurrency) -> (r: Option<ConfigValue>)
    requires
        (match c {
            Concurrency::Fixed(n) => 1 <= n && n <= 0x7fff_ffff_ffff_ffff,
            _ => true,
        }),
    ensures
        spec_concurrency_written_as(c, r),
{
    match c {
        Concurrency::Unset => None,
        Concurrency::Adaptive => Some(ConfigValue::Text(String::from_str("adaptive"))),
        Concurrency::Fixed(n) => Some(ConfigValue::Int(n as i64)),
    }
}

/// Write a policy back into the file's raw form. Together with
/// `parse_raw_config` this closes the round trip: parsing the written
/// form yields the identical policy (`lemma_config_round_trip`).
pub fn to_raw_config(cfg: &TowerRequestConfig<Concurrency>) -> (r: RawRequestConfig)
    requires
        cfg.file_representable(),
    ensures
        spec_written_as(*cfg, r),
{
    RawRequestConfig {
        concurrency: concurrency_to_value(cfg.concurrency),
        in_flight_limit: concurrency_to_value(cfg.in_flight_limit),
        timeout_secs: match cfg.timeout_secs {
            Some(v) => Some(v as i64),
            None => None,
        },
        rate_limit_duration_secs: match cfg.rate_limit_duration_secs {
            Some(v) => Some(v as i64),
            None => None,
        },
        rate_limit_num: match cfg.rate_limit_num {
            Some(v) => Some(v as i64),
            None => None,
        },
        retry_attempts: match cfg.retry_attempts {
            Some(v) => Some(v as i64),
            None => None,
        },
        retry_max_duration_secs: match cfg.retry_max_duration_secs {
            Some(v) => Some(v as i64),
            None => None,
        },
        retry_initial_backoff_secs: match cfg.retry_initial_backoff_secs {
            Some(v) => Some(v as i64),
            None => None,
        },
        adaptive_decrease_ratio_permille: Some(
            cfg.adaptive_concurrency.decrease_ratio_permille as i64,
        ),
        adaptive_ewma_alpha_permille: Some(cfg.adaptive_concurrency.ewma_alpha_permille as i64),
        adaptive_rtt_deviation_scale_permille: Some(
            cfg.adaptive_concurrency.rtt_deviation_scale_permille as i64,
        ),
    }
}

/// Whatever the checks accept can be written back: parsing only ever
/// yields file-representable policies, so the round trip below applies to
/// every parsed configuration.
pub proof fn lemma_parse_gives_representable(raw: RawRequestConfig)
    requires
        spec_parse_raw_config(raw) is Ok,
    ensures
        (spec_parse_raw_config(raw)->Ok_0).file_representable(),
{
}

/// A policy resolved from file-representable inputs is valid: every
/// duration positive, the rate window populated, the fixed cap positive,
/// and the controller knobs in range — provided the resolved first backoff
/// stays within the resolved retry budget. The `r.*` clauses are exactly
/// what `TowerRequestConfig::unwrap_with` ensures of its result.
pub proof fn lemma_resolved_settings_valid(
    cfg: TowerRequestConfig<Concurrency>,
    defaults: TowerRequestConfig<Concurrency>,
    r: TowerRequestSettings,
)
    requires
        cfg.file_representable(),
        defaults.file_representable(),
        r.concurrency == cfg.spec_resolved_concurrency(defaults),
        r.timeout_secs == spec_or_default(
            cfg.timeout_secs,
            defaults.timeout_secs,
            TIMEOUT_SECONDS_DEFAULT,
        ),
        r.rate_limit_duration_secs == spec_or_default(
            cfg.rate_limit_duration_secs,
            defaults.rate_limit_duration_secs,
            RATE_LIMIT_DURATION_SECONDS_DEFAULT,
        ),
        r.rate_limit_num == spec_or_default(
            cfg.rate_limit_num,
            defaults.rate_limit_num,
            RATE_LIMIT_NUM_DEFAULT,
        ),
        r.retry_max_duration_secs == spec_or_default(
            cfg.retry_max_duration_secs,
            defaults.retry_max_duration_secs,
            RETRY_MAX_DURATION_SECONDS_DEFAULT,
        ),
        r.retry_initial_backoff_secs == spec_or_default(
            cfg.retry_initial_backoff_secs,
            defaults.retry_initial_backoff_secs,
            RETRY_INITIAL_BACKOFF_SECONDS_DEFAULT,
        ),
        r.retry_initial_backoff_secs <= r.retry_max_duration_secs,
        r.adaptive_concurrency == cfg.adaptive_concurrency,
    ensures
        r.is_valid(),
{
}

/// Configuration round trip: writing any file-representable policy out and
/// parsing it back yields the identical policy.
pub proof fn lemma_config_round_trip(cfg: TowerRequestConfig<Concurrency>, raw: RawRequestConfig)
    requires
        cfg.file_representable(),
        spec_written_as(cfg, raw),
    ensures
        spec_parse_raw_config(raw) == Ok::<TowerRequestConfig<Concurrency>, ConfigError>(cfg),
{
    let parsed = spec_parse_raw_config(raw);
    assert(spec_parse_concurrency_key(raw.concurrency, ConfigField::Concurrency) == Ok::<
        Concurrency,
        ConfigError,
    >(cfg.concurrency));
    assert(spec_parse_concurrency_key(raw.in_flight_limit, ConfigField::InFlightLimit) == Ok::<
        Concurrency,
        ConfigError,
    >(cfg.in_flight_limit));
    assert(parsed is Ok);
    assert(parsed->Ok_0 == cfg);
}

} // verus!

