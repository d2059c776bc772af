use vstd::prelude::*;
use crate::concurrency::{
    ConcurrencyOption, Concurrency, ConfigValue, ConcurrencyParseError,
    spec_parse_concurrency_value,
};
use crate::controller::AdaptiveConcurrencySettings;
use crate::retries::{FixedRetryPolicy, RETRY_MAX_DURATION_SECONDS_BOUND};

verus! {

pub const TIMEOUT_SECONDS_DEFAULT: u64 = 60;

pub const RATE_LIMIT_DURATION_SECONDS_DEFAULT: u64 = 1;

/// Largest signed 64-bit value: effectively unlimited, while still
/// representable in a configuration file's integers.
pub const RATE_LIMIT_NUM_DEFAULT: u64 = 0x7fff_ffff_ffff_ffff;

/// Effectively unlimited retries, while staying representable in a
/// configuration file's integers.
pub const RETRY_ATTEMPTS_DEFAULT: usize = isize::MAX as usize;

pub const RETRY_MAX_DURATION_SECONDS_DEFAULT: u64 = 3_600;

pub const RETRY_INITIAL_BACKOFF_SECONDS_DEFAULT: u64 = 1;

/// A per-sink request policy as it stands in a configuration file: every
/// field optional, the concurrency knob in either of its two spellings.
#[derive(Clone, Copy, Debug, PartialEq)]
pub struct TowerRequestConfig<T: ConcurrencyOption> {
    pub concurrency: T,
    /// The deprecated spelling of `concurrency`; the canonical key wins
    /// when both are set.
    pub in_flight_limit: T,
    pub timeout_secs: Option<u64>,
    pub rate_limit_duration_secs: Option<u64>,
    pub rate_limit_num: Option<u64>,
    pub retry_attempts: Option<usize>,
    pub retry_max_duration_secs: Option<u64>,
    pub retry_initial_backoff_secs: Option<u64>,
    pub adaptive_concurrency: AdaptiveConcurrencySettings,
}

/// The resolved, validated policy the pipeline is built from. Durations are
/// whole seconds; `concurrency` of `None` selects the adaptive controller.
#[derive(Clone, Copy, Debug, PartialEq)]
pub struct TowerRequestSettings {
    pub concurrency: Option<usize>,
    pub timeout_secs: u64,
    pub rate_limit_duration_secs: u64,
    pub rate_limit_num: u64,
    pub retry_attempts: usize,
    pub retry_max_duration_secs: u64,
    pub retry_initial_backoff_secs: u64,
    pub adaptive_concurrency: AdaptiveConcurrencySettings,
}

impl TowerRequestSettings {
    /// The invariants of a resolved policy: positive durations, at least one
    /// event per rate window, a first backoff no longer than the whole retry
    /// budget, a positive fixed cap, and well-ranged controller knobs.
    pub open spec fn is_valid(self) -> bool {
        &&& self.timeout_secs >= 1
        &&& self.rate_limit_duration_secs >= 1
        &&& self.rate_limit_num >= 1
        &&& 1 <= self.retry_max_duration_secs <= RETRY_MAX_DURATION_SECONDS_BOUND
        &&& 1 <= self.retry_initial_backoff_secs <= self.retry_max_duration_secs
        &&& match self.concurrency {
            Some(n) => n >= 1,
            None => true,
        }
        &&& self.adaptive_concurrency.is_valid()
    }

    /// A fresh retry policy for one request, driven by the caller's
    /// response classifier.
    pub fn retry_policy<L>(&self, logic: L) -> (r: FixedRetryPolicy<L>)
        requires
            self.is_valid(),
        ensures
            r.wf(),
            r.retry_attempts == self.retry_attempts,
            r.attempts_made == 0,
            r.retry_initial_backoff_secs == self.retry_initial_backoff_secs,
            r.retry_max_duration_secs == self.retry_max_duration_secs,
            r.elapsed_secs == 0,
            r.last_backoff_secs == 0,
            r.logic == logic,
    {
        FixedRetryPolicy::new(
            self.retry_attempts,
            self.retry_initial_backoff_secs,
            self.retry_max_duration_secs,
            logic,
        )
    }
}

/// Resolution of one optional field: the sink's own value, else the caller's
/// default, else the hard-coded default.
pub open spec fn spec_or_default(own: Option<u64>, default: Option<u64>, hard: u64) -> u64 {
    match own {
        Some(x) => x,
        None => match default {
            Some(y) => y,
            None => hard,
        },
    }
}

fn or_default(own: Option<u64>, default: Option<u64>, hard: u64) -> (r: u64)
    ensures
        r == spec_or_default(own, default, hard),
{
    match own {
        Some(x) => x,
        None => match default {
            Some(y) => y,
            None => hard,
        },
    }
}

impl<T: ConcurrencyOption> TowerRequestConfig<T> {
    /// Which spelling of the concurrency knob is in effect: the canonical
    /// key unless only the deprecated one is set.
    pub open spec fn spec_concurrency(self) -> T {
        if self.concurrency.spec_is_none() && !self.in_flight_limit.spec_is_none() {
            self.in_flight_limit
        } else {
            self.concurrency
        }
    }

    /// Select between the canonical `concurrency` key and the deprecated
    /// `in_flight_limit` alias; when both are set the canonical key wins.
    pub fn concurrency(&self) -> (r: &T)
        ensures
            *r == self.spec_concurrency(),
    {
        if self.concurrency.is_some() {
            &self.concurrency
        } else if self.in_flight_limit.is_some() {
            &self.in_flight_limit
        } else {
            &self.concurrency
        }
    }

    /// The in-flight cap `unwrap_with` resolves to.
    pub open spec fn spec_resolved_concurrency(self, defaults: Self) -> Option<usize> {
        self.spec_concurrency().spec_parse(defaults.spec_concurrency())
    }

    /// Resolve every field against the caller-supplied defaults and the
    /// hard-coded defaults, field by field.
    pub fn unwrap_with(&self, defaults: &Self) -> (r: TowerRequestSettings)
        ensures
            r.concurrency == self.spec_resolved_concurrency(*defaults),
            r.timeout_secs == spec_or_default(
                self.timeout_secs,
                defaults.timeout_secs,
                TIMEOUT_SECONDS_DEFAULT,
            ),
            r.rate_limit_duration_secs == spec_or_default(
                self.rate_limit_duration_secs,
                defaults.rate_limit_duration_secs,
                RATE_LIMIT_DURATION_SECONDS_DEFAULT,
            ),
            r.rate_limit_num == spec_or_default(
                self.rate_limit_num,
                defaults.rate_limit_num,
                RATE_LIMIT_NUM_DEFAULT,
            ),
            r.retry_attempts == (match self.retry_attempts {
                Some(x) => x,
                None => match defaults.retry_attempts {
                    Some(y) => y,
                    None => RETRY_ATTEMPTS_DEFAULT,
                },
            }),
            r.retry_max_duration_secs == spec_or_default(
                self.retry_max_duration_secs,
                defaults.retry_max_duration_secs,
                RETRY_MAX_DURATION_SECONDS_DEFAULT,
            ),
            r.retry_initial_backoff_secs == spec_or_default(
                self.retry_initial_backoff_secs,
                defaults.retry_initial_backoff_secs,
                RETRY_INITIAL_BACKOFF_SECONDS_DEFAULT,
            ),
            r.adaptive_concurrency == self.adaptive_concurrency,
    {
        let retry_attempts: usize = match self.retry_attempts {
            Some(x) => x,
            None => match defaults.retry_attempts {
                Some(y) => y,
                None => RETRY_ATTEMPTS_DEFAULT,
            },
        };
        TowerRequestSettings {
            concurrency: self.concurrency().parse_concurrency(defaults.concurrency()),
            timeout_secs: or_default(
                self.timeout_secs,
                defaults.timeout_secs,
                TIMEOUT_SECONDS_DEFAULT,
            ),
            rate_limit_duration_secs: or_default(
                self.rate_limit_duration_secs,
                defaults.rate_limit_duration_secs,
                RATE_LIMIT_DURATION_SECONDS_DEFAULT,
            ),
            rate_limit_num: or_default(
                self.rate_limit_num,
                defaults.rate_limit_num,
                RATE_LIMIT_NUM_DEFAULT,
            ),
            retry_attempts,
            retry_max_duration_secs: or_default(
                self.retry_max_duration_secs,
                defaults.retry_max_duration_secs,
                RETRY_MAX_DURATION_SECONDS_DEFAULT,
            ),
            retry_initial_backoff_secs: or_default(
                self.retry_initial_backoff_secs,
                defaults.retry_initial_backoff_secs,
                RETRY_INITIAL_BACKOFF_SECONDS_DEFAULT,
            ),
            adaptive_concurrency: self.adaptive_concurrency,
        }
    }
}

/// The request-shaping stage as a layer over an inner service: the policy
/// to apply and the caller's response classifier. The composition itself
/// — rate limit outside retry outside concurrency outside timeout — is
/// assembled by the runtime shell around the pipeline.
#[derive(Clone, Copy, Debug)]
pub struct TowerRequestLayer<L> {
    pub settings: TowerRequestSettings,
    pub retry_logic: L,
}

impl<L> TowerRequestLayer<L> {
    pub fn new(settings: TowerRequestSettings, retry_logic: L) -> (r: Self)
        ensures
            r.settings == settings,
            r.retry_logic == retry_logic,
    {
        TowerRequestLayer { settings, retry_logic }
    }
}

impl Default for TowerRequestConfig<Concurrency> {
    /// The stock per-sink policy: both concurrency spellings unset, every
    /// other field at its hard-coded default.
    fn default() -> (r: Self)
        ensures
            (r.concurrency is Unset),
            (r.in_flight_limit is Unset),
            r.timeout_secs == Some(TIMEOUT_SECONDS_DEFAULT),
            r.rate_limit_duration_secs == Some(RATE_LIMIT_DURATION_SECONDS_DEFAULT),
            r.rate_limit_num == Some(RATE_LIMIT_NUM_DEFAULT),
            r.retry_attempts == Some(RETRY_ATTEMPTS_DEFAULT),
            r.retry_max_duration_secs == Some(RETRY_MAX_DURATION_SECONDS_DEFAULT),
            r.retry_initial_backoff_secs == Some(RETRY_INITIAL_BACKOFF_SECONDS_DEFAULT),
            r.adaptive_concurrency == (AdaptiveConcurrencySettings {
                decrease_ratio_permille: 900,
                ewma_alpha_permille: 700,
                rtt_deviation_scale_permille: 2500,
            }),
    {
        TowerRequestConfig {
            concurrency: Concurrency::Unset,
            in_flight_limit: Concurrency::Unset,
            timeout_secs: Some(TIMEOUT_SECONDS_DEFAULT),
            rate_limit_duration_secs: Some(RATE_LIMIT_DURATION_SECONDS_DEFAULT),
            rate_limit_num: Some(RATE_LIMIT_NUM_DEFAULT),
            retry_attempts: Some(RETRY_ATTEMPTS_DEFAULT),
            retry_max_duration_secs: Some(RETRY_MAX_DURATION_SECONDS_DEFAULT),
            retry_initial_backoff_secs: Some(RETRY_INITIAL_BACKOFF_SECONDS_DEFAULT),
            adaptive_concurrency: AdaptiveConcurrencySettings::default(),
        }
    }
}

} // verus!
