use vstd::prelude::*;

verus! {

/// Tuning knobs of the adaptive concurrency controller. Ratios are carried
/// in parts per thousand so that the decision arithmetic is exact: a
/// decrease ratio of 900 permille scales the limit by 0.9.
#[derive(Clone, Copy, Debug, PartialEq, Eq, Structural)]
pub struct AdaptiveConcurrencySettings {
    /// Factor applied to the limit on overload, in (0, 1000].
    pub decrease_ratio_permille: u64,
    /// Weight of a new sample in the moving averages, in (0, 1000].
    pub ewma_alpha_permille: u64,
    /// How many deviations above the RTT average count as congestion.
    pub rtt_deviation_scale_permille: u64,
}

impl AdaptiveConcurrencySettings {
    /// The ranges the tuning knobs must lie in.
    pub open spec fn is_valid(self) -> bool {
        &&& 0 < self.decrease_ratio_permille <= 1000
        &&& 0 < self.ewma_alpha_permille <= 1000
        &&& self.rtt_deviation_scale_permille <= 1_000_000
    }
}

impl Default for AdaptiveConcurrencySettings {
    /// Decrease by 0.9, average with alpha 0.7, flag congestion at 2.5
    /// deviations above the mean.
    fn default() -> (r: Self)
        ensures
            r.decrease_ratio_permille == 900,
            r.ewma_alpha_permille == 700,
            r.rtt_deviation_scale_permille == 2500,
            r.is_valid(),
    {
        AdaptiveConcurrencySettings {
            decrease_ratio_permille: 900,
            ewma_alpha_permille: 700,
            rtt_deviation_scale_permille: 2500,
        }
    }
}

/// How one completed request ended, as the controller sees it.
#[derive(Clone, Copy, Debug, PartialEq, Eq, Structural)]
pub enum RequestOutcome {
    Success,
    RetriableError,
    NonRetriableError,
    Timeout,
}

/// An exponential moving average step, over integers:
/// `(alpha * sample + (1000 - alpha) * prev) / 1000`, rounded down.
pub open spec fn spec_ewma_step(alpha_permille: u64, sample: u64, prev: u64) -> int {
    (alpha_permille * sample + (1000 - alpha_permille) * prev) / 1000
}

/// A weighted mean of two values never exceeds the larger of the two.
pub proof fn lemma_ewma_step_bounded(alpha_permille: u64, sample: u64, prev: u64)
    requires
        0 < alpha_permille <= 1000,
    ensures
        spec_ewma_step(alpha_permille, sample, prev) <= if sample >= prev {
            sample as int
        } else {
            prev as int
        },
        spec_ewma_step(alpha_permille, sample, prev) >= 0,
{
    let m: int = if sample >= prev {
        sample as int
    } else {
        prev as int
    };
    assert(alpha_permille * sample + (1000 - alpha_permille) * prev <= 1000 * m) by (nonlinear_arith)
        requires
            0 < alpha_permille <= 1000,
            sample <= m,
            prev <= m,
            0 <= m,
    ;
    assert((alpha_permille * sample + (1000 - alpha_permille) * prev) / 1000 <= m);
    assert(alpha_permille * sample + (1000 - alpha_permille) * prev >= 0) by (nonlinear_arith)
        requires
            0 < alpha_permille <= 1000,
    ;
}

/// The limit after an overload signal: scaled down by the decrease ratio,
/// but never below one.
pub open spec fn spec_decrease_limit(limit: u64, ratio_permille: u64) -> int {
    let scaled: int = (limit * ratio_permille) / 1000;
    if scaled < 1 {
        1
    } else {
        scaled
    }
}

/// Scaling a limit by a ratio of at most one never raises it.
pub proof fn lemma_decrease_le(limit: u64, ratio_permille: u64)
    requires
        1 <= limit,
        0 < ratio_permille <= 1000,
    ensures
        1 <= spec_decrease_limit(limit, ratio_permille) <= limit,
{
    assert(limit * ratio_permille <= limit * 1000) by (nonlinear_arith)
        requires
            ratio_permille <= 1000,
            0 <= limit,
    ;
    assert((limit * ratio_permille) / 1000 <= limit);
}

/// The live state of the adaptive concurrency controller: the current
/// in-flight budget, how many requests hold a permit, and the RTT averages
/// the decision rule reads. All times are in microseconds.
#[derive(Clone, Copy, Debug)]
pub struct AdaptiveConcurrencyController {
    pub settings: AdaptiveConcurrencySettings,
    /// The in-flight budget, between one and `max_limit`.
    pub current_limit: u64,
    /// How many permits are outstanding.
    pub in_flight: u64,
    /// The ceiling the limit may grow to.
    pub max_limit: u64,
    /// Moving average of observed round-trip times; unset until the first
    /// sample arrives.
    pub rtt_ewma_micros: Option<u64>,
    /// Moving average of the absolute deviation of samples from the mean.
    pub rtt_deviation_ewma_micros: u64,
    /// The smallest RTT seen since the limit last changed.
    pub last_observed_rtt_min_micros: Option<u64>,
    /// Whether any request waited for a permit since the limit last changed.
    pub had_back_pressure: bool,
}

/// The default ceiling on the adaptive limit.
pub const MAX_CONCURRENCY_LIMIT_DEFAULT: u64 = 200;

impl AdaptiveConcurrencyController {
    /// What constructors establish and every update preserves.
    pub open spec fn is_valid(self) -> bool {
        &&& self.settings.is_valid()
        &&& 1 <= self.current_limit <= self.max_limit
    }

    /// A fresh controller starts probing at a limit of one.
    pub fn new(settings: AdaptiveConcurrencySettings, max_limit: u64) -> (r: Self)
        requires
            settings.is_valid(),
            max_limit >= 1,
        ensures
            r.is_valid(),
            r.settings == settings,
            r.current_limit == 1,
            r.in_flight == 0,
            r.max_limit == max_limit,
            r.rtt_ewma_micros is None,
            r.rtt_deviation_ewma_micros == 0,
    {
        AdaptiveConcurrencyController {
            settings,
            current_limit: 1,
            in_flight: 0,
            max_limit,
            rtt_ewma_micros: None,
            rtt_deviation_ewma_micros: 0,
            last_observed_rtt_min_micros: None,
            had_back_pressure: false,
        }
    }

    /// A controller pinned to a fixed budget: the limit starts at the cap
    /// and the decision rule is simply never consulted.
    pub fn new_fixed(limit: u64) -> (r: Self)
        requires
            limit >= 1,
        ensures
            r.is_valid(),
            r.current_limit == limit,
            r.max_limit == limit,
            r.in_flight == 0,
    {
        AdaptiveConcurrencyController {
            settings: AdaptiveConcurrencySettings::default(),
            current_limit: limit,
            in_flight: 0,
            max_limit: limit,
            rtt_ewma_micros: None,
            rtt_deviation_ewma_micros: 0,
            last_observed_rtt_min_micros: None,
            had_back_pressure: false,
        }
    }

    /// Whether a sample is above the congestion threshold
    /// `rtt_ewma + scale * rtt_deviation_ewma`, read before the sample is
    /// folded into the averages. With no average yet, nothing is congested.
    pub open spec fn spec_rtt_over_threshold(self, rtt_micros: u64) -> bool {
        match self.rtt_ewma_micros {
            Some(e) => rtt_micros * 1000 > e * 1000 + self.settings.rtt_deviation_scale_permille
                * self.rtt_deviation_ewma_micros,
            None => false,
        }
    }

    /// Whether this completion calls for lowering the limit: a timeout or a
    /// retriable error counts as overload, as does an RTT sample over the
    /// congestion threshold.
    pub open spec fn spec_should_decrease(self, outcome: RequestOutcome, rtt_micros: u64) -> bool {
        ||| outcome is Timeout
        ||| outcome is RetriableError
        ||| self.spec_rtt_over_threshold(rtt_micros)
    }

    /// The limit after one completion: decreased on overload, raised by one
    /// when the budget was saturated and the ceiling not yet reached, and
    /// left alone otherwise.
    pub open spec fn spec_next_limit(self, outcome: RequestOutcome, rtt_micros: u64) -> int {
        if self.spec_should_decrease(outcome, rtt_micros) {
            spec_decrease_limit(self.current_limit, self.settings.decrease_ratio_permille)
        } else if self.in_flight >= self.current_limit && self.current_limit < self.max_limit {
            self.current_limit + 1
        } else {
            self.current_limit as int
        }
    }

    /// Whether this completion moves the limit, in either direction; a
    /// move closes the observation window.
    pub open spec fn spec_limit_changes(self, outcome: RequestOutcome, rtt_micros: u64) -> bool {
        ||| self.spec_should_decrease(outcome, rtt_micros)
        ||| (self.in_flight >= self.current_limit && self.current_limit < self.max_limit)
    }

    /// The observed minimum after this sample: reset when the limit moves,
    /// otherwise folded in.
    pub open spec fn spec_next_rtt_min(self, outcome: RequestOutcome, rtt_micros: u64) -> Option<
        u64,
    > {
        if self.spec_limit_changes(outcome, rtt_micros) {
            None
        } else {
            match self.last_observed_rtt_min_micros {
                None => Some(rtt_micros),
                Some(m) => if rtt_micros < m {
                    Some(rtt_micros)
                } else {
                    Some(m)
                },
            }
        }
    }

    /// The RTT average after folding in this sample: seeded with the first
    /// sample, a weighted mean afterwards.
    pub open spec fn spec_next_rtt_ewma(self, rtt_micros: u64) -> int {
        match self.rtt_ewma_micros {
            None => rtt_micros as int,
            Some(e) => spec_ewma_step(self.settings.ewma_alpha_permille, rtt_micros, e),
        }
    }

    /// The deviation average after folding in this sample's absolute
    /// deviation from the previous mean; zero until a mean exists.
    pub open spec fn spec_next_rtt_deviation(self, rtt_micros: u64) -> int {
        match self.rtt_ewma_micros {
            None => self.rtt_deviation_ewma_micros as int,
            Some(e) => {
                let dev: u64 = if rtt_micros >= e {
                    (rtt_micros - e) as u64
                } else {
                    (e - rtt_micros) as u64
                };
                spec_ewma_step(self.settings.ewma_alpha_permille, dev, self.rtt_deviation_ewma_micros)
            },
        }
    }

    /// Fold one completed request into the controller: decide the next limit
    /// from the averages as they stood before the sample, then update the
    /// averages, the observed minimum and the back-pressure flag.
    pub fn adjust_to_response(
        &mut self,
        outcome: RequestOutcome,
        rtt_micros: u64,
        experienced_back_pressure: bool,
    )
        requires
            old(self).is_valid(),
        ensures
            final(self).is_valid(),
            final(self).current_limit == old(self).spec_next_limit(outcome, rtt_micros),
            final(self).rtt_ewma_micros == Some(
                old(self).spec_next_rtt_ewma(rtt_micros) as u64,
            ),
            0 <= old(self).spec_next_rtt_ewma(rtt_micros) <= u64::MAX,
            final(self).rtt_deviation_ewma_micros == old(self).spec_next_rtt_deviation(rtt_micros),
            final(self).in_flight == old(self).in_flight,
            final(self).settings == old(self).settings,
            final(self).max_limit == old(self).max_limit,
            final(self).last_observed_rtt_min_micros == old(self).spec_next_rtt_min(
                outcome,
                rtt_micros,
            ),
            final(self).had_back_pressure == (!old(self).spec_limit_changes(outcome, rtt_micros)
                && (old(self).had_back_pressure || experienced_back_pressure)),
    {
        let ghost pre = *self;

        // Decide on the limit first: all comparisons read the averages as
        // they stood before this sample.
        let overload: bool = match outcome {
            RequestOutcome::Timeout => true,
            RequestOutcome::RetriableError => true,
            _ => {
                match self.rtt_ewma_micros {
                    Some(e) => {
                        let scale: u64 = self.settings.rtt_deviation_scale_permille;
                        let dev: u64 = self.rtt_deviation_ewma_micros;
                        proof {
                            assert((scale as int) * (dev as int) <= 1_000_000 * (u64::MAX as int))
                                by (nonlinear_arith)
                                requires
                                    scale <= 1_000_000,
                                    dev <= u64::MAX,
                            ;
                        }
                        let lhs: u128 = (rtt_micros as u128) * 1000;
                        let rhs: u128 = (e as u128) * 1000 + (scale as u128) * (dev as u128);
                        lhs > rhs
                    },
                    None => false,
                }
            },
        };
        assert(overload == pre.spec_should_decrease(outcome, rtt_micros));

        if overload {
            let lim: u64 = self.current_limit;
            let ratio: u64 = self.settings.decrease_ratio_permille;
            proof {
                assert((lim as int) * (ratio as int) <= (u64::MAX as int) * 1000)
                    by (nonlinear_arith)
                    requires
                        lim <= u64::MAX,
                        ratio <= 1000,
                ;
            }
            let scaled_wide: u128 = ((lim as u128) * (ratio as u128)) / 1000;
            proof {
                lemma_decrease_le(pre.current_limit, pre.settings.decrease_ratio_permille);
                assert(scaled_wide == (pre.current_limit * pre.settings.decrease_ratio_permille)
                    / 1000);
            }
            let scaled: u64 = scaled_wide as u64;
            self.current_limit = if scaled < 1 {
                1
            } else {
                scaled
            };
            self.last_observed_rtt_min_micros = None;
            self.had_back_pressure = false;
        } else if self.in_flight >= self.current_limit && self.current_limit < self.max_limit {
            self.current_limit = self.current_limit + 1;
            self.last_observed_rtt_min_micros = None;
            self.had_back_pressure = false;
        } else {
            // The limit stands; the observation window keeps accumulating.
            self.last_observed_rtt_min_micros = match self.last_observed_rtt_min_micros {
                None => Some(rtt_micros),
                Some(m) => if rtt_micros < m {
                    Some(rtt_micros)
                } else {
                    Some(m)
                },
            };
            self.had_back_pressure = self.had_back_pressure || experienced_back_pressure;
        }

        // Fold the sample into the averages after the decision.
        match self.rtt_ewma_micros {
            None => {
                self.rtt_ewma_micros = Some(rtt_micros);
            },
            Some(e) => {
                let alpha: u64 = self.settings.ewma_alpha_permille;
                let dev: u64 = if rtt_micros >= e {
                    rtt_micros - e
                } else {
                    e - rtt_micros
                };
                let prev_dev: u64 = self.rtt_deviation_ewma_micros;
                proof {
                    lemma_ewma_step_bounded(alpha, rtt_micros, e);
                    lemma_ewma_step_bounded(alpha, dev, pre.rtt_deviation_ewma_micros);
                    assert((alpha as int) * (rtt_micros as int) + ((1000 - alpha) as int) * (
                    e as int) <= 2000 * (u64::MAX as int)) by (nonlinear_arith)
                        requires
                            alpha <= 1000,
                            rtt_micros <= u64::MAX,
                            e <= u64::MAX,
                    ;
                    assert((alpha as int) * (dev as int) + ((1000 - alpha) as int) * (
                    prev_dev as int) <= 2000 * (u64::MAX as int)) by (nonlinear_arith)
                        requires
                            alpha <= 1000,
                            dev <= u64::MAX,
                            prev_dev <= u64::MAX,
                    ;
                }
                let next_ewma: u128 = ((alpha as u128) * (rtt_micros as u128) + ((1000 - alpha)
                    as u128) * (e as u128)) / 1000;
                let next_dev: u128 = ((alpha as u128) * (dev as u128) + ((1000 - alpha) as u128)
                    * (prev_dev as u128)) / 1000;
                self.rtt_ewma_micros = Some(next_ewma as u64);
                self.rtt_deviation_ewma_micros = next_dev as u64;
            },
        }
    }
}

} // verus!
