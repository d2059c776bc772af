use vstd::prelude::*;
use crate::controller::{
    AdaptiveConcurrencyController, AdaptiveConcurrencySettings, RequestOutcome,
    MAX_CONCURRENCY_LIMIT_DEFAULT,
};

verus! {

/// The concurrency-limit stage: a semaphore-like permit set whose capacity
/// follows the adaptive controller's limit, or stands still for a fixed cap.
/// A request holds one permit for the duration of one attempt; lowering the
/// limit revokes nothing, the excess drains as requests complete.
#[derive(Clone, Copy, Debug)]
pub struct AdaptiveConcurrencyLimit {
    pub controller: AdaptiveConcurrencyController,
    /// Whether completions feed the controller; a fixed cap ignores them.
    pub adaptive: bool,
}

impl AdaptiveConcurrencyLimit {
    pub open spec fn is_valid(self) -> bool {
        self.controller.is_valid()
    }

    /// Build the stage from the resolved concurrency setting: a fixed cap
    /// for `Some(n)`, the adaptive controller for `None`.
    pub fn new(concurrency: Option<usize>, settings: AdaptiveConcurrencySettings) -> (r: Self)
        requires
            settings.is_valid(),
            (match concurrency {
                Some(n) => n >= 1,
                None => true,
            }),
        ensures
            r.is_valid(),
            r.controller.in_flight == 0,
            (match concurrency {
                Some(n) => !r.adaptive && r.controller.current_limit == n
                    && r.controller.max_limit == n,
                None => r.adaptive && r.controller.current_limit == 1
                    && r.controller.max_limit == MAX_CONCURRENCY_LIMIT_DEFAULT,
            }),
    {
        match concurrency {
            Some(n) => AdaptiveConcurrencyLimit {
                controller: AdaptiveConcurrencyController::new_fixed(n as u64),
                adaptive: false,
            },
            None => AdaptiveConcurrencyLimit {
                controller: AdaptiveConcurrencyController::new(
                    settings,
                    MAX_CONCURRENCY_LIMIT_DEFAULT,
                ),
                adaptive: true,
            },
        }
    }

    /// Whether a permit is free right now.
    pub open spec fn spec_available(self) -> bool {
        self.controller.in_flight < self.controller.current_limit
    }

    /// The readiness contract: not ready exactly when every permit of the
    /// current limit is out.
    pub fn poll_ready(&self) -> (r: bool)
        ensures
            r == self.spec_available(),
    {
        self.controller.in_flight < self.controller.current_limit
    }

    /// Take one permit. A permit is granted exactly when the count of
    /// outstanding permits is below the current limit, so an acquisition
    /// never pushes the count past the limit that stood when it was granted.
    pub fn try_acquire(&mut self) -> (granted: bool)
        requires
            old(self).is_valid(),
        ensures
            final(self).is_valid(),
            granted == old(self).spec_available(),
            granted ==> final(self).controller.in_flight == old(self).controller.in_flight + 1,
            granted ==> final(self).controller.in_flight <= final(self).controller.current_limit,
            !granted ==> *final(self) == *old(self),
            final(self).controller == (AdaptiveConcurrencyController {
                in_flight: final(self).controller.in_flight,
                ..old(self).controller
            }),
            final(self).adaptive == old(self).adaptive,
    {
        if self.controller.in_flight < self.controller.current_limit {
            self.controller.in_flight = self.controller.in_flight + 1;
            true
        } else {
            false
        }
    }

    /// Return one permit and deliver the completion sample to the
    /// controller. The permit count always comes back down by one — also
    /// when the limit has meanwhile dropped below it — and the limit moves
    /// only by the controller's decision rule, never by revocation.
    pub fn release(
        &mut self,
        outcome: RequestOutcome,
        rtt_micros: u64,
        experienced_back_pressure: bool,
    )
        requires
            old(self).is_valid(),
            old(self).controller.in_flight >= 1,
        ensures
            final(self).is_valid(),
            final(self).controller.in_flight == old(self).controller.in_flight - 1,
            final(self).adaptive == old(self).adaptive,
            final(self).controller.settings == old(self).controller.settings,
            final(self).controller.max_limit == old(self).controller.max_limit,
            old(self).adaptive ==> final(self).controller.current_limit == old(
                self,
            ).controller.spec_next_limit(outcome, rtt_micros),
            old(self).adaptive ==> final(self).controller.rtt_ewma_micros == Some(
                old(self).controller.spec_next_rtt_ewma(rtt_micros) as u64,
            ),
            old(self).adaptive ==> final(self).controller.rtt_deviation_ewma_micros == old(
                self,
            ).controller.spec_next_rtt_deviation(rtt_micros),
            old(self).adaptive ==> final(self).controller.last_observed_rtt_min_micros == old(
                self,
            ).controller.spec_next_rtt_min(outcome, rtt_micros),
            old(self).adaptive ==> final(self).controller.had_back_pressure == (!old(
                self,
            ).controller.spec_limit_changes(outcome, rtt_micros) && (old(
                self,
            ).controller.had_back_pressure || experienced_back_pressure)),
            !old(self).adaptive ==> final(self).controller == (AdaptiveConcurrencyController {
                in_flight: final(self).controller.in_flight,
                ..old(self).controller
            }),
    {
        if self.adaptive {
            self.controller.adjust_to_response(outcome, rtt_micros, experienced_back_pressure);
        }
        self.controller.in_flight = self.controller.in_flight - 1;
    }
}

/// Permit conservation: a permit is granted only from a state with a free
/// slot, so the outstanding count right after any grant stays within the
/// limit that stood when the permit was handed out; and since the
/// controller's decisions move only the limit, never the permit count, a
/// lowered limit revokes nothing — the excess drains through `release`.
pub proof fn lemma_permit_conservation(l: AdaptiveConcurrencyLimit)
    requires
        l.is_valid(),
        l.spec_available(),
    ensures
        l.controller.in_flight + 1 <= l.controller.current_limit,
{
}

} // verus!
