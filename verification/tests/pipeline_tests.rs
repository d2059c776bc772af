use std::sync::Arc;

use sink_pipeline::acker::Acker;
use sink_pipeline::controller::{
    AdaptiveConcurrencyController, AdaptiveConcurrencySettings, RequestOutcome,
};
use sink_pipeline::finalization::{terminal_status, BatchNotifier, EventFinalizer, EventStatus};
use sink_pipeline::limit::AdaptiveConcurrencyLimit;
use sink_pipeline::metadata::{EventMetadata, WithMetadata};
use sink_pipeline::retries::{backoff_delay, FixedRetryPolicy, RetryAction, RetryDecision};

fn controller_with_limit(limit: u64, in_flight: u64) -> AdaptiveConcurrencyController {
    AdaptiveConcurrencyController {
        settings: AdaptiveConcurrencySettings::default(),
        current_limit: limit,
        in_flight,
        max_limit: 200,
        rtt_ewma_micros: None,
        rtt_deviation_ewma_micros: 0,
        last_observed_rtt_min_micros: None,
        had_back_pressure: false,
    }
}

#[test]
fn controller_decreases_on_timeout() {
    let mut c = controller_with_limit(8, 3);
    c.adjust_to_response(RequestOutcome::Timeout, 10_000, false);
    assert_eq!(c.current_limit, 7);
}

#[test]
fn controller_decrease_never_goes_below_one() {
    let mut c = controller_with_limit(1, 1);
    c.adjust_to_response(RequestOutcome::Timeout, 10_000, false);
    assert_eq!(c.current_limit, 1);
}

#[test]
fn controller_increases_at_saturation() {
    let mut c = controller_with_limit(4, 4);
    c.rtt_ewma_micros = Some(100_000);
    c.adjust_to_response(RequestOutcome::Success, 50_000, false);
    assert_eq!(c.current_limit, 5);
}

#[test]
fn controller_holds_limit_when_not_saturated() {
    let mut c = controller_with_limit(4, 2);
    c.rtt_ewma_micros = Some(100_000);
    c.adjust_to_response(RequestOutcome::Success, 50_000, false);
    assert_eq!(c.current_limit, 4);
}

#[test]
fn controller_decreases_on_congested_rtt() {
    // Threshold is 100ms + 2.5 * 10ms deviation = 125ms; 200ms is over it.
    let mut c = controller_with_limit(10, 2);
    c.rtt_ewma_micros = Some(100_000);
    c.rtt_deviation_ewma_micros = 10_000;
    c.adjust_to_response(RequestOutcome::Success, 200_000, false);
    assert_eq!(c.current_limit, 9);
}

#[test]
fn controller_ewma_update_is_exact() {
    // alpha 0.7: 0.7 * 50 + 0.3 * 100 = 65.
    let mut c = controller_with_limit(4, 0);
    c.rtt_ewma_micros = Some(100);
    c.adjust_to_response(RequestOutcome::Success, 50, false);
    assert_eq!(c.rtt_ewma_micros, Some(65));
}

#[test]
fn controller_seeds_ewma_with_first_sample() {
    let mut c = controller_with_limit(4, 0);
    c.adjust_to_response(RequestOutcome::Success, 123, false);
    assert_eq!(c.rtt_ewma_micros, Some(123));
}

#[test]
fn fixed_limiter_grants_up_to_capacity() {
    let mut l = AdaptiveConcurrencyLimit::new(Some(2), AdaptiveConcurrencySettings::default());
    assert!(l.poll_ready());
    assert!(l.try_acquire());
    assert!(l.try_acquire());
    assert!(!l.poll_ready());
    assert!(!l.try_acquire());
    l.release(RequestOutcome::Success, 1_000, false);
    assert!(l.try_acquire());
    assert_eq!(l.controller.current_limit, 2);
}

#[test]
fn adaptive_limiter_starts_probing_at_one() {
    let mut l = AdaptiveConcurrencyLimit::new(None, AdaptiveConcurrencySettings::default());
    assert_eq!(l.controller.current_limit, 1);
    assert!(l.try_acquire());
    assert!(!l.try_acquire());
    // Saturated and fast: the limit grows by one on completion.
    l.release(RequestOutcome::Success, 1_000, false);
    assert_eq!(l.controller.current_limit, 2);
    assert_eq!(l.controller.in_flight, 0);
}

#[test]
fn adaptive_limiter_keeps_excess_permits_on_decrease() {
    let mut l = AdaptiveConcurrencyLimit::new(None, AdaptiveConcurrencySettings::default());
    l.controller.current_limit = 8;
    for _ in 0..8 {
        assert!(l.try_acquire());
    }
    // A timeout lowers the limit below the outstanding permits; nothing is
    // revoked, the excess drains as requests complete.
    l.release(RequestOutcome::Timeout, 500_000, false);
    assert_eq!(l.controller.current_limit, 7);
    assert_eq!(l.controller.in_flight, 7);
    assert!(!l.try_acquire());
}

#[test]
fn acker_credits_contiguous_prefix_only() {
    let mut a = Acker::new();
    assert_eq!(a.submit(), 0);
    assert_eq!(a.submit(), 1);
    assert_eq!(a.submit(), 2);
    assert_eq!(a.acked(), 0);
    a.complete(1);
    assert_eq!(a.acked(), 0);
    a.complete(0);
    assert_eq!(a.acked(), 2);
    a.complete(2);
    assert_eq!(a.acked(), 3);
}

#[test]
fn acker_in_order_completion() {
    let mut a = Acker::new();
    for i in 0..5 {
        assert_eq!(a.submit(), i);
    }
    for i in 0..5 {
        a.complete(i);
        assert_eq!(a.acked(), i + 1);
    }
}

#[test]
fn retry_exhaustion_after_three_attempts() {
    // Three attempts in all, at roughly t = 0, 1, 3 seconds, then Failed.
    let mut p = FixedRetryPolicy::new(3, 1, 10, ());
    let always = RetryAction::Retry("transient".to_string());
    let d1 = p.decide(0, &always);
    assert_eq!(d1, RetryDecision::RetryAfter(1));
    let d2 = p.decide(0, &always);
    assert_eq!(d2, RetryDecision::RetryAfter(2));
    assert_eq!(p.elapsed_secs, 3);
    let d3 = p.decide(0, &always);
    assert_eq!(d3, RetryDecision::GiveUp);
    assert_eq!(terminal_status(&d3), Some(EventStatus::Failed));
}

#[test]
fn retry_budget_never_exceeds_max_plus_one_step() {
    let mut p = FixedRetryPolicy::new(100, 1, 10, ());
    let always = RetryAction::Retry("transient".to_string());
    let mut gave_up = false;
    for _ in 0..50 {
        match p.decide(0, &always) {
            RetryDecision::RetryAfter(_) => {
                assert!(p.elapsed_secs <= p.retry_max_duration_secs + p.last_backoff_secs);
            }
            RetryDecision::GiveUp => {
                gave_up = true;
                break;
            }
            other => panic!("unexpected decision: {:?}", other),
        }
    }
    assert!(gave_up);
    // Delays 1, 2, 4, 8 put the next attempt at t = 15 <= 10 + 8.
    assert_eq!(p.elapsed_secs, 15);
    assert_eq!(p.last_backoff_secs, 8);
}

#[test]
fn retry_gives_up_when_time_budget_spent() {
    let mut p = FixedRetryPolicy::new(100, 1, 10, ());
    let always = RetryAction::Retry("transient".to_string());
    let d = p.decide(10, &always);
    assert_eq!(d, RetryDecision::GiveUp);
}

#[test]
fn retry_terminal_classifications_pass_through() {
    let mut p = FixedRetryPolicy::new(3, 1, 10, ());
    let d = p.decide(0, &RetryAction::Successful);
    assert_eq!(d, RetryDecision::Success);
    assert_eq!(terminal_status(&d), Some(EventStatus::Delivered));
    let d = p.decide(0, &RetryAction::DontRetry("bad request".to_string()));
    assert_eq!(d, RetryDecision::Unretriable);
    assert_eq!(terminal_status(&d), Some(EventStatus::Errored));
    assert_eq!(p.attempts_made, 0);
    assert_eq!(terminal_status(&RetryDecision::RetryAfter(1)), None);
}

#[test]
fn backoff_doubles_then_caps() {
    let delays: Vec<u64> = (0..6).map(|a| backoff_delay(1, a, 10)).collect();
    assert_eq!(delays, vec![1, 2, 4, 8, 10, 10]);
    // Non-decreasing throughout.
    for w in delays.windows(2) {
        assert!(w[0] <= w[1]);
    }
    assert_eq!(backoff_delay(3, 2, 100), 12);
}

#[test]
fn finalizer_fan_out_resolves_each_exactly_once() {
    let batch = BatchNotifier { sequence: 0 };
    let mut m = EventMetadata::default().with_finalizer(EventFinalizer::new(&batch));
    m.add_finalizer(EventFinalizer::new(&batch));
    m.update_status(EventStatus::Delivered);
    assert_eq!(m.finalizers().len(), 2);
    for i in 0..2 {
        assert_eq!(m.finalizers().get(i).status(), Some(EventStatus::Delivered));
    }
    // A later broadcast changes nothing: the first terminal status sticks.
    m.update_status(EventStatus::Failed);
    for i in 0..2 {
        assert_eq!(m.finalizers().get(i).status(), Some(EventStatus::Delivered));
    }
    m.update_sources();
}

#[test]
fn finalizer_first_status_sticks() {
    let batch = BatchNotifier { sequence: 3 };
    let mut f = EventFinalizer::new(&batch);
    assert_eq!(f.status(), None);
    f.update_status(EventStatus::Errored);
    assert_eq!(f.status(), Some(EventStatus::Errored));
    f.update_status(EventStatus::Delivered);
    assert_eq!(f.status(), Some(EventStatus::Errored));
}

#[test]
fn merge_metadata_preserves_key() {
    let batch = BatchNotifier { sequence: 0 };
    let key = Arc::new("SECRET-REDACTED".to_string());

    let mut left = EventMetadata::default().with_finalizer(EventFinalizer::new(&batch));
    let mut right = EventMetadata::default().with_finalizer(EventFinalizer::new(&batch));
    right.set_datadog_api_key(Some(Arc::clone(&key)));

    left.merge(right.clone());
    assert_eq!(left.datadog_api_key().as_deref(), Some(&*key));

    // The reverse merge keeps the key already present.
    let other_key = Arc::new("other".to_string());
    let mut reverse = EventMetadata::default();
    reverse.set_datadog_api_key(Some(Arc::clone(&key)));
    let mut incoming = EventMetadata::default();
    incoming.set_datadog_api_key(Some(other_key));
    reverse.merge(incoming);
    assert_eq!(reverse.datadog_api_key().as_deref(), Some(&*key));
}

#[test]
fn with_metadata_into_converts_payload_and_keeps_metadata() {
    let mut m = EventMetadata::default();
    m.set_datadog_api_key(Some(Arc::new("k".to_string())));
    let wrapped = WithMetadata { data: 10u32, metadata: m };
    let converted: WithMetadata<u64> = wrapped.into();
    assert_eq!(converted.data, 10u64);
    assert_eq!(
        converted.metadata.datadog_api_key().as_deref().map(|s| s.as_str()),
        Some("k")
    );
}
