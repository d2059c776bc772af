use vstd::prelude::*;
use crate::retries::RetryDecision;

verus! {

/// The delivery status a finalizer reports to its source.
#[derive(Clone, Copy, Debug, PartialEq, Eq, Structural)]
pub enum EventStatus {
    /// The downstream accepted the events; the source may ack.
    Delivered,
    /// A terminal error; the source may re-deliver or dead-letter.
    Errored,
    /// The retry budget ran out; the source may re-deliver or dead-letter.
    Failed,
    /// Intentionally discarded; no redelivery.
    Dropped,
    /// Durably recorded short of delivery.
    Recorded,
}

/// A shared handle standing for one upstream batch awaiting
/// acknowledgement; the batch owner keeps the delivery book-keeping.
#[derive(Clone, Copy, Debug, PartialEq, Eq, Structural)]
pub struct BatchNotifier {
    /// The sequence number the batch holds with the acker.
    pub sequence: usize,
}

/// One event's acknowledgement handle: it receives exactly one terminal
/// status, and passes it to the source it came from.
#[derive(Clone, Copy, Debug, PartialEq, Eq, Structural)]
pub struct EventFinalizer {
    status: Option<EventStatus>,
    sources_updated: bool,
    batch: BatchNotifier,
}

impl EventFinalizer {
    /// The terminal status, once one has arrived.
    pub closed spec fn spec_status(self) -> Option<EventStatus> {
        self.status
    }

    /// Whether the status has been passed on to the source.
    pub closed spec fn spec_sources_updated(self) -> bool {
        self.sources_updated
    }

    /// The batch this finalizer acknowledges into.
    pub closed spec fn spec_batch(self) -> BatchNotifier {
        self.batch
    }

    /// A fresh, unresolved finalizer for the given batch.
    pub fn new(batch: &BatchNotifier) -> (r: Self)
        ensures
            (r.spec_status() is None),
            !r.spec_sources_updated(),
            r.spec_batch() == *batch,
    {
        EventFinalizer { status: None, sources_updated: false, batch: *batch }
    }

    pub fn status(&self) -> (r: Option<EventStatus>)
        ensures
            r == self.spec_status(),
    {
        self.status
    }

    /// Resolve this finalizer: the first terminal status sticks, a later
    /// one changes nothing.
    pub fn update_status(&mut self, status: EventStatus)
        ensures
            final(self).spec_status() == (match old(self).spec_status() {
                None => Some(status),
                Some(s) => Some(s),
            }),
            final(self).spec_sources_updated() == old(self).spec_sources_updated(),
    {
        if self.status.is_none() {
            self.status = Some(status);
        }
    }

    /// Pass the resolved status on to the source.
    pub fn update_sources(&mut self)
        ensures
            final(self).spec_status() == old(self).spec_status(),
            final(self).spec_sources_updated(),
    {
        self.sources_updated = true;
    }
}

/// The finalizers of one event or one merged batch, in attachment order.
#[derive(Clone, Debug)]
pub struct EventFinalizers(Vec<EventFinalizer>);

impl EventFinalizers {
    pub closed spec fn view(self) -> Seq<EventFinalizer> {
        self.0@
    }

    /// No finalizers attached.
    pub fn empty() -> (r: Self)
        ensures
            r@ == Seq::<EventFinalizer>::empty(),
    {
        EventFinalizers(Vec::new())
    }

    /// Exactly the one given finalizer.
    pub fn new(finalizer: EventFinalizer) -> (r: Self)
        ensures
            r@ =~= seq![finalizer],
    {
        let mut v: Vec<EventFinalizer> = Vec::new();
        v.push(finalizer);
        EventFinalizers(v)
    }

    pub fn len(&self) -> (r: usize)
        ensures
            r == self@.len(),
    {
        self.0.len()
    }

    pub fn get(&self, i: usize) -> (r: &EventFinalizer)
        requires
            i < self@.len(),
        ensures
            *r == self@[i as int],
    {
        &self.0[i]
    }

    /// Attach one more finalizer at the end.
    pub fn add(&mut self, finalizer: EventFinalizer)
        requires
            old(self)@.len() < usize::MAX,
        ensures
            final(self)@ == old(self)@.push(finalizer),
    {
        self.0.push(finalizer);
    }

    /// Combine with the finalizers of another event: the result is the
    /// concatenation, ours first.
    pub fn merge(&mut self, other: EventFinalizers)
        requires
            old(self)@.len() + other@.len() <= usize::MAX,
        ensures
            final(self)@ == old(self)@ + other@,
    {
        let mut incoming: Vec<EventFinalizer> = other.0;
        let mut i: usize = 0;
        let n: usize = incoming.len();
        while i < n
            invariant
                i <= n,
                n == incoming@.len(),
                incoming@ == other@,
                self.0@ == old(self)@ + other@.take(i as int),
                old(self)@.len() + other@.len() <= usize::MAX,
            decreases n - i,
        {
            self.0.push(incoming[i]);
            proof {
                assert(self.0@ =~= old(self)@ + other@.take(i + 1));
            }
            i = i + 1;
        }
        proof {
            assert(self.0@ =~= old(self)@ + other@);
        }
    }

    /// Broadcast one terminal status: every still-unresolved finalizer
    /// resolves to it, every already-resolved one keeps what it has.
    pub fn update_status(&mut self, status: EventStatus)
        ensures
            final(self)@.len() == old(self)@.len(),
            forall|i: int|
                0 <= i < old(self)@.len() ==> #[trigger] final(self)@[i].spec_status() == (
                match old(self)@[i].spec_status() {
                    None => Some(status),
                    Some(s) => Some(s),
                }),
            forall|i: int|
                0 <= i < old(self)@.len() ==> #[trigger] final(self)@[i].spec_sources_updated()
                    == old(self)@[i].spec_sources_updated(),
    {
        let n: usize = self.0.len();
        let mut i: usize = 0;
        while i < n
            invariant
                i <= n,
                n == self.0@.len(),
                self.0@.len() == old(self)@.len(),
                forall|j: int|
                    i <= j < n ==> #[trigger] self.0@[j] == old(self)@[j],
                forall|j: int|
                    0 <= j < i ==> #[trigger] self.0@[j].spec_status() == (match old(
                        self,
                    )@[j].spec_status() {
                        None => Some(status),
                        Some(s) => Some(s),
                    }),
                forall|j: int|
                    0 <= j < i ==> #[trigger] self.0@[j].spec_sources_updated() == old(
                        self,
                    )@[j].spec_sources_updated(),
            decreases n - i,
        {
            self.0[i].update_status(status);
            i = i + 1;
        }
    }

    /// Pass every finalizer's status on to its source.
    pub fn update_sources(&mut self)
        ensures
            final(self)@.len() == old(self)@.len(),
            forall|i: int|
                0 <= i < old(self)@.len() ==> #[trigger] final(self)@[i].spec_status() == old(
                    self,
                )@[i].spec_status(),
            forall|i: int|
                0 <= i < old(self)@.len() ==> #[trigger] final(self)@[i].spec_sources_updated(),
    {
        let n: usize = self.0.len();
        let mut i: usize = 0;
        while i < n
            invariant
                i <= n,
                n == self.0@.len(),
                self.0@.len() == old(self)@.len(),
                forall|j: int|
                    i <= j < n ==> #[trigger] self.0@[j] == old(self)@[j],
                forall|j: int|
                    0 <= j < i ==> #[trigger] self.0@[j].spec_status() == old(
                        self,
                    )@[j].spec_status(),
                forall|j: int| 0 <= j < i ==> #[trigger] self.0@[j].spec_sources_updated(),
            decreases n - i,
        {
            self.0[i].update_sources();
            i = i + 1;
        }
    }
}

/// The terminal status owed after the retry stage's last word on a
/// request: delivery on success, `Errored` for a terminal response,
/// `Failed` for an exhausted retry budget; a scheduled retry owes none yet.
pub fn terminal_status(decision: &RetryDecision) -> (r: Option<EventStatus>)
    ensures
        r == (match decision {
            RetryDecision::Success => Some(EventStatus::Delivered),
            RetryDecision::Unretriable => Some(EventStatus::Errored),
            RetryDecision::GiveUp => Some(EventStatus::Failed),
            RetryDecision::RetryAfter(_) => None::<EventStatus>,
        }),
{
    match decision {
        RetryDecision::Success => Some(EventStatus::Delivered),
        RetryDecision::Unretriable => Some(EventStatus::Errored),
        RetryDecision::GiveUp => Some(EventStatus::Failed),
        RetryDecision::RetryAfter(_) => None,
    }
}

/// Finalizer fan-out: one broadcast hands every unresolved finalizer
/// exactly the broadcast status, and a second broadcast changes no
/// finalizer that the first one resolved — so each finalizer receives
/// exactly one terminal status.
pub proof fn lemma_finalizer_fan_out(
    before: Seq<EventFinalizer>,
    after_first: Seq<EventFinalizer>,
    after_second: Seq<EventFinalizer>,
    s1: EventStatus,
    s2: EventStatus,
)
    requires
        after_first.len() == before.len(),
        forall|i: int|
            0 <= i < before.len() ==> #[trigger] after_first[i].spec_status() == (match (
            before[i].spec_status()) {
                None => Some(s1),
                Some(s) => Some(s),
            }),
        after_second.len() == after_first.len(),
        forall|i: int|
            0 <= i < after_first.len() ==> #[trigger] after_second[i].spec_status() == (
            match after_first[i].spec_status() {
                None => Some(s2),
                Some(s) => Some(s),
            }),
    ensures
        forall|i: int|
            0 <= i < before.len() && before[i].spec_status() is None
                ==> #[trigger] after_first[i].spec_status() == Some(s1),
        forall|i: int|
            0 <= i < before.len() ==> #[trigger] after_second[i].spec_status()
                == after_first[i].spec_status(),
{
}

} // verus!
