use vstd::prelude::*;
use std::sync::Arc;
use crate::finalization::{BatchNotifier, EventFinalizer, EventFinalizers, EventStatus};

verus! {

/// The metadata sidecar carried beside every event body: an optional
/// shared API-key handle, set once and then only read, and the event's
/// finalizers.
#[derive(Clone, Debug)]
pub struct EventMetadata {
    datadog_api_key: Option<Arc<String>>,
    finalizers: EventFinalizers,
}

impl EventMetadata {
    /// The shared API-key handle, if one was set.
    pub closed spec fn spec_api_key(self) -> Option<Arc<String>> {
        self.datadog_api_key
    }

    /// The attached finalizers, in attachment order.
    pub closed spec fn spec_finalizers(self) -> Seq<EventFinalizer> {
        self.finalizers@
    }

    pub fn datadog_api_key(&self) -> (r: &Option<Arc<String>>)
        ensures
            *r == self.spec_api_key(),
    {
        &self.datadog_api_key
    }

    pub fn finalizers(&self) -> (r: &EventFinalizers)
        ensures
            r@ == self.spec_finalizers(),
    {
        &self.finalizers
    }

    pub fn set_datadog_api_key(&mut self, key: Option<Arc<String>>)
        ensures
            final(self).spec_api_key() == key,
            final(self).spec_finalizers() == old(self).spec_finalizers(),
    {
        self.datadog_api_key = key;
    }

    /// Replace the finalizers array with just the given one.
    pub fn with_finalizer(self, finalizer: EventFinalizer) -> (r: Self)
        ensures
            r.spec_finalizers() =~= seq![finalizer],
            r.spec_api_key() == self.spec_api_key(),
    {
        EventMetadata {
            datadog_api_key: self.datadog_api_key,
            finalizers: EventFinalizers::new(finalizer),
        }
    }

    /// Replace the finalizers with a single fresh one tied to the given
    /// batch notifier.
    pub fn with_batch_notifier(self, batch: &BatchNotifier) -> (r: Self)
        ensures
            r.spec_finalizers().len() == 1,
            (r.spec_finalizers()[0].spec_status() is None),
            r.spec_finalizers()[0].spec_batch() == *batch,
            r.spec_api_key() == self.spec_api_key(),
    {
        self.with_finalizer(EventFinalizer::new(batch))
    }

    /// Merge another event's metadata into this one: the finalizer lists
    /// concatenate, and an API key already set here is preserved — only a
    /// missing key is taken from the other side.
    pub fn merge(&mut self, other: Self)
        requires
            old(self).spec_finalizers().len() + other.spec_finalizers().len() <= usize::MAX,
        ensures
            final(self).spec_finalizers() == old(self).spec_finalizers()
                + other.spec_finalizers(),
            final(self).spec_api_key() == (match old(self).spec_api_key() {
                Some(k) => Some(k),
                None => other.spec_api_key(),
            }),
    {
        self.finalizers.merge(other.finalizers);
        if self.datadog_api_key.is_none() {
            self.datadog_api_key = other.datadog_api_key;
        }
    }

    /// Broadcast one terminal status to every attached finalizer; each
    /// still-unresolved finalizer resolves to it, resolved ones keep
    /// what they have.
    pub fn update_status(&mut self, status: EventStatus)
        ensures
            final(self).spec_finalizers().len() == old(self).spec_finalizers().len(),
            forall|i: int|
                0 <= i < old(self).spec_finalizers().len() ==> #[trigger] final(self).spec_finalizers()[i].spec_status() == (match (
                old(self).spec_finalizers()[i].spec_status()) {
                    None => Some(status),
                    Some(s) => Some(s),
                }),
            final(self).spec_api_key() == old(self).spec_api_key(),
    {
        self.finalizers.update_status(status);
    }

    /// Pass every finalizer's status on to its source.
    pub fn update_sources(&mut self)
        ensures
            final(self).spec_finalizers().len() == old(self).spec_finalizers().len(),
            forall|i: int|
                0 <= i < old(self).spec_finalizers().len() ==> #[trigger] final(self).spec_finalizers()[i].spec_sources_updated(),
            final(self).spec_api_key() == old(self).spec_api_key(),
    {
        self.finalizers.update_sources();
    }

    /// Attach one more finalizer.
    pub fn add_finalizer(&mut self, finalizer: EventFinalizer)
        requires
            old(self).spec_finalizers().len() < usize::MAX,
        ensures
            final(self).spec_finalizers() == old(self).spec_finalizers().push(finalizer),
            final(self).spec_api_key() == old(self).spec_api_key(),
    {
        self.finalizers.add(finalizer);
    }

    /// Metadata never distinguishes events: it is a sidecar, not event
    /// data, so any two sidecars compare as equal event data.
    pub fn event_data_eq(&self, _other: &Self) -> (r: bool)
        ensures
            r,
    {
        true
    }
}

impl Default for EventMetadata {
    /// No API key, no finalizers.
    fn default() -> (r: Self)
        ensures
            (r.spec_api_key() is None),
            r.spec_finalizers() == Seq::<EventFinalizer>::empty(),
    {
        EventMetadata { datadog_api_key: None, finalizers: EventFinalizers::empty() }
    }
}

/// A wrapper attaching `EventMetadata` to any other payload, used by
/// conversion paths between event shapes.
#[derive(Clone, Debug)]
pub struct WithMetadata<T> {
    /// The data item being wrapped.
    pub data: T,
    /// The metadata sidecar.
    pub metadata: EventMetadata,
}

impl<T> WithMetadata<T> {
    /// Convert the wrapped payload to another type that knows how to come
    /// from it, carrying the metadata across unchanged.
    pub fn into<T1: From<T>>(self) -> (r: WithMetadata<T1>)
        ensures
            r.metadata == self.metadata,
            <T1 as vstd::std_specs::convert::FromSpec<T>>::obeys_from_spec() ==> r.data == <
            T1 as vstd::std_specs::convert::FromSpec<T>>::from_spec(self.data),
    {
        WithMetadata { data: T1::from(self.data), metadata: self.metadata }
    }
}

} // verus!
