//! The counters that a client reports to, and what one finished call adds to
//! them.

use std::collections::HashMap;
use std::convert::Infallible;
use std::time::Duration;

use prometheus::{CounterVec, IntCounterVec};
use vstd::prelude::*;

use crate::labels::{LabelSet, RequestLabels};

verus! {

/// A handle to a labeled counter of whole numbers, kept by the metrics
/// backend and shared by all clones of the handle.
///
/// Verus sees nothing inside: the counter's samples belong to the backend.
#[verifier::external_body]
pub struct RequestCounter(pub IntCounterVec);

/// A handle to a labeled counter of seconds, kept by the metrics backend and
/// shared by all clones of the handle.
///
/// Verus sees nothing inside: the counter's samples belong to the backend.
#[verifier::external_body]
pub struct DurationCounter(pub CounterVec);

/// Calls `IntCounterVec::clone`, which hands out another handle to the same
/// counter. Nothing is claimed of it.
#[verifier::external_body]
fn share_request_counter(counter: &RequestCounter) -> (handle: RequestCounter) {
    RequestCounter(counter.0.clone())
}

/// Calls `CounterVec::clone`, which hands out another handle to the same
/// counter. Nothing is claimed of it.
#[verifier::external_body]
fn share_duration_counter(counter: &DurationCounter) -> (handle: DurationCounter) {
    DurationCounter(counter.0.clone())
}

/// Calls `IntCounterVec::get_metric_with` with the labels as a map from name
/// to value and, where the backend returns a counter for them,
/// `IntCounter::inc_by` on it with `amount`. Where the backend refuses the
/// labels, nothing is recorded. Nothing is claimed of the counter's samples:
/// they are shared state of the backend.
#[verifier::external_body]
fn add_requests(counter: &RequestCounter, labels: &[(&str, &str); 4], amount: u64) {
    let map: HashMap<&str, &str> = labels.iter().copied().collect();
    if let Ok(metric) = counter.0.get_metric_with(&map) {
        metric.inc_by(amount);
    }
}

/// Calls `CounterVec::get_metric_with` with the labels as a map from name to
/// value and, where the backend returns a counter for them,
/// `Counter::inc_by` on it with the elapsed time in seconds
/// (`Duration::as_secs_f64`, which is never negative). Where the backend
/// refuses the labels, nothing is recorded. Nothing is claimed of the
/// counter's samples: they are shared state of the backend.
#[verifier::external_body]
fn add_request_seconds(counter: &DurationCounter, labels: &[(&str, &str); 4], elapsed: Duration) {
    let map: HashMap<&str, &str> = labels.iter().copied().collect();
    if let Ok(metric) = counter.0.get_metric_with(&map) {
        metric.inc_by(elapsed.as_secs_f64());
    }
}

/// What one finished call adds to the metrics: under one label set, a number
/// of requests and a time spent.
pub struct MetricUpdates<'a> {
    /// The label set that both counters are updated under.
    pub labels: RequestLabels<'a>,
    /// By how much the request count goes up, where it does.
    pub count: Option<u64>,
    /// By how much time the seconds spent go up, where they do.
    pub duration: Option<Duration>,
}

/// `MetricUpdates` with the label set as characters.
pub ghost struct MetricUpdatesView {
    pub labels: LabelSet,
    pub count: Option<u64>,
    pub duration: Option<Duration>,
}

impl<'a> View for MetricUpdates<'a> {
    type V = MetricUpdatesView;

    open spec fn view(&self) -> MetricUpdatesView {
        MetricUpdatesView { labels: self.labels@, count: self.count, duration: self.duration }
    }
}

/// What a call with the given label set that took `elapsed` adds to a
/// container that has, or has not, each of the two counters: one request
/// where requests are counted, `elapsed` where they are timed, both under
/// that label set, and nothing else.
pub open spec fn metric_updates_of(
    counts_requests: bool,
    times_requests: bool,
    labels: LabelSet,
    elapsed: Duration,
) -> MetricUpdatesView {
    MetricUpdatesView {
        labels,
        count: if counts_requests {
            Some(1u64)
        } else {
            None
        },
        duration: if times_requests {
            Some(elapsed)
        } else {
            None
        },
    }
}

/// Container for all the relevant rpc client metrics. Each of the two
/// counters may be missing.
pub struct JsonRpcClientMetrics {
    /// Total number of requests made to this client, by `provider_node`,
    /// `chain`, `method` and `status`.
    request_count: Option<RequestCounter>,
    /// Total number of seconds spent making requests, by the same labels.
    request_duration_seconds: Option<DurationCounter>,
}

impl Clone for JsonRpcClientMetrics {
    /// The clone reports to the same counters.
    fn clone(&self) -> (copy: Self)
        ensures
            copy.counts_requests() == self.counts_requests(),
            copy.times_requests() == self.times_requests(),
    {
        JsonRpcClientMetrics {
            request_count: match &self.request_count {
                Some(counter) => Some(share_request_counter(counter)),
                None => None,
            },
            request_duration_seconds: match &self.request_duration_seconds {
                Some(counter) => Some(share_duration_counter(counter)),
                None => None,
            },
        }
    }
}

impl JsonRpcClientMetrics {
    /// Whether requests are counted.
    pub closed spec fn counts_requests(&self) -> bool {
        self.request_count is Some
    }

    /// Whether requests are timed.
    pub closed spec fn times_requests(&self) -> bool {
        self.request_duration_seconds is Some
    }

    /// Whether the request counter is configured.
    pub fn has_request_count(&self) -> (configured: bool)
        ensures
            configured == self.counts_requests(),
    {
        self.request_count.is_some()
    }

    /// Whether the duration counter is configured.
    pub fn has_request_duration_seconds(&self) -> (configured: bool)
        ensures
            configured == self.times_requests(),
    {
        self.request_duration_seconds.is_some()
    }

    /// What a finished call with these labels, which took `elapsed`, adds to
    /// this container's counters.
    pub fn updates_for<'a>(&self, labels: RequestLabels<'a>, elapsed: Duration) -> (updates:
        MetricUpdates<'a>)
        ensures
            updates@ == metric_updates_of(
                self.counts_requests(),
                self.times_requests(),
                labels@,
                elapsed,
            ),
    {
        MetricUpdates {
            labels,
            count: if self.request_count.is_some() {
                Some(1)
            } else {
                None
            },
            duration: if self.request_duration_seconds.is_some() {
                Some(elapsed)
            } else {
                None
            },
        }
    }

    /// Hands each update to its counter. An update for a counter that is
    /// not configured is skipped, and so is one that the backend refuses.
    pub fn apply(&self, updates: &MetricUpdates<'_>) {
        let pairs = updates.labels.pairs();
        if let Some(counter) = &self.request_count {
            if let Some(amount) = updates.count {
                add_requests(counter, &pairs, amount);
            }
        }
        if let Some(counter) = &self.request_duration_seconds {
            if let Some(elapsed) = updates.duration {
                add_request_seconds(counter, &pairs, elapsed);
            }
        }
    }
}

/// Why `JsonRpcClientMetricsBuilder::build` could not build. Both counters
/// are optional, so nothing can go wrong and this type has no value.
pub type JsonRpcClientMetricsBuilderError = Infallible;

/// Builder for `JsonRpcClientMetrics`. Each counter that is not set is left
/// out of the container.
pub struct JsonRpcClientMetricsBuilder {
    request_count: Option<RequestCounter>,
    request_duration_seconds: Option<DurationCounter>,
}

impl JsonRpcClientMetricsBuilder {
    /// The request counter that was set, if any.
    pub closed spec fn request_counter(&self) -> Option<RequestCounter> {
        self.request_count
    }

    /// The duration counter that was set, if any.
    pub closed spec fn duration_counter(&self) -> Option<DurationCounter> {
        self.request_duration_seconds
    }

    /// Whether a request counter was set.
    pub open spec fn counts_requests(&self) -> bool {
        self.request_counter() is Some
    }

    /// Whether a duration counter was set.
    pub open spec fn times_requests(&self) -> bool {
        self.duration_counter() is Some
    }

    /// Sets the counter of requests made to the client: `value` takes the
    /// place of any request counter set before, and the duration counter
    /// stays as it was. The builder is handed back for the next call, and
    /// is in the end whatever that reference is left as.
    pub fn request_count(&mut self, value: RequestCounter) -> (builder: &mut Self)
        ensures
            builder.request_counter() == Some(value),
            builder.duration_counter() == old(self).duration_counter(),
            *final(self) == *final(builder),
    {
        self.request_count = Some(value);
        self
    }

    /// Sets the counter of seconds spent making requests: `value` takes the
    /// place of any duration counter set before, and the request counter
    /// stays as it was. The builder is handed back for the next call, and
    /// is in the end whatever that reference is left as.
    pub fn request_duration_seconds(&mut self, value: DurationCounter) -> (builder: &mut Self)
        ensures
            builder.duration_counter() == Some(value),
            builder.request_counter() == old(self).request_counter(),
            *final(self) == *final(builder),
    {
        self.request_duration_seconds = Some(value);
        self
    }

    /// Builds the container. This never fails: both counters are optional.
    pub fn build(&self) -> (built: Result<JsonRpcClientMetrics, JsonRpcClientMetricsBuilderError>)
        ensures
            built matches Ok(metrics) && metrics.counts_requests() == self.counts_requests()
                && metrics.times_requests() == self.times_requests(),
    {
        Ok(
            JsonRpcClientMetrics {
                request_count: match &self.request_count {
                    Some(counter) => Some(share_request_counter(counter)),
                    None => None,
                },
                request_duration_seconds: match &self.request_duration_seconds {
                    Some(counter) => Some(share_duration_counter(counter)),
                    None => None,
                },
            },
        )
    }
}

impl Default for JsonRpcClientMetricsBuilder {
    /// A builder with no counter set.
    fn default() -> (builder: Self)
        ensures
            !builder.counts_requests(),
            !builder.times_requests(),
    {
        JsonRpcClientMetricsBuilder { request_count: None, request_duration_seconds: None }
    }
}

} // verus!
