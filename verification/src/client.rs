//! A JSON-RPC client together with the metrics it reports to.
//!
//! The transport call itself is the caller's: it is asynchronous, and its
//! result is handed back here. Everything around that call is in this
//! module: the clock is read before and after it, the outcome is recorded
//! under the labels of the client and of the call, and the transport's
//! result is returned as it came.

use std::time::{Duration, Instant};

use vstd::prelude::*;

use crate::config::{
    chain_name_of, node_host_of, PrometheusJsonRpcClientConfig, PrometheusJsonRpcClientConfigExt,
};
use crate::labels::{request_labels_of, status_of, RequestLabels};
use crate::metrics::{metric_updates_of, JsonRpcClientMetrics, MetricUpdates, MetricUpdatesView};

verus! {

/// A point in time of the monotonic clock, opaque to Verus.
#[verifier::external_type_specification]
#[verifier::external_body]
pub struct ExInstant(Instant);

/// `Instant::now` reads the monotonic clock. Nothing is claimed of the
/// instant it returns.
pub assume_specification[ Instant::now ]() -> (now: Instant)
;

/// `Instant::saturating_duration_since` returns the time that has passed
/// from `earlier` to `now`, or zero where `earlier` is the later of the two.
/// Nothing is claimed of it but what its type says: a `Duration` is never
/// negative.
pub assume_specification[ Instant::saturating_duration_since ](
    now: &Instant,
    earlier: Instant,
) -> (elapsed: Duration)
;

/// A request that was handed to the transport and has not come back yet:
/// its method, and when it was started.
pub struct PendingRequest<'a> {
    method: &'a str,
    started: Instant,
}

impl<'a> PendingRequest<'a> {
    /// The method that was called.
    pub closed spec fn method_called(&self) -> Seq<char> {
        self.method@
    }

    /// The method that was called.
    pub fn method(&self) -> (method: &'a str)
        ensures
            method@ == self.method_called(),
    {
        self.method
    }

    /// The instant that was read when the request was started.
    pub closed spec fn started_at(&self) -> Instant {
        self.started
    }

    /// When the request was started: the instant that `start_request` read
    /// from the clock, as it is kept in this pending request.
    pub fn started(&self) -> (started: Instant)
        ensures
            started == self.started_at(),
    {
        self.started
    }
}

/// A JSON-RPC client wrapper that instruments requests with metrics. To make
/// this as flexible as possible, the counters are created and named by the
/// caller; they follow the naming convention of `crate::labels` and carry
/// the labels described there.
pub struct PrometheusJsonRpcClient<C> {
    inner: C,
    metrics: JsonRpcClientMetrics,
    config: PrometheusJsonRpcClientConfig,
}

impl<C> PrometheusJsonRpcClient<C> {
    /// The wrapped transport.
    pub closed spec fn transport(&self) -> C {
        self.inner
    }

    /// The counters this client reports to.
    pub closed spec fn metrics(&self) -> JsonRpcClientMetrics {
        self.metrics
    }

    /// The node and the chain this client is labeled with.
    pub closed spec fn config(&self) -> PrometheusJsonRpcClientConfig {
        self.config
    }

    /// What a call of `method` that took `elapsed` and ended with the given
    /// outcome adds to this client's metrics.
    pub open spec fn updates_of(&self, method: Seq<char>, succeeded: bool, elapsed: Duration)
        -> MetricUpdatesView {
        metric_updates_of(
            self.metrics().counts_requests(),
            self.metrics().times_requests(),
            request_labels_of(self.config(), method, succeeded),
            elapsed,
        )
    }

    /// Wraps `inner`, which from now on reports to `metrics` under the
    /// identity given by `config`.
    pub fn new(
        inner: C,
        metrics: JsonRpcClientMetrics,
        config: PrometheusJsonRpcClientConfig,
    ) -> (client: Self)
        ensures
            client.transport() == inner,
            client.metrics() == metrics,
            client.config() == config,
    {
        PrometheusJsonRpcClient { inner, metrics, config }
    }

    /// The inner RpcClient implementation.
    pub fn inner(&self) -> (inner: &C)
        ensures
            *inner == self.transport(),
    {
        &self.inner
    }

    /// The label set under which a call of `method` with the given outcome
    /// is recorded.
    pub fn request_labels<'a>(&'a self, method: &'a str, succeeded: bool) -> (labels:
        RequestLabels<'a>)
        ensures
            labels@ == request_labels_of(self.config(), method@, succeeded),
    {
        RequestLabels::new(&self.config, method, succeeded)
    }

    /// What a call of `method` that took `elapsed` and ended with the given
    /// outcome adds to this client's metrics.
    pub fn request_updates<'a>(
        &'a self,
        method: &'a str,
        succeeded: bool,
        elapsed: Duration,
    ) -> (updates: MetricUpdates<'a>)
        ensures
            updates@ == self.updates_of(method@, succeeded, elapsed),
    {
        let labels = self.request_labels(method, succeeded);
        self.metrics.updates_for(labels, elapsed)
    }

    /// What a call of `method` that took `elapsed` and came back with `res`
    /// adds to this client's metrics: the call counts as a success where
    /// `res` is a value and as a failure where it is an error.
    pub fn outcome_updates<'a, R, E>(
        &'a self,
        method: &'a str,
        res: &Result<R, E>,
        elapsed: Duration,
    ) -> (updates: MetricUpdates<'a>)
        ensures
            updates@ == self.updates_of(method@, res is Ok, elapsed),
    {
        self.request_updates(method, res.is_ok(), elapsed)
    }

    /// How a client shows in debugging output, given how its transport
    /// shows there.
    pub fn fmt_debug(&self, inner: &str) -> (text: String)
        ensures
            text@ == "PrometheusJsonRpcClient("@ + inner@ + ")"@,
    {
        String::from_str("PrometheusJsonRpcClient(").concat(inner).concat(")")
    }

    /// Starts a request of `method`: reads the clock, after which the
    /// caller forwards the call to the transport as it is.
    pub fn start_request<'a>(&self, method: &'a str) -> (pending: PendingRequest<'a>)
        ensures
            pending.method_called() == method@,
    {
        PendingRequest { method, started: Instant::now() }
    }

    /// Records a call of `method` that took `elapsed` and ended with `res`,
    /// and returns `res` as it came: the value or the error of the
    /// transport, whatever the counters are and whatever becomes of the
    /// recording.
    pub fn record_request<R, E>(&self, method: &str, elapsed: Duration, res: Result<R, E>) -> (out:
        Result<R, E>)
        ensures
            out == res,
    {
        let updates = self.outcome_updates(method, &res, elapsed);
        self.metrics.apply(&updates);
        res
    }

    /// Ends a pending request that came back with `res`: reads the clock
    /// again, records the call under the method it was started with as
    /// `record_request` does, and returns `res` as it came.
    pub fn finish_request<R, E>(&self, pending: PendingRequest<'_>, res: Result<R, E>) -> (out:
        Result<R, E>)
        ensures
            out == res,
    {
        let elapsed = Instant::now().saturating_duration_since(pending.started);
        self.record_request(pending.method, elapsed, res)
    }
}

/// A call made through a client that counts requests adds exactly one to the
/// request count. It is counted under the node and the chain of the
/// client's configuration and the method of the call, with status `success`
/// where the transport returned a value and `failure` where it returned an
/// error.
pub proof fn lemma_counted_once<C>(
    client: PrometheusJsonRpcClient<C>,
    method: Seq<char>,
    succeeded: bool,
    elapsed: Duration,
)
    requires
        client.metrics().counts_requests(),
    ensures
        ({
            let updates = client.updates_of(method, succeeded, elapsed);
            &&& updates.count == Some(1u64)
            &&& updates.labels == seq![
                ("provider_node"@, client.node_host_label()),
                ("chain"@, client.chain_name_label()),
                ("method"@, method),
                ("status"@, status_of(succeeded)),
            ]
            &&& succeeded ==> status_of(succeeded) == "success"@
            &&& !succeeded ==> status_of(succeeded) == "failure"@
        }),
{
}

/// A call made through a client that times requests adds the time it took,
/// whatever that is, to the seconds spent, under the same label set that its
/// count goes up under.
pub proof fn lemma_timed_under_same_labels<C>(
    client: PrometheusJsonRpcClient<C>,
    method: Seq<char>,
    succeeded: bool,
    elapsed: Duration,
)
    requires
        client.metrics().times_requests(),
    ensures
        ({
            let updates = client.updates_of(method, succeeded, elapsed);
            &&& updates.duration == Some(elapsed)
            &&& updates.labels == request_labels_of(client.config(), method, succeeded)
        }),
{
}

/// A call made through a client without counters adds nothing to any
/// metric.
pub proof fn lemma_no_counters_no_updates<C>(
    client: PrometheusJsonRpcClient<C>,
    method: Seq<char>,
    succeeded: bool,
    elapsed: Duration,
)
    requires
        !client.metrics().counts_requests(),
        !client.metrics().times_requests(),
    ensures
        ({
            let updates = client.updates_of(method, succeeded, elapsed);
            &&& updates.count is None
            &&& updates.duration is None
        }),
{
}

impl<C: Clone> Clone for PrometheusJsonRpcClient<C> {
    /// Clones the transport handle. The clone carries the same labels and
    /// reports to the same counters.
    fn clone(&self) -> (copy: Self)
        ensures
            cloned(self.transport(), copy.transport()),
            copy.config() == self.config(),
            copy.metrics().counts_requests() == self.metrics().counts_requests(),
            copy.metrics().times_requests() == self.metrics().times_requests(),
    {
        PrometheusJsonRpcClient {
            inner: self.inner.clone(),
            metrics: self.metrics.clone(),
            config: self.config.clone(),
        }
    }
}

impl<C> PrometheusJsonRpcClientConfigExt for PrometheusJsonRpcClient<C> {
    open spec fn node_host_label(&self) -> Seq<char> {
        node_host_of(self.config().node)
    }

    open spec fn chain_name_label(&self) -> Seq<char> {
        chain_name_of(self.config().chain)
    }

    /// The "host" part of the URL this node is connecting to. E.g.
    /// `avalanche.api.onfinality.io`.
    fn node_host(&self) -> (host: &str) {
        self.config.node_host()
    }

    /// Chain name this RPC client is connected to.
    fn chain_name(&self) -> (name: &str) {
        self.config.chain_name()
    }
}

} // verus!
