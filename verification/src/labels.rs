//! The four labels that every request metric carries.

use vstd::prelude::*;

use crate::config::{
    chain_name_of, lemma_labels_never_empty, node_host_of, PrometheusJsonRpcClientConfig,
    PrometheusJsonRpcClientConfigExt,
};

verus! {

/// Expected label names for the request counter.
pub const REQUEST_COUNT_LABELS: [&'static str; 4] = ["provider_node", "chain", "method", "status"];

/// Help string for the request counter.
pub const REQUEST_COUNT_HELP: &'static str = "Total number of requests made to this client";

/// Expected label names for the duration counter.
pub const REQUEST_DURATION_SECONDS_LABELS: [&'static str; 4] = [
    "provider_node",
    "chain",
    "method",
    "status",
];

/// Help string for the duration counter.
pub const REQUEST_DURATION_SECONDS_HELP: &'static str =
    "Total number of seconds spent making requests";

/// A label set as the metrics backend receives it: each label's name with its
/// value.
pub type LabelSet = Seq<(Seq<char>, Seq<char>)>;

/// The `status` label of a call: `success` where the transport returned a
/// value, `failure` where it returned an error.
pub open spec fn status_of(succeeded: bool) -> Seq<char> {
    if succeeded {
        "success"@
    } else {
        "failure"@
    }
}

/// The `status` label of a call that succeeded or failed.
pub fn status_label(succeeded: bool) -> (status: &'static str)
    ensures
        status@ == status_of(succeeded),
{
    if succeeded {
        "success"
    } else {
        "failure"
    }
}

/// The values of the four labels of one call, borrowed from the client's
/// configuration and from the call.
#[derive(Clone, Copy)]
pub struct RequestLabels<'a> {
    /// Node this client is connecting to, e.g. `alchemy.com`.
    pub provider_node: &'a str,
    /// Name of the chain the request was made on.
    pub chain: &'a str,
    /// Request method string.
    pub method: &'a str,
    /// `success` or `failure`, depending on the response.
    pub status: &'a str,
}

impl<'a> View for RequestLabels<'a> {
    type V = LabelSet;

    /// Each label's name with its value, in the order of
    /// `REQUEST_COUNT_LABELS`.
    open spec fn view(&self) -> LabelSet {
        seq![
            ("provider_node"@, self.provider_node@),
            ("chain"@, self.chain@),
            ("method"@, self.method@),
            ("status"@, self.status@),
        ]
    }
}

/// What a sequence of name and value pairs holds, as characters.
pub open spec fn pairs_view(pairs: Seq<(&str, &str)>) -> LabelSet {
    Seq::new(pairs.len(), |i: int| (pairs[i].0@, pairs[i].1@))
}

/// The label set of a call with the given method and outcome, made by a
/// client with the given configuration.
pub open spec fn request_labels_of(
    config: PrometheusJsonRpcClientConfig,
    method: Seq<char>,
    succeeded: bool,
) -> LabelSet {
    seq![
        ("provider_node"@, node_host_of(config.node)),
        ("chain"@, chain_name_of(config.chain)),
        ("method"@, method),
        ("status"@, status_of(succeeded)),
    ]
}

impl<'a> RequestLabels<'a> {
    /// Builds the label set of a call: the node and the chain come from the
    /// configuration, the method from the call, the status from its outcome.
    pub fn new(
        config: &'a PrometheusJsonRpcClientConfig,
        method: &'a str,
        succeeded: bool,
    ) -> (labels: Self)
        ensures
            labels.provider_node@ == node_host_of(config.node),
            labels.chain@ == chain_name_of(config.chain),
            labels.method@ == method@,
            labels.status@ == status_of(succeeded),
            labels@ == request_labels_of(*config, method@, succeeded),
    {
        RequestLabels {
            provider_node: config.node_host(),
            chain: config.chain_name(),
            method,
            status: status_label(succeeded),
        }
    }

    /// The label names with their values, in the order of
    /// `REQUEST_COUNT_LABELS`.
    pub fn pairs(&self) -> (pairs: [(&'a str, &'a str); 4])
        ensures
            pairs_view(pairs@) == self@,
    {
        let pairs = [
            (REQUEST_COUNT_LABELS[0], self.provider_node),
            (REQUEST_COUNT_LABELS[1], self.chain),
            (REQUEST_COUNT_LABELS[2], self.method),
            (REQUEST_COUNT_LABELS[3], self.status),
        ];
        assert(pairs_view(pairs@) =~= self@);
        pairs
    }
}

/// Both counters are declared with the same four label names, and a label
/// set carries exactly those names, in that order.
pub proof fn lemma_label_names(labels: RequestLabels<'_>)
    ensures
        REQUEST_COUNT_LABELS@ == REQUEST_DURATION_SECONDS_LABELS@,
        labels@.len() == REQUEST_COUNT_LABELS@.len(),
        forall|i: int| 0 <= i < 4 ==> (#[trigger] labels@[i]).0 == REQUEST_COUNT_LABELS@[i]@,
{
}

/// The four label names differ from one another: a label set names four
/// labels, and none of them hides another.
pub proof fn lemma_label_names_differ()
    ensures
        forall|i: int, j: int|
            0 <= i < j < 4 ==> (#[trigger] REQUEST_COUNT_LABELS@[i])@
                != (#[trigger] REQUEST_COUNT_LABELS@[j])@,
{
    reveal_strlit("provider_node");
    reveal_strlit("chain");
    reveal_strlit("method");
    reveal_strlit("status");
    assert(REQUEST_COUNT_LABELS@[0]@.len() == 13);
    assert(REQUEST_COUNT_LABELS@[1]@.len() == 5);
    assert(REQUEST_COUNT_LABELS@[2]@[0] == 'm');
    assert(REQUEST_COUNT_LABELS@[3]@[0] == 's');
    assert(REQUEST_COUNT_LABELS@[2]@.len() == 6);
    assert(REQUEST_COUNT_LABELS@[3]@.len() == 6);
}

/// A call has one of two statuses, `success` or `failure`, and they are
/// told apart by whether it succeeded.
pub proof fn lemma_status_tells_outcome(succeeded: bool)
    ensures
        status_of(succeeded) == "success"@ <==> succeeded,
        status_of(succeeded) == "failure"@ <==> !succeeded,
{
    reveal_strlit("success");
    reveal_strlit("failure");
    assert("success"@[0] != "failure"@[0]);
}

/// The label set of a call names the node and the chain as the
/// configuration shows them, neither of them empty, the method as it was
/// called, and the status of the outcome; it holds nothing else.
pub proof fn lemma_request_labels(
    config: PrometheusJsonRpcClientConfig,
    method: Seq<char>,
    succeeded: bool,
)
    ensures
        ({
            let labels = request_labels_of(config, method, succeeded);
            &&& labels.len() == 4
            &&& labels[0] == ("provider_node"@, config.node_host_label())
            &&& labels[1] == ("chain"@, config.chain_name_label())
            &&& labels[2] == ("method"@, method)
            &&& labels[3] == ("status"@, status_of(succeeded))
            &&& labels[0].1.len() > 0
            &&& labels[1].1.len() > 0
        }),
{
    lemma_labels_never_empty(config);
}

} // verus!
