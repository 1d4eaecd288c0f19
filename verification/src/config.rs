//! Who a client talks to: the node and the chain that label its metrics.

use vstd::prelude::*;

verus! {

/// Some basic information about a node.
#[derive(Debug)]
pub struct NodeInfo {
    /// The host of the node, e.g. `alchemy.com`, `quicknode.pro`, or
    /// `localhost:8545`.
    pub host: Option<String>,
}

/// Some basic information about a chain.
#[derive(Debug)]
pub struct ChainInfo {
    /// A human-friendly name for the chain, e.g. `kovan`.
    pub name: Option<String>,
}

/// Configuration of an instrumented JSON-RPC client: which node it connects
/// to and which chain it serves. Both are optional.
#[derive(Debug)]
pub struct PrometheusJsonRpcClientConfig {
    /// Information about what node this client is connecting to.
    pub node: Option<NodeInfo>,
    /// Information about the chain this client is for.
    pub chain: Option<ChainInfo>,
}

impl Clone for NodeInfo {
    fn clone(&self) -> (copy: Self)
        ensures
            copy == *self,
    {
        NodeInfo { host: self.host.clone() }
    }
}

impl Clone for ChainInfo {
    fn clone(&self) -> (copy: Self)
        ensures
            copy == *self,
    {
        ChainInfo { name: self.name.clone() }
    }
}

impl Clone for PrometheusJsonRpcClientConfig {
    fn clone(&self) -> (copy: Self)
        ensures
            copy == *self,
    {
        PrometheusJsonRpcClientConfig { node: self.node.clone(), chain: self.chain.clone() }
    }
}

/// The label value that stands for a node or a chain that was not named.
pub open spec fn unknown_label() -> Seq<char> {
    "unknown"@
}

/// The host a node was configured with, or `unknown_label()` where there is
/// no node, the node has no host, or the host is the empty text.
pub open spec fn node_host_of(node: Option<NodeInfo>) -> Seq<char> {
    match node {
        Some(NodeInfo { host: Some(h) }) => if h@.len() > 0 {
            h@
        } else {
            unknown_label()
        },
        _ => unknown_label(),
    }
}

/// The name a chain was configured with, or `unknown_label()` where there is
/// no chain, the chain has no name, or the name is the empty text.
pub open spec fn chain_name_of(chain: Option<ChainInfo>) -> Seq<char> {
    match chain {
        Some(ChainInfo { name: Some(n) }) => if n@.len() > 0 {
            n@
        } else {
            unknown_label()
        },
        _ => unknown_label(),
    }
}

/// Helper functions for displaying node and chain information.
pub trait PrometheusJsonRpcClientConfigExt {
    /// What `node_host` returns, as a sequence of characters.
    spec fn node_host_label(&self) -> Seq<char>;

    /// What `chain_name` returns, as a sequence of characters.
    spec fn chain_name_label(&self) -> Seq<char>;

    /// The "host" part of the URL this node is connecting to. E.g.
    /// `avalanche.api.onfinality.io`. It is never the empty text.
    fn node_host(&self) -> (host: &str)
        ensures
            host@ == self.node_host_label(),
            host@.len() > 0,
    ;

    /// Chain name this RPC client is connected to. It is never the empty
    /// text.
    fn chain_name(&self) -> (name: &str)
        ensures
            name@ == self.chain_name_label(),
            name@.len() > 0,
    ;
}

impl PrometheusJsonRpcClientConfigExt for PrometheusJsonRpcClientConfig {
    open spec fn node_host_label(&self) -> Seq<char> {
        node_host_of(self.node)
    }

    open spec fn chain_name_label(&self) -> Seq<char> {
        chain_name_of(self.chain)
    }

    fn node_host(&self) -> (host: &str) {
        proof {
            reveal_strlit("unknown");
        }
        match &self.node {
            Some(node) => match &node.host {
                Some(h) => if h.as_str().is_empty() {
                    "unknown"
                } else {
                    h.as_str()
                },
                None => "unknown",
            },
            None => "unknown",
        }
    }

    fn chain_name(&self) -> (name: &str) {
        proof {
            reveal_strlit("unknown");
        }
        match &self.chain {
            Some(chain) => match &chain.name {
                Some(n) => if n.as_str().is_empty() {
                    "unknown"
                } else {
                    n.as_str()
                },
                None => "unknown",
            },
            None => "unknown",
        }
    }
}

/// A configuration without a node, with a node that has no host, or with a
/// host that is the empty text shows the node as `unknown`; one whose node
/// has any other host shows that host, character for character. The same
/// holds of the chain and its name.
pub proof fn lemma_identity_or_unknown(config: PrometheusJsonRpcClientConfig)
    ensures
        config.node is None ==> config.node_host_label() == "unknown"@,
        config.node matches Some(node) ==> (node.host is None ==> config.node_host_label()
            == "unknown"@),
        config.node matches Some(node) ==> (node.host matches Some(host) ==> (host@.len() == 0
            ==> config.node_host_label() == "unknown"@)),
        config.node matches Some(node) ==> (node.host matches Some(host) ==> (host@.len() > 0
            ==> config.node_host_label() == host@)),
        config.chain is None ==> config.chain_name_label() == "unknown"@,
        config.chain matches Some(chain) ==> (chain.name is None ==> config.chain_name_label()
            == "unknown"@),
        config.chain matches Some(chain) ==> (chain.name matches Some(name) ==> (name@.len() == 0
            ==> config.chain_name_label() == "unknown"@)),
        config.chain matches Some(chain) ==> (chain.name matches Some(name) ==> (name@.len() > 0
            ==> config.chain_name_label() == name@)),
{
}

/// The host and the chain name that a configuration shows are never the
/// empty text, whatever was configured.
pub proof fn lemma_labels_never_empty(config: PrometheusJsonRpcClientConfig)
    ensures
        config.node_host_label().len() > 0,
        config.chain_name_label().len() > 0,
{
    reveal_strlit("unknown");
}

impl Default for PrometheusJsonRpcClientConfig {
    fn default() -> (config: Self)
        ensures
            config.node is None,
            config.chain is None,
    {
        PrometheusJsonRpcClientConfig { node: None, chain: None }
    }
}

} // verus!
