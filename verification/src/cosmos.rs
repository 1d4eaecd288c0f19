//! How to reach a Cosmos chain, and the amounts it charges.

use vstd::prelude::*;

use crate::error::ChainCommunicationError;

verus! {

/// Why a URL could not be parsed, opaque to Verus.
#[verifier::external_type_specification]
#[verifier::external_body]
pub struct ExParseError(url::ParseError);

/// Untyped cosmos amount.
#[derive(Debug)]
pub struct RawCosmosAmount {
    /// Coin denom (e.g. `untrn`).
    pub denom: String,
    /// Amount in the given denom.
    pub amount: String,
}

/// A `RawCosmosAmount` as characters.
pub ghost struct RawCosmosAmountView {
    pub denom: Seq<char>,
    pub amount: Seq<char>,
}

impl View for RawCosmosAmount {
    type V = RawCosmosAmountView;

    open spec fn view(&self) -> RawCosmosAmountView {
        RawCosmosAmountView { denom: self.denom@, amount: self.amount@ }
    }
}

impl RawCosmosAmount {
    /// An amount of the given denom.
    pub fn new(denom: String, amount: String) -> (raw: Self)
        ensures
            raw.denom == denom,
            raw.amount == amount,
    {
        RawCosmosAmount { denom, amount }
    }
}

impl Clone for RawCosmosAmount {
    fn clone(&self) -> (copy: Self)
        ensures
            copy == *self,
    {
        RawCosmosAmount { denom: self.denom.clone(), amount: self.amount.clone() }
    }
}

/// Typed cosmos amount. `A` is the type of the number.
#[derive(Debug)]
pub struct CosmosAmount<A> {
    /// Coin denom (e.g. `untrn`).
    pub denom: String,
    /// Amount in the given denom.
    pub amount: A,
}

impl<A> CosmosAmount<A> {
    /// Types a raw amount, given what came of parsing `raw.amount` as a
    /// number: the denom is kept and the number takes the place of the
    /// text. Where the text was no number, the parser's error is passed on.
    pub fn try_from_raw<E>(raw: RawCosmosAmount, parsed: Result<A, E>) -> (typed: Result<
        Self,
        ChainCommunicationError<E>,
    >)
        ensures
            typed == match parsed {
                Ok(amount) => Ok(CosmosAmount { denom: raw.denom, amount }),
                Err(error) => Err(ChainCommunicationError(error)),
            },
    {
        match parsed {
            Ok(amount) => Ok(CosmosAmount { denom: raw.denom, amount }),
            Err(error) => Err(ChainCommunicationError(error)),
        }
    }
}

/// An error type when parsing a connection configuration.
#[derive(Debug)]
pub enum ConnectionConfError {
    /// Missing `rpc_url` for connection configuration.
    MissingConnectionRpcUrl,
    /// Missing `grpc_url` for connection configuration.
    MissingConnectionGrpcUrl,
    /// Missing `chainId` for connection configuration.
    MissingChainId,
    /// Missing `prefix` for connection configuration.
    MissingPrefix,
    /// Invalid `url` for connection configuration: the text, and why it is
    /// no URL.
    InvalidConnectionUrl(String, url::ParseError),
}

/// Cosmos connection configuration.
#[derive(Debug)]
pub struct ConnectionConf {
    /// The GRPC url to connect to.
    grpc_url: String,
    /// The RPC url to connect to.
    rpc_url: String,
    /// The chain ID.
    chain_id: String,
    /// The human readable address prefix for the chains using bech32.
    bech32_prefix: String,
    /// Canonical asset denom.
    canonical_asset: String,
    /// The gas price set by the cosmos-sdk validator. Note that this
    /// represents the minimum price set by the validator.
    gas_price: RawCosmosAmount,
    /// The number of bytes used to represent a contract address. Cosmos
    /// address lengths are sometimes less than 32 bytes, so this helps to
    /// serialize it in bech32 with the appropriate length.
    contract_address_bytes: usize,
}

/// What a `ConnectionConf` holds.
pub ghost struct ConnectionConfView {
    pub grpc_url: Seq<char>,
    pub rpc_url: Seq<char>,
    pub chain_id: Seq<char>,
    pub bech32_prefix: Seq<char>,
    pub canonical_asset: Seq<char>,
    pub gas_price: RawCosmosAmountView,
    pub contract_address_bytes: usize,
}

impl View for ConnectionConf {
    type V = ConnectionConfView;

    closed spec fn view(&self) -> ConnectionConfView {
        ConnectionConfView {
            grpc_url: self.grpc_url@,
            rpc_url: self.rpc_url@,
            chain_id: self.chain_id@,
            bech32_prefix: self.bech32_prefix@,
            canonical_asset: self.canonical_asset@,
            gas_price: self.gas_price@,
            contract_address_bytes: self.contract_address_bytes,
        }
    }
}

impl Clone for ConnectionConf {
    fn clone(&self) -> (copy: Self)
        ensures
            copy@ == self@,
    {
        ConnectionConf {
            grpc_url: self.grpc_url.clone(),
            rpc_url: self.rpc_url.clone(),
            chain_id: self.chain_id.clone(),
            bech32_prefix: self.bech32_prefix.clone(),
            canonical_asset: self.canonical_asset.clone(),
            gas_price: self.gas_price.clone(),
            contract_address_bytes: self.contract_address_bytes,
        }
    }
}

impl ConnectionConf {
    /// Get the GRPC url.
    pub fn get_grpc_url(&self) -> (url: String)
        ensures
            url@ == self@.grpc_url,
    {
        self.grpc_url.clone()
    }

    /// Get the RPC url.
    pub fn get_rpc_url(&self) -> (url: String)
        ensures
            url@ == self@.rpc_url,
    {
        self.rpc_url.clone()
    }

    /// Get the chain ID.
    pub fn get_chain_id(&self) -> (id: String)
        ensures
            id@ == self@.chain_id,
    {
        self.chain_id.clone()
    }

    /// Get the bech32 prefix.
    pub fn get_bech32_prefix(&self) -> (prefix: String)
        ensures
            prefix@ == self@.bech32_prefix,
    {
        self.bech32_prefix.clone()
    }

    /// Get the asset.
    pub fn get_canonical_asset(&self) -> (asset: String)
        ensures
            asset@ == self@.canonical_asset,
    {
        self.canonical_asset.clone()
    }

    /// Get the minimum gas price.
    pub fn get_minimum_gas_price(&self) -> (price: RawCosmosAmount)
        ensures
            price@ == self@.gas_price,
    {
        self.gas_price.clone()
    }

    /// Get the number of bytes used to represent a contract address.
    pub fn get_contract_address_bytes(&self) -> (bytes: usize)
        ensures
            bytes == self@.contract_address_bytes,
    {
        self.contract_address_bytes
    }

    /// Create a new connection configuration.
    pub fn new(
        grpc_url: String,
        rpc_url: String,
        chain_id: String,
        bech32_prefix: String,
        canonical_asset: String,
        minimum_gas_price: RawCosmosAmount,
        contract_address_bytes: usize,
    ) -> (conf: Self)
        ensures
            conf@ == (ConnectionConfView {
                grpc_url: grpc_url@,
                rpc_url: rpc_url@,
                chain_id: chain_id@,
                bech32_prefix: bech32_prefix@,
                canonical_asset: canonical_asset@,
                gas_price: minimum_gas_price@,
                contract_address_bytes,
            }),
    {
        ConnectionConf {
            grpc_url,
            rpc_url,
            chain_id,
            bech32_prefix,
            canonical_asset,
            gas_price: minimum_gas_price,
            contract_address_bytes,
        }
    }
}

} // verus!
