//! The latest block number, asked of any JSON-RPC client.
//!
//! The request itself is the caller's to make: one call of
//! `BLOCK_NUMBER_RPC` with no parameters. What comes back is turned into a
//! block number here.

use ethers_core::types::U64;
use vstd::prelude::*;
use vstd::std_specs::convert::FromSpecImpl;

use crate::client::PrometheusJsonRpcClient;
use crate::error::ChainCommunicationError;

verus! {

/// A 64-bit quantity as JSON-RPC responses carry it: one little-endian word.
#[verifier::external_type_specification]
pub struct ExU64(U64);

/// `U64::as_u64` returns the lowest word of the number. It panics where a
/// higher word is not zero; a `U64` has no higher word.
pub assume_specification[ U64::as_u64 ](value: &U64) -> (number: u64)
    ensures
        number == value.0[0],
;

/// RPC method for getting the latest block number.
pub const BLOCK_NUMBER_RPC: &'static str = "eth_blockNumber";

/// The block number that a response to `BLOCK_NUMBER_RPC` stands for: the
/// number the transport returned, as a `u64`, or the transport's error as a
/// `ChainCommunicationError`.
pub open spec fn block_number_of<E>(response: Result<U64, E>) -> Result<
    u64,
    ChainCommunicationError<E>,
> {
    match response {
        Ok(number) => Ok(number.0[0]),
        Err(error) => Err(ChainCommunicationError(error)),
    }
}

/// Utility struct for getting block numbers out of a JSON-RPC client.
#[derive(Debug)]
pub struct JsonRpcBlockGetter<T>(T);

impl<T> JsonRpcBlockGetter<T> {
    /// The client that is asked.
    pub closed spec fn client(&self) -> T {
        self.0
    }

    /// Wraps the client that is to be asked for block numbers.
    pub fn new(client: T) -> (getter: Self)
        ensures
            getter.client() == client,
    {
        JsonRpcBlockGetter(client)
    }

    /// The client that is asked.
    pub fn inner(&self) -> (client: &T)
        ensures
            *client == self.client(),
    {
        &self.0
    }

    /// Turns the client's response to `BLOCK_NUMBER_RPC` into a block
    /// number. Every number the transport returns is one; every error of
    /// the transport is passed on.
    pub fn get_block_number<E>(&self, response: Result<U64, E>) -> (number: Result<
        u64,
        ChainCommunicationError<E>,
    >)
        ensures
            number == block_number_of(response),
    {
        match response {
            Ok(number) => Ok(number.as_u64()),
            Err(error) => Err(ChainCommunicationError(error)),
        }
    }
}

impl<C> From<PrometheusJsonRpcClient<C>> for JsonRpcBlockGetter<PrometheusJsonRpcClient<C>> {
    /// Any instrumented client can be asked for block numbers.
    fn from(val: PrometheusJsonRpcClient<C>) -> (getter: Self)
        ensures
            getter.client() == val,
    {
        JsonRpcBlockGetter::new(val)
    }
}

impl<C> FromSpecImpl<PrometheusJsonRpcClient<C>> for JsonRpcBlockGetter<PrometheusJsonRpcClient<C>> {
    open spec fn obeys_from_spec() -> bool {
        true
    }

    closed spec fn from_spec(val: PrometheusJsonRpcClient<C>) -> Self {
        JsonRpcBlockGetter(val)
    }
}

} // verus!
