use ethers_core::types::U64;
use ethers_prometheus::block_getter::{JsonRpcBlockGetter, BLOCK_NUMBER_RPC};
use ethers_prometheus::client::PrometheusJsonRpcClient;
use ethers_prometheus::config::PrometheusJsonRpcClientConfig;
use ethers_prometheus::error::ChainCommunicationError;
use ethers_prometheus::metrics::JsonRpcClientMetricsBuilder;

#[test]
fn block_number_method_is_eth_block_number() {
    assert_eq!(BLOCK_NUMBER_RPC, "eth_blockNumber");
}

#[test]
fn a_returned_height_is_the_block_number() {
    let getter = JsonRpcBlockGetter::new("transport");
    let number = getter.get_block_number::<String>(Ok(U64::from(12345678u64)));
    assert!(matches!(number, Ok(12345678)));
}

#[test]
fn heights_at_the_ends_of_the_range() {
    let getter = JsonRpcBlockGetter::new(());
    assert!(matches!(getter.get_block_number::<()>(Ok(U64::from(0u64))), Ok(0)));
    assert!(matches!(getter.get_block_number::<()>(Ok(U64::from(1u64))), Ok(1)));
    assert!(matches!(getter.get_block_number::<()>(Ok(U64::from(u64::MAX))), Ok(u64::MAX)));
    assert!(matches!(getter.get_block_number::<()>(Ok(U64([0xbc614e]))), Ok(12345678)));
}

#[test]
fn a_height_read_from_its_wire_form() {
    let getter = JsonRpcBlockGetter::new(());
    let height = U64::from_str_radix("bc614e", 16).unwrap();
    assert!(matches!(getter.get_block_number::<()>(Ok(height)), Ok(12345678)));
}

#[test]
fn a_transport_error_is_passed_on() {
    let getter = JsonRpcBlockGetter::new(());
    let number = getter.get_block_number(Err("connection timed out".to_owned()));
    match number {
        Err(ChainCommunicationError(error)) => assert_eq!(error, "connection timed out"),
        Ok(_) => panic!("an error became a block number"),
    }
}

#[test]
fn the_getter_hands_out_its_client() {
    let getter = JsonRpcBlockGetter::new(41u32);
    assert_eq!(*getter.inner(), 41);
}

#[test]
fn an_instrumented_client_becomes_a_getter() {
    let metrics = JsonRpcClientMetricsBuilder::default().build().unwrap();
    let client =
        PrometheusJsonRpcClient::new("transport", metrics, PrometheusJsonRpcClientConfig::default());
    let getter: JsonRpcBlockGetter<PrometheusJsonRpcClient<&str>> = client.into();
    assert_eq!(*getter.inner().inner(), "transport");
    let getter = JsonRpcBlockGetter::from(PrometheusJsonRpcClient::new(
        7u8,
        JsonRpcClientMetricsBuilder::default().build().unwrap(),
        PrometheusJsonRpcClientConfig::default(),
    ));
    assert_eq!(*getter.inner().inner(), 7);
}

#[test]
fn the_getter_shows_in_debug_output() {
    let getter = JsonRpcBlockGetter::new("transport");
    assert_eq!(format!("{:?}", getter), "JsonRpcBlockGetter(\"transport\")");
}

#[test]
fn the_error_shows_in_debug_output() {
    let error = ChainCommunicationError("timeout");
    assert_eq!(format!("{:?}", error), "ChainCommunicationError(\"timeout\")");
    assert_eq!(error.0, "timeout");
}
