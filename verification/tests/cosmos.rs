use ethers_prometheus::cosmos::{
    ConnectionConf, ConnectionConfError, CosmosAmount, RawCosmosAmount,
};
use ethers_prometheus::error::ChainCommunicationError;

fn neutron() -> ConnectionConf {
    ConnectionConf::new(
        "http://grpc.neutron.example:9090".to_owned(),
        "http://rpc.neutron.example:26657".to_owned(),
        "neutron-1".to_owned(),
        "neutron".to_owned(),
        "untrn".to_owned(),
        RawCosmosAmount::new("untrn".to_owned(), "0.0053".to_owned()),
        32,
    )
}

#[test]
fn connection_conf_returns_what_it_was_made_with() {
    let conf = neutron();
    assert_eq!(conf.get_grpc_url(), "http://grpc.neutron.example:9090");
    assert_eq!(conf.get_rpc_url(), "http://rpc.neutron.example:26657");
    assert_eq!(conf.get_chain_id(), "neutron-1");
    assert_eq!(conf.get_bech32_prefix(), "neutron");
    assert_eq!(conf.get_canonical_asset(), "untrn");
    assert_eq!(conf.get_minimum_gas_price().denom, "untrn");
    assert_eq!(conf.get_minimum_gas_price().amount, "0.0053");
    assert_eq!(conf.get_contract_address_bytes(), 32);
}

#[test]
fn connection_conf_keeps_fields_apart() {
    let conf = ConnectionConf::new(
        "a".to_owned(),
        "b".to_owned(),
        "c".to_owned(),
        "d".to_owned(),
        "e".to_owned(),
        RawCosmosAmount::new("f".to_owned(), "g".to_owned()),
        20,
    );
    assert_eq!(conf.get_grpc_url(), "a");
    assert_eq!(conf.get_rpc_url(), "b");
    assert_eq!(conf.get_chain_id(), "c");
    assert_eq!(conf.get_bech32_prefix(), "d");
    assert_eq!(conf.get_canonical_asset(), "e");
    assert_eq!(conf.get_minimum_gas_price().denom, "f");
    assert_eq!(conf.get_minimum_gas_price().amount, "g");
    assert_eq!(conf.get_contract_address_bytes(), 20);
}

#[test]
fn connection_conf_accepts_empty_and_extreme_values() {
    let conf = ConnectionConf::new(
        String::new(),
        String::new(),
        String::new(),
        String::new(),
        String::new(),
        RawCosmosAmount::new(String::new(), String::new()),
        usize::MAX,
    );
    assert_eq!(conf.get_grpc_url(), "");
    assert_eq!(conf.get_minimum_gas_price().amount, "");
    assert_eq!(conf.get_contract_address_bytes(), usize::MAX);
    let conf = ConnectionConf::new(
        String::new(),
        String::new(),
        String::new(),
        String::new(),
        String::new(),
        RawCosmosAmount::new(String::new(), String::new()),
        0,
    );
    assert_eq!(conf.get_contract_address_bytes(), 0);
}

#[test]
fn cloned_connection_conf_is_the_same() {
    let conf = neutron();
    let copy = conf.clone();
    assert_eq!(copy.get_grpc_url(), conf.get_grpc_url());
    assert_eq!(copy.get_rpc_url(), conf.get_rpc_url());
    assert_eq!(copy.get_chain_id(), conf.get_chain_id());
    assert_eq!(copy.get_bech32_prefix(), conf.get_bech32_prefix());
    assert_eq!(copy.get_canonical_asset(), conf.get_canonical_asset());
    assert_eq!(copy.get_minimum_gas_price().denom, "untrn");
    assert_eq!(copy.get_minimum_gas_price().amount, "0.0053");
    assert_eq!(copy.get_contract_address_bytes(), 32);
}

#[test]
fn getters_leave_the_conf_as_it_was() {
    let conf = neutron();
    let first = conf.get_chain_id();
    let second = conf.get_chain_id();
    assert_eq!(first, second);
}

#[test]
fn raw_amount_holds_denom_and_amount() {
    let raw = RawCosmosAmount::new("uosmo".to_owned(), "0.025".to_owned());
    assert_eq!(raw.denom, "uosmo");
    assert_eq!(raw.amount, "0.025");
    let copy = raw.clone();
    assert_eq!(copy.denom, "uosmo");
    assert_eq!(copy.amount, "0.025");
    assert!(format!("{:?}", raw).contains("uosmo"));
}

#[test]
fn a_parsed_amount_is_typed_under_the_same_denom() {
    let raw = RawCosmosAmount::new("untrn".to_owned(), "42".to_owned());
    let parsed = raw.amount.parse::<u64>();
    let typed = CosmosAmount::try_from_raw(raw, parsed).unwrap();
    assert_eq!(typed.denom, "untrn");
    assert_eq!(typed.amount, 42);
}

#[test]
fn an_amount_that_is_no_number_is_an_error() {
    let raw = RawCosmosAmount::new("untrn".to_owned(), "forty-two".to_owned());
    let parsed = raw.amount.parse::<u64>();
    let expected = "forty-two".parse::<u64>().unwrap_err();
    match CosmosAmount::try_from_raw(raw, parsed) {
        Err(ChainCommunicationError(error)) => assert_eq!(error, expected),
        Ok(_) => panic!("text became an amount"),
    }
}

#[test]
fn connection_conf_errors_can_be_told_apart() {
    let invalid = match url::Url::parse("http://grpc.example:nine") {
        Err(why) => ConnectionConfError::InvalidConnectionUrl("http://grpc.example:nine".to_owned(), why),
        Ok(_) => panic!("parsed"),
    };
    assert!(matches!(
        invalid,
        ConnectionConfError::InvalidConnectionUrl(ref text, url::ParseError::InvalidPort)
            if text == "http://grpc.example:nine"
    ));
    assert!(matches!(
        ConnectionConfError::MissingConnectionRpcUrl,
        ConnectionConfError::MissingConnectionRpcUrl
    ));
    assert!(!matches!(
        ConnectionConfError::MissingConnectionGrpcUrl,
        ConnectionConfError::MissingConnectionRpcUrl
    ));
    assert!(format!("{:?}", ConnectionConfError::MissingChainId).contains("MissingChainId"));
    assert!(format!("{:?}", ConnectionConfError::MissingPrefix).contains("MissingPrefix"));
}
