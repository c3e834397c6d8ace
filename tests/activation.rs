use std::cell::Cell;

use eth_activation::address::Address;
use eth_activation::coin::{
    begin_activation, eth_coin_from_conf_and_request_v2, finish_activation, resolve_required_confirmations,
    token_decimals_from_conf,
    EthCoin, EthCoinType, PlannedTransport, DEFAULT_LOGS_BLOCK_RANGE, DEFAULT_REQUIRED_CONFIRMATIONS, ETH_DECIMALS,
    ETH_GAS_STATION_DECIMALS,
};
use eth_activation::conf::CoinConf;
use eth_activation::error::{Erc20TokenActivationError, EthActivationV2Error};
use eth_activation::key_policy::{EthPrivKeyBuildPolicy, MetamaskCtx};
use eth_activation::nonce::NonceRegistry;
use eth_activation::scope::ScopeTree;
use eth_activation::transport::{HttpTransportNode, Web3Transport};
use eth_activation::types::{
    Erc20Protocol, Erc20TokenActivationRequest, EthActivationV2Request, EthNode, EthPrivKeyActivationPolicy,
    EthRpcMode, GasStationPricePolicy,
};

fn secret_of(last: u8) -> [u8; 32] {
    let mut s = [0u8; 32];
    s[31] = last;
    s
}

fn addr(last: u8) -> Address {
    let mut b = [0u8; 20];
    b[19] = last;
    Address(b)
}

fn node(url: &str) -> EthNode {
    EthNode { url: url.to_string(), gui_auth: false }
}

fn request(nodes: Vec<EthNode>) -> EthActivationV2Request {
    EthActivationV2Request {
        nodes,
        rpc_mode: EthRpcMode::default(),
        swap_contract_address: addr(1),
        fallback_swap_contract: None,
        gas_station_url: None,
        gas_station_decimals: None,
        gas_station_policy: GasStationPricePolicy::default(),
        mm2: None,
        required_confirmations: None,
        priv_key_policy: EthPrivKeyActivationPolicy::default(),
    }
}

fn three_nodes() -> Vec<EthNode> {
    vec![node("http://node-a.example:8545"), node("http://node-b.example:8545"), node("http://node-c.example:8545")]
}

fn activate(
    registry: &mut NonceRegistry,
    scopes: &mut ScopeTree,
    ticker: &str,
    conf: &CoinConf,
    req: EthActivationV2Request,
    secret: u8,
    answering: &[&str],
) -> Result<EthCoin, EthActivationV2Error> {
    let answering: Vec<String> = answering.iter().map(|s| s.to_string()).collect();
    eth_coin_from_conf_and_request_v2(
        registry,
        scopes,
        ticker,
        conf,
        req,
        EthPrivKeyBuildPolicy::IguanaPrivKey(secret_of(secret)),
        |n: &HttpTransportNode| {
            if answering.contains(&n.uri) {
                Some("Geth/v1.10.0".to_string())
            } else {
                None
            }
        },
    )
}

fn http_nodes(t: &Web3Transport) -> Vec<String> {
    match t {
        Web3Transport::Http(h) => h.nodes.iter().map(|n| n.uri.clone()).collect(),
        _ => panic!("expected an HTTP transport"),
    }
}

#[test]
fn zero_swap_contract_is_refused_before_any_probe() {
    let mut req = request(three_nodes());
    req.swap_contract_address = Address::zero();
    let probes = Cell::new(0);
    let mut registry = NonceRegistry::new();
    let mut scopes = ScopeTree::new();
    let r = eth_coin_from_conf_and_request_v2(
        &mut registry,
        &mut scopes,
        "ETH",
        &CoinConf::empty(),
        req,
        EthPrivKeyBuildPolicy::IguanaPrivKey(secret_of(1)),
        |_n: &HttpTransportNode| {
            probes.set(probes.get() + 1);
            Some("Geth".to_string())
        },
    );
    assert!(matches!(r, Err(EthActivationV2Error::InvalidSwapContractAddr(_))));
    assert_eq!(probes.get(), 0);
}

#[test]
fn zero_fallback_swap_contract_is_refused() {
    let mut req = request(three_nodes());
    req.fallback_swap_contract = Some(Address::zero());
    let r = begin_activation("ETH", &CoinConf::empty(), req, EthPrivKeyBuildPolicy::IguanaPrivKey(secret_of(1)));
    assert!(matches!(r, Err(EthActivationV2Error::InvalidFallbackSwapContract(_))));
    let mut req = request(three_nodes());
    req.fallback_swap_contract = Some(addr(9));
    let r = begin_activation("ETH", &CoinConf::empty(), req, EthPrivKeyBuildPolicy::IguanaPrivKey(secret_of(1)));
    assert!(r.is_ok());
}

#[test]
fn empty_node_list_is_refused() {
    let r = begin_activation(
        "ETH",
        &CoinConf::empty(),
        request(vec![]),
        EthPrivKeyBuildPolicy::IguanaPrivKey(secret_of(1)),
    );
    assert!(matches!(r, Err(EthActivationV2Error::AtLeastOneNodeRequired)));
}

#[test]
fn unparsable_node_url_is_invalid_payload() {
    let r = begin_activation(
        "ETH",
        &CoinConf::empty(),
        request(vec![node("http://good.example"), node("http://bad host with spaces")]),
        EthPrivKeyBuildPolicy::IguanaPrivKey(secret_of(1)),
    );
    assert!(matches!(r, Err(EthActivationV2Error::InvalidPayload(_))));
}

#[test]
fn mismatched_mode_and_policy_fail_activation() {
    let mut req = request(three_nodes());
    req.rpc_mode = EthRpcMode::Metamask;
    let r = begin_activation("ETH", &CoinConf::empty(), req, EthPrivKeyBuildPolicy::IguanaPrivKey(secret_of(1)));
    assert!(matches!(r, Err(EthActivationV2Error::ActivationFailed { ref ticker, .. }) if ticker == "ETH"));
    let ctx = MetamaskCtx { account_address: "0xfB6916095ca1df60bB79Ce92cE3Ea74c37c5d359".to_string() };
    let r = begin_activation("ETH", &CoinConf::empty(), request(three_nodes()), EthPrivKeyBuildPolicy::Metamask(ctx));
    assert!(matches!(r, Err(EthActivationV2Error::ActivationFailed { .. })));
}

#[test]
fn host_delegated_activation_needs_no_probe() {
    let mut req = request(vec![]);
    req.rpc_mode = EthRpcMode::Metamask;
    let ctx = MetamaskCtx { account_address: "0xfB6916095ca1df60bB79Ce92cE3Ea74c37c5d359".to_string() };
    let plan = begin_activation("ETH", &CoinConf::empty(), req, EthPrivKeyBuildPolicy::Metamask(ctx)).unwrap();
    assert!(matches!(plan.transport, PlannedTransport::Ready(_)));
    let mut registry = NonceRegistry::new();
    let mut scopes = ScopeTree::new();
    let coin = finish_activation(plan, vec![], &mut registry, &mut scopes).unwrap();
    assert!(matches!(coin.web3, Web3Transport::Metamask(_)));
    assert_eq!(coin.web3_instances.len(), 1);
    assert!(!coin.web3_instances[0].is_parity);
}

#[test]
fn partial_reachability_keeps_all_endpoints() {
    let mut registry = NonceRegistry::new();
    let mut scopes = ScopeTree::new();
    let coin = activate(
        &mut registry,
        &mut scopes,
        "ETH",
        &CoinConf::empty(),
        request(three_nodes()),
        1,
        &["http://node-a.example:8545", "http://node-c.example:8545"],
    )
    .unwrap();
    assert_eq!(coin.web3_instances.len(), 2);
    let mut all = http_nodes(&coin.web3);
    all.sort();
    assert_eq!(all, vec![
        "http://node-a.example:8545".to_string(),
        "http://node-b.example:8545".to_string(),
        "http://node-c.example:8545".to_string()
    ]);
    let mut live: Vec<String> = coin.web3_instances.iter().flat_map(|i| http_nodes(&i.web3)).collect();
    live.sort();
    assert_eq!(live, vec!["http://node-a.example:8545".to_string(), "http://node-c.example:8545".to_string()]);
    assert_eq!(coin.decimals, ETH_DECIMALS);
    assert_eq!(coin.coin_type, EthCoinType::Eth);
    assert_eq!(coin.gas_station_decimals, ETH_GAS_STATION_DECIMALS);
    assert_eq!(coin.logs_block_range, DEFAULT_LOGS_BLOCK_RANGE);
}

#[test]
fn no_reachable_node_fails() {
    let mut registry = NonceRegistry::new();
    let mut scopes = ScopeTree::new();
    let r = activate(&mut registry, &mut scopes, "ETH", &CoinConf::empty(), request(three_nodes()), 1, &[]);
    assert!(matches!(r, Err(EthActivationV2Error::UnreachableNodes(_))));
}

#[test]
fn parity_nodes_are_detected() {
    let plan = begin_activation(
        "ETH",
        &CoinConf::empty(),
        request(three_nodes()),
        EthPrivKeyBuildPolicy::IguanaPrivKey(secret_of(1)),
    )
    .unwrap();
    let n = match &plan.transport {
        PlannedTransport::Probe { nodes, .. } => nodes.len(),
        _ => panic!("expected endpoints to probe"),
    };
    assert_eq!(n, 3);
    let versions = vec![Some("Parity-Ethereum//v2.5.13".to_string()), None, Some("Geth/v1.10".to_string())];
    let mut registry = NonceRegistry::new();
    let mut scopes = ScopeTree::new();
    let coin = finish_activation(plan, versions, &mut registry, &mut scopes).unwrap();
    assert_eq!(coin.web3_instances.len(), 2);
    assert!(coin.web3_instances[0].is_parity);
    assert!(!coin.web3_instances[1].is_parity);
}

#[test]
fn required_confirmations_follow_precedence() {
    assert_eq!(resolve_required_confirmations(Some(5), Some(3)), 5);
    assert_eq!(resolve_required_confirmations(None, Some(3)), 3);
    assert_eq!(resolve_required_confirmations(None, None), DEFAULT_REQUIRED_CONFIRMATIONS);
    assert_eq!(DEFAULT_REQUIRED_CONFIRMATIONS, 1);
    let mut registry = NonceRegistry::new();
    let mut scopes = ScopeTree::new();
    let mut conf = CoinConf::empty();
    let nodes = ["http://node-a.example:8545"];
    let c = activate(&mut registry, &mut scopes, "A", &conf, request(three_nodes()), 1, &nodes).unwrap();
    assert_eq!(c.required_confirmations, 1);
    conf.required_confirmations = Some(3);
    let c = activate(&mut registry, &mut scopes, "B", &conf, request(three_nodes()), 1, &nodes).unwrap();
    assert_eq!(c.required_confirmations, 3);
    let mut req = request(three_nodes());
    req.required_confirmations = Some(7);
    let c = activate(&mut registry, &mut scopes, "C", &conf, req, 1, &nodes).unwrap();
    assert_eq!(c.required_confirmations, 7);
}

#[test]
fn same_account_shares_nonce_handle() {
    let mut registry = NonceRegistry::new();
    let mut scopes = ScopeTree::new();
    let nodes = ["http://node-b.example:8545"];
    let a = activate(&mut registry, &mut scopes, "ETH", &CoinConf::empty(), request(three_nodes()), 1, &nodes).unwrap();
    let b = activate(&mut registry, &mut scopes, "ETC", &CoinConf::empty(), request(three_nodes()), 1, &nodes).unwrap();
    let c = activate(&mut registry, &mut scopes, "BNB", &CoinConf::empty(), request(three_nodes()), 2, &nodes).unwrap();
    assert_eq!(a.nonce_lock.id(), b.nonce_lock.id());
    assert_ne!(a.nonce_lock.id(), c.nonce_lock.id());
    assert!(std::sync::Arc::ptr_eq(a.nonce_lock.lock(), b.nonce_lock.lock()));
    assert!(!std::sync::Arc::ptr_eq(a.nonce_lock.lock(), c.nonce_lock.lock()));
}

#[test]
fn registry_acquire_is_idempotent() {
    let mut registry = NonceRegistry::new();
    let h1 = registry.acquire(&addr(1));
    let h2 = registry.acquire(&addr(2));
    let h3 = registry.acquire(&addr(1));
    assert_eq!(h1.id(), h3.id());
    assert_ne!(h1.id(), h2.id());
    assert!(std::sync::Arc::ptr_eq(h1.lock(), h3.lock()));
    assert_eq!(h1.share().id(), h1.id());
}

#[test]
fn failed_activation_leaves_registry_untouched() {
    let mut registry = NonceRegistry::new();
    let mut scopes = ScopeTree::new();
    let r = activate(&mut registry, &mut scopes, "ETH", &CoinConf::empty(), request(three_nodes()), 1, &[]);
    assert!(r.is_err());
    let h = registry.acquire(&addr(5));
    assert_eq!(h.id(), 0);
}

fn platform(registry: &mut NonceRegistry, scopes: &mut ScopeTree) -> EthCoin {
    let mut req = request(three_nodes());
    req.gas_station_url = Some("https://gas.example".to_string());
    activate(registry, scopes, "ETH", &CoinConf::empty(), req, 1, &["http://node-a.example:8545"]).unwrap()
}

fn protocol() -> Erc20Protocol {
    Erc20Protocol { platform: "ETH".to_string(), token_addr: addr(42) }
}

#[test]
fn token_decimals_come_from_config() {
    let mut registry = NonceRegistry::new();
    let mut scopes = ScopeTree::new();
    let eth = platform(&mut registry, &mut scopes);
    let mut conf = CoinConf::empty();
    conf.decimals = Some(6);
    let queried = Cell::new(false);
    let token = eth
        .initialize_erc20_token(
            &mut scopes,
            Erc20TokenActivationRequest { required_confirmations: None },
            protocol(),
            "USDC".to_string(),
            &conf,
            |_t: &Web3Transport, _a: Address| {
                queried.set(true);
                Ok(18)
            },
        )
        .unwrap();
    assert_eq!(token.decimals, 6);
    assert!(!queried.get());
}

#[test]
fn token_decimals_come_from_chain_when_config_has_none() {
    let mut registry = NonceRegistry::new();
    let mut scopes = ScopeTree::new();
    let eth = platform(&mut registry, &mut scopes);
    for conf_decimals in [None, Some(0)] {
        let mut conf = CoinConf::empty();
        conf.decimals = conf_decimals;
        let token = eth
            .initialize_erc20_token(
                &mut scopes,
                Erc20TokenActivationRequest { required_confirmations: None },
                protocol(),
                "USDT".to_string(),
                &conf,
                |_t: &Web3Transport, a: Address| {
                    assert_eq!(a, addr(42));
                    Ok(9)
                },
            )
            .unwrap();
        assert_eq!(token.decimals, 9);
    }
}

#[test]
fn failed_decimals_query_is_internal_error() {
    let mut registry = NonceRegistry::new();
    let mut scopes = ScopeTree::new();
    let eth = platform(&mut registry, &mut scopes);
    let r = eth.initialize_erc20_token(
        &mut scopes,
        Erc20TokenActivationRequest { required_confirmations: None },
        protocol(),
        "USDT".to_string(),
        &CoinConf::empty(),
        |_t: &Web3Transport, _a: Address| Err("timeout".to_string()),
    );
    assert!(matches!(r, Err(Erc20TokenActivationError::InternalError(ref e)) if e == "timeout"));
}

#[test]
fn token_shares_account_and_nonce_handle() {
    let mut registry = NonceRegistry::new();
    let mut scopes = ScopeTree::new();
    let eth = platform(&mut registry, &mut scopes);
    let mut conf = CoinConf::empty();
    conf.decimals = Some(6);
    conf.required_confirmations = Some(4);
    let token = eth
        .initialize_erc20_token(
            &mut scopes,
            Erc20TokenActivationRequest { required_confirmations: None },
            protocol(),
            "USDC".to_string(),
            &conf,
            |_t: &Web3Transport, _a: Address| Ok(18),
        )
        .unwrap();
    assert_eq!(token.nonce_lock.id(), eth.nonce_lock.id());
    assert!(std::sync::Arc::ptr_eq(token.nonce_lock.lock(), eth.nonce_lock.lock()));
    assert_eq!(token.my_address, eth.my_address);
    assert_eq!(token.ticker, "USDC");
    assert_eq!(token.required_confirmations, 4);
    assert_eq!(token.gas_station_url, Some("https://gas.example".to_string()));
    assert_eq!(token.coin_type, EthCoinType::Erc20 { platform: "ETH".to_string(), token_addr: addr(42) });
    assert_eq!(http_nodes(&token.web3).len(), 3);
    assert_eq!(token.web3_instances.len(), eth.web3_instances.len());
    match &token.web3 {
        Web3Transport::Http(h) => {
            assert_eq!(h.gui_auth_validation_generator.as_ref().unwrap().coin_ticker, "USDC");
            assert_eq!(h.gui_auth_validation_generator.as_ref().unwrap().secret, secret_of(1));
        },
        _ => panic!("expected an HTTP transport"),
    }
    match &eth.web3 {
        Web3Transport::Http(h) => assert_eq!(h.gui_auth_validation_generator.as_ref().unwrap().coin_ticker, "ETH"),
        _ => panic!("expected an HTTP transport"),
    }
    assert_ne!(token.abortable_system, eth.abortable_system);
}

#[test]
fn activation_after_shutdown_is_internal_error() {
    let mut registry = NonceRegistry::new();
    let mut scopes = ScopeTree::new();
    let eth = platform(&mut registry, &mut scopes);
    let root = scopes.root();
    scopes.abort(root);
    let r = activate(&mut registry, &mut scopes, "ETC", &CoinConf::empty(), request(three_nodes()), 3, &[
        "http://node-a.example:8545",
    ]);
    assert!(matches!(r, Err(EthActivationV2Error::InternalError(_))));
    let mut conf = CoinConf::empty();
    conf.decimals = Some(6);
    let t = eth.initialize_erc20_token(
        &mut scopes,
        Erc20TokenActivationRequest { required_confirmations: None },
        protocol(),
        "USDC".to_string(),
        &conf,
        |_t: &Web3Transport, _a: Address| Ok(6),
    );
    assert!(matches!(t, Err(Erc20TokenActivationError::InternalError(_))));
}

#[test]
fn config_decimals_above_a_byte_are_refused() {
    assert!(matches!(token_decimals_from_conf(None), Ok(None)));
    assert!(matches!(token_decimals_from_conf(Some(0)), Ok(None)));
    assert!(matches!(token_decimals_from_conf(Some(6)), Ok(Some(6))));
    assert!(matches!(token_decimals_from_conf(Some(255)), Ok(Some(255))));
    assert!(matches!(token_decimals_from_conf(Some(256)), Err(Erc20TokenActivationError::InternalError(_))));
}

#[test]
fn out_of_range_config_decimals_fail_token_activation() {
    let mut registry = NonceRegistry::new();
    let mut scopes = ScopeTree::new();
    let eth = platform(&mut registry, &mut scopes);
    let mut conf = CoinConf::empty();
    conf.decimals = Some(256);
    let r = eth.initialize_erc20_token(
        &mut scopes,
        Erc20TokenActivationRequest { required_confirmations: None },
        protocol(),
        "USDC".to_string(),
        &conf,
        |_t: &Web3Transport, _a: Address| Ok(6),
    );
    assert!(matches!(r, Err(Erc20TokenActivationError::InternalError(_))));
}

#[test]
fn first_unparsable_url_is_named() {
    let r = begin_activation(
        "ETH",
        &CoinConf::empty(),
        request(vec![node("http://good.example"), node("http://[::1"), node("http://also bad")]),
        EthPrivKeyBuildPolicy::IguanaPrivKey(secret_of(1)),
    );
    assert!(matches!(r, Err(EthActivationV2Error::InvalidPayload(ref m)) if m == "http://[::1 could not be parsed."));
}

#[test]
fn empty_node_list_is_refused_by_the_pipeline() {
    let probes = Cell::new(0);
    let mut registry = NonceRegistry::new();
    let mut scopes = ScopeTree::new();
    let r = eth_coin_from_conf_and_request_v2(
        &mut registry,
        &mut scopes,
        "ETH",
        &CoinConf::empty(),
        request(vec![]),
        EthPrivKeyBuildPolicy::IguanaPrivKey(secret_of(1)),
        |_n: &HttpTransportNode| {
            probes.set(probes.get() + 1);
            Some("Geth".to_string())
        },
    );
    assert!(matches!(r, Err(EthActivationV2Error::AtLeastOneNodeRequired)));
    assert_eq!(probes.get(), 0);
    assert_eq!(registry.acquire(&addr(9)).id(), 0);
}
