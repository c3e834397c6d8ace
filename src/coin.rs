use vstd::prelude::*;
use crate::address::{checksum_address, checksum_spec, Address};
use crate::conf::CoinConf;
use crate::error::{Erc20TokenActivationError, EthActivationV2Error};
use crate::key_policy::{build_address_and_priv_key_policy, resolves_to, EthPrivKeyBuildPolicy, EthPrivKeyPolicy, KeyPair};
use crate::nonce::{acquires, NonceHandle, NonceRegistry};
use crate::scope::ScopeTree;
use crate::transport::{
    build_http_transport, build_metamask_transport, first_bad_url, http_node_of, live_indices, prepare_http_nodes,
    retagged, transports_match_probes, unparsable_msg, EthTransports, HttpTransportNode, MetamaskTransport, Web3Instance,
    Web3Transport,
};
use crate::types::{
    Erc20Protocol, Erc20TokenActivationRequest, EthActivationV2Request, EthNode, EthRpcMode, GasStationPricePolicy,
};

verus! {

/// The decimals of the platform coin.
pub const ETH_DECIMALS: u8 = 18;

/// The decimals of gas station prices when the request gives none.
pub const ETH_GAS_STATION_DECIMALS: u8 = 8;

/// The block range of log queries when the config gives none.
pub const DEFAULT_LOGS_BLOCK_RANGE: u64 = 1000;

/// The confirmations required when neither the request nor the config gives a number.
pub const DEFAULT_REQUIRED_CONFIRMATIONS: u64 = 1;

#[derive(Clone, Debug, PartialEq, Eq)]
pub enum EthCoinType {
    Eth,
    Erc20 { platform: String, token_addr: Address },
}

/// An activated coin: the platform coin, or a token on it.
#[derive(Debug)]
pub struct EthCoin {
    pub priv_key_policy: EthPrivKeyPolicy,
    pub my_address: Address,
    pub coin_type: EthCoinType,
    pub sign_message_prefix: Option<String>,
    pub swap_contract_address: Address,
    pub fallback_swap_contract: Option<Address>,
    pub decimals: u8,
    pub ticker: String,
    pub gas_station_url: Option<String>,
    pub gas_station_decimals: u8,
    pub gas_station_policy: GasStationPricePolicy,
    pub web3: Web3Transport,
    pub web3_instances: Vec<Web3Instance>,
    pub required_confirmations: u64,
    pub chain_id: Option<u64>,
    pub logs_block_range: u64,
    pub nonce_lock: NonceHandle,
    /// The cancellation scope that the coin's background tasks run under.
    pub abortable_system: usize,
}

/// The confirmations a coin requires: the request's number, else the config's, else
/// the default.
pub open spec fn confirmations_spec(req: Option<u64>, conf: Option<u64>) -> u64 {
    match req {
        Some(n) => n,
        None => match conf {
            Some(n) => n,
            None => DEFAULT_REQUIRED_CONFIRMATIONS,
        },
    }
}

/// The confirmations a coin requires: the request's number, else the config's, else
/// the default.
pub fn resolve_required_confirmations(req: Option<u64>, conf: Option<u64>) -> (r: u64)
    ensures
        r == confirmations_spec(req, conf),
{
    match req {
        Some(n) => n,
        None => match conf {
            Some(n) => n,
            None => DEFAULT_REQUIRED_CONFIRMATIONS,
        },
    }
}

/// The number of confirmations follows the order of precedence: a number in the
/// request wins over one in the config, which wins over the default.
pub proof fn lemma_confirmations_precedence(req: Option<u64>, conf: Option<u64>)
    ensures
        req matches Some(n) ==> confirmations_spec(req, conf) == n,
        req is None && conf is Some ==> confirmations_spec(req, conf) == conf->0,
        req is None && conf is None ==> confirmations_spec(req, conf) == DEFAULT_REQUIRED_CONFIRMATIONS,
{
}

fn clone_text(o: &Option<String>) -> (r: Option<String>)
    ensures
        r == *o,
{
    match o {
        Some(s) => Some(s.clone()),
        None => None,
    }
}

/// How the coin will reach the chain.
#[derive(Debug)]
pub enum PlannedTransport {
    /// Endpoints to probe, in the order in which to probe them, and the key pair that
    /// signs authenticated requests.
    Probe { nodes: Vec<HttpTransportNode>, key_pair: KeyPair },
    /// A transport that needs no probing.
    Ready(EthTransports),
}

/// A validated activation, waiting for its endpoints to be probed.
#[derive(Debug)]
pub struct ActivationPlan {
    pub ticker: String,
    pub my_address: Address,
    pub my_address_str: String,
    pub priv_key_policy: EthPrivKeyPolicy,
    pub transport: PlannedTransport,
    pub swap_contract_address: Address,
    pub fallback_swap_contract: Option<Address>,
    pub gas_station_url: Option<String>,
    pub gas_station_decimals: u8,
    pub gas_station_policy: GasStationPricePolicy,
    pub required_confirmations: u64,
    pub chain_id: Option<u64>,
    pub logs_block_range: u64,
    pub sign_message_prefix: Option<String>,
}

/// The fields of a plan that come from the ticker, the config, the request and the
/// resolved key policy.
pub open spec fn plan_matches(
    plan: ActivationPlan,
    ticker: Seq<char>,
    conf: CoinConf,
    req: EthActivationV2Request,
    a: Address,
    p: EthPrivKeyPolicy,
) -> bool {
    &&& plan.ticker@ == ticker
    &&& plan.my_address == a
    &&& plan.my_address_str@ == checksum_spec(a.0@)
    &&& plan.priv_key_policy == p
    &&& plan.swap_contract_address == req.swap_contract_address
    &&& plan.fallback_swap_contract == req.fallback_swap_contract
    &&& plan.gas_station_url == req.gas_station_url
    &&& plan.gas_station_decimals == (match req.gas_station_decimals {
        Some(d) => d,
        None => ETH_GAS_STATION_DECIMALS,
    })
    &&& plan.gas_station_policy == req.gas_station_policy
    &&& plan.required_confirmations == confirmations_spec(req.required_confirmations, conf.required_confirmations)
    &&& plan.chain_id == conf.chain_id
    &&& plan.logs_block_range == (match conf.logs_block_range {
        Some(n) => n,
        None => DEFAULT_LOGS_BLOCK_RANGE,
    })
    &&& plan.sign_message_prefix == conf.sign_message_prefix
}

/// What the first phase returns once the key policy resolved to `k`.
pub open spec fn plan_outcome(
    ticker: Seq<char>,
    conf: CoinConf,
    req: EthActivationV2Request,
    k: Result<(Address, EthPrivKeyPolicy), EthActivationV2Error>,
    r: Result<ActivationPlan, EthActivationV2Error>,
) -> bool {
    match k {
        Err(e) => r == Err::<ActivationPlan, EthActivationV2Error>(e),
        Ok((a, p)) => {
            &&& r matches Ok(plan) ==> plan_matches(plan, ticker, conf, req, a, p)
            &&& match (req.rpc_mode, p) {
                (EthRpcMode::Http, EthPrivKeyPolicy::KeyPair(kp)) => {
                    &&& req.nodes@.len() == 0 ==> (r matches Err(e) && e is AtLeastOneNodeRequired)
                    &&& req.nodes@.len() > 0 && first_bad_url(req.nodes@) is Some ==> (r matches Err(e)
                        && (e matches EthActivationV2Error::InvalidPayload(m)
                        && m@ == unparsable_msg(req.nodes@[first_bad_url(req.nodes@)->0].url@)))
                    &&& req.nodes@.len() > 0 && first_bad_url(req.nodes@) is None ==> (r matches Ok(plan)
                        && (plan.transport matches PlannedTransport::Probe { nodes, key_pair }
                        && nodes@.to_multiset() == req.nodes@.map_values(|n: EthNode| http_node_of(n)).to_multiset()
                        && key_pair.secret == kp.secret))
                },
                (EthRpcMode::Metamask, EthPrivKeyPolicy::Metamask(ctx)) => r matches Ok(plan)
                    && (plan.transport matches PlannedTransport::Ready(t)
                    && t.web3 == Web3Transport::Metamask(MetamaskTransport { ctx, coin_ticker: plan.ticker })
                    && t.web3_instances@.len() == 1 && t.web3_instances@[0].web3 == t.web3
                    && !t.web3_instances@[0].is_parity),
                _ => r matches Err(e) && e is ActivationFailed,
            }
        },
    }
}

/// The first phase of activating a platform coin: checks the swap contracts, resolves
/// the key policy and prepares the transport. It makes no network call.
pub fn begin_activation(
    ticker: &str,
    conf: &CoinConf,
    req: EthActivationV2Request,
    priv_key_policy: EthPrivKeyBuildPolicy,
) -> (r: Result<ActivationPlan, EthActivationV2Error>)
    ensures
        req.swap_contract_address.is_zero_spec() ==> (r matches Err(e) && e is InvalidSwapContractAddr),
        !req.swap_contract_address.is_zero_spec() && (req.fallback_swap_contract matches Some(f) && f.is_zero_spec())
            ==> (r matches Err(e) && e is InvalidFallbackSwapContract),
        !req.swap_contract_address.is_zero_spec() && !(req.fallback_swap_contract matches Some(f) && f.is_zero_spec())
            ==> exists|k| #[trigger] resolves_to(*conf, priv_key_policy, k) && plan_outcome(ticker@, *conf, req, k, r),
{
    let ticker = ticker.to_owned();
    if req.swap_contract_address.is_zero() {
        return Err(EthActivationV2Error::InvalidSwapContractAddr("swap_contract_address can't be zero address".to_owned()));
    }
    if let Some(fallback) = req.fallback_swap_contract {
        if fallback.is_zero() {
            return Err(EthActivationV2Error::InvalidFallbackSwapContract(
                "fallback_swap_contract can't be zero address".to_owned(),
            ));
        }
    }
    let ghost policy = priv_key_policy;
    let resolved = build_address_and_priv_key_policy(conf, priv_key_policy);
    assert(resolves_to(*conf, policy, resolved));
    let (my_address, priv_key_policy) = match resolved {
        Ok(pair) => pair,
        Err(e) => {
            return Err(e);
        },
    };
    let my_address_str = checksum_address(&my_address);
    let ghost req0 = req;
    let EthActivationV2Request {
        nodes,
        rpc_mode,
        swap_contract_address,
        fallback_swap_contract,
        gas_station_url,
        gas_station_decimals,
        gas_station_policy,
        mm2: _,
        required_confirmations,
        priv_key_policy: _,
    } = req;
    let transport = match (rpc_mode, &priv_key_policy) {
        (EthRpcMode::Http, EthPrivKeyPolicy::KeyPair(kp)) => match prepare_http_nodes(&nodes) {
            Ok(http_nodes) => PlannedTransport::Probe { nodes: http_nodes, key_pair: kp.duplicate() },
            Err(e) => {
                return Err(e);
            },
        },
        (EthRpcMode::Metamask, EthPrivKeyPolicy::Metamask(ctx)) => {
            PlannedTransport::Ready(build_metamask_transport(ctx.duplicate(), ticker.clone()))
        },
        _ => {
            return Err(EthActivationV2Error::ActivationFailed {
                ticker,
                error: "priv_key_policy=\"Metamask\" and rpc_mode=\"Metamask\" should be used both".to_owned(),
            });
        },
    };
    let plan = ActivationPlan {
        ticker,
        my_address,
        my_address_str,
        priv_key_policy,
        transport,
        swap_contract_address,
        fallback_swap_contract,
        gas_station_url,
        gas_station_decimals: match gas_station_decimals {
            Some(d) => d,
            None => ETH_GAS_STATION_DECIMALS,
        },
        gas_station_policy,
        required_confirmations: resolve_required_confirmations(required_confirmations, conf.required_confirmations),
        chain_id: conf.chain_id,
        logs_block_range: match conf.logs_block_range {
            Some(n) => n,
            None => DEFAULT_LOGS_BLOCK_RANGE,
        },
        sign_message_prefix: clone_text(&conf.sign_message_prefix),
    };
    Ok(plan)
}


/// The fields of a platform coin that come from its plan.
pub open spec fn coin_matches_plan(coin: EthCoin, plan: ActivationPlan) -> bool {
    &&& coin.priv_key_policy == plan.priv_key_policy
    &&& coin.my_address == plan.my_address
    &&& coin.coin_type == EthCoinType::Eth
    &&& coin.sign_message_prefix == plan.sign_message_prefix
    &&& coin.swap_contract_address == plan.swap_contract_address
    &&& coin.fallback_swap_contract == plan.fallback_swap_contract
    &&& coin.decimals == ETH_DECIMALS
    &&& coin.ticker == plan.ticker
    &&& coin.gas_station_url == plan.gas_station_url
    &&& coin.gas_station_decimals == plan.gas_station_decimals
    &&& coin.gas_station_policy == plan.gas_station_policy
    &&& coin.required_confirmations == plan.required_confirmations
    &&& coin.chain_id == plan.chain_id
    &&& coin.logs_block_range == plan.logs_block_range
}

/// Whether the probes leave a usable transport: some endpoint answered, or there was
/// nothing to probe.
pub open spec fn probes_suffice(plan: ActivationPlan, versions: Seq<Option<String>>) -> bool {
    match plan.transport {
        PlannedTransport::Probe { nodes, key_pair } => live_indices(versions).len() > 0,
        PlannedTransport::Ready(t) => true,
    }
}

/// The transports of the coin are those that the plan and the probes give.
pub open spec fn coin_transports_match(coin: EthCoin, plan: ActivationPlan, versions: Seq<Option<String>>) -> bool {
    match plan.transport {
        PlannedTransport::Probe { nodes, key_pair } => transports_match_probes(
            EthTransports { web3: coin.web3, web3_instances: coin.web3_instances },
            plan.ticker@,
            plan.my_address_str@,
            key_pair.secret,
            nodes@,
            versions,
        ),
        PlannedTransport::Ready(t) => coin.web3 == t.web3 && coin.web3_instances == t.web3_instances,
    }
}

/// What the second phase does, from the registry and scopes `reg0` and `sc0` to `reg1`
/// and `sc1`, given the plan and the probe outcomes.
pub open spec fn finish_outcome(
    plan: ActivationPlan,
    versions: Seq<Option<String>>,
    reg0: NonceRegistry,
    sc0: ScopeTree,
    r: Result<EthCoin, EthActivationV2Error>,
    reg1: NonceRegistry,
    sc1: ScopeTree,
) -> bool {
    &&& reg1.wf()
    &&& sc1.wf()
    &&& r is Ok <==> probes_suffice(plan, versions) && !sc0.is_aborted_spec(0)
    &&& plan.transport is Probe && plan.transport->Probe_nodes@.len() == 0
        ==> (r matches Err(e) && e is AtLeastOneNodeRequired)
    &&& plan.transport is Probe && plan.transport->Probe_nodes@.len() > 0 && !probes_suffice(plan, versions)
        ==> (r matches Err(e) && e is UnreachableNodes)
    &&& probes_suffice(plan, versions) && sc0.is_aborted_spec(0) ==> (r matches Err(e) && e is InternalError)
    &&& r is Err ==> reg1 == reg0 && sc1 == sc0
    &&& r matches Ok(coin) ==> coin_matches_plan(coin, plan) && coin_transports_match(coin, plan, versions)
        && acquires(reg0, plan.my_address, coin.nonce_lock, reg1)
        && ScopeTree::child_created(sc0, 0, coin.abortable_system as int, sc1)
}

/// The second phase of activating a platform coin, once each planned endpoint has been
/// probed: `versions[i]` is the version that the `i`-th endpoint reported, or `None`
/// where it did not answer. Builds the transports, opens the coin's cancellation scope
/// below the root and, last, takes the account's nonce handle from the registry.
pub fn finish_activation(
    plan: ActivationPlan,
    versions: Vec<Option<String>>,
    registry: &mut NonceRegistry,
    scopes: &mut ScopeTree,
) -> (r: Result<EthCoin, EthActivationV2Error>)
    requires
        old(registry).wf(),
        old(scopes).wf(),
        plan.transport matches PlannedTransport::Probe { nodes, key_pair } ==> versions@.len() == nodes@.len(),
    ensures
        finish_outcome(plan, versions@, *old(registry), *old(scopes), r, *final(registry), *final(scopes)),
{
    let ghost plan0 = plan;
    let ActivationPlan {
        ticker,
        my_address,
        my_address_str,
        priv_key_policy,
        transport,
        swap_contract_address,
        fallback_swap_contract,
        gas_station_url,
        gas_station_decimals,
        gas_station_policy,
        required_confirmations,
        chain_id,
        logs_block_range,
        sign_message_prefix,
    } = plan;
    let transports = match transport {
        PlannedTransport::Probe { nodes, key_pair } => {
            match build_http_transport(ticker.clone(), my_address_str, &key_pair, nodes, versions) {
                Ok(t) => t,
                Err(e) => {
                    return Err(e);
                },
            }
        },
        PlannedTransport::Ready(t) => t,
    };
    let root = scopes.root();
    let abortable_system = match scopes.create_subsystem(root) {
        Ok(s) => s,
        Err(_) => {
            return Err(EthActivationV2Error::InternalError("the daemon is stopping".to_owned()));
        },
    };
    let nonce_lock = registry.acquire(&my_address);
    let EthTransports { web3, web3_instances } = transports;
    Ok(EthCoin {
        priv_key_policy,
        my_address,
        coin_type: EthCoinType::Eth,
        sign_message_prefix,
        swap_contract_address,
        fallback_swap_contract,
        decimals: ETH_DECIMALS,
        ticker,
        gas_station_url,
        gas_station_decimals,
        gas_station_policy,
        web3,
        web3_instances,
        required_confirmations,
        chain_id,
        logs_block_range,
        nonce_lock,
        abortable_system,
    })
}


/// When some endpoints answer the probes, the coin has one client per endpoint that
/// answered, in probing order, and its broadcast transport still covers every planned
/// endpoint, reachable or not.
pub proof fn lemma_partial_reachability(coin: EthCoin, plan: ActivationPlan, versions: Seq<Option<String>>)
    requires
        plan.transport is Probe,
        coin_transports_match(coin, plan, versions),
    ensures
        coin.web3_instances@.len() == live_indices(versions).len(),
        coin.web3 matches Web3Transport::Http(h) && h.nodes@ == plan.transport->Probe_nodes@,
{
}

/// `versions` are the outcomes of probing, in order, each endpoint that the plan lists.
pub open spec fn probed<P: Fn(&HttpTransportNode) -> Option<String>>(
    probe: P,
    plan: ActivationPlan,
    versions: Seq<Option<String>>,
) -> bool {
    match plan.transport {
        PlannedTransport::Probe { nodes, key_pair } => versions.len() == nodes@.len() && forall|i: int|
            0 <= i < versions.len() ==> #[trigger] probe.ensures((&nodes@[i],), versions[i]),
        PlannedTransport::Ready(t) => versions.len() == 0,
    }
}

/// Activates a platform coin: `begin_activation`, then `probe` on each planned endpoint
/// in the planned order, then `finish_activation`. `probe` asks an endpoint for its
/// client version and gives `None` where it did not answer.
pub fn eth_coin_from_conf_and_request_v2<P: Fn(&HttpTransportNode) -> Option<String>>(
    registry: &mut NonceRegistry,
    scopes: &mut ScopeTree,
    ticker: &str,
    conf: &CoinConf,
    req: EthActivationV2Request,
    priv_key_policy: EthPrivKeyBuildPolicy,
    probe: P,
) -> (r: Result<EthCoin, EthActivationV2Error>)
    requires
        old(registry).wf(),
        old(scopes).wf(),
        forall|n: &HttpTransportNode| #[trigger] probe.requires((n,)),
    ensures
        final(registry).wf(),
        final(scopes).wf(),
        req.swap_contract_address.is_zero_spec() ==> (r matches Err(e) && e is InvalidSwapContractAddr),
        !req.swap_contract_address.is_zero_spec() && (req.fallback_swap_contract matches Some(f) && f.is_zero_spec())
            ==> (r matches Err(e) && e is InvalidFallbackSwapContract),
        old(scopes).is_aborted_spec(0) ==> r is Err,
        r is Err ==> *final(registry) == *old(registry) && *final(scopes) == *old(scopes),
        !req.swap_contract_address.is_zero_spec() && !(req.fallback_swap_contract matches Some(f) && f.is_zero_spec())
            ==> exists|k: Result<(Address, EthPrivKeyPolicy), EthActivationV2Error>, pr: Result<ActivationPlan, EthActivationV2Error>|
            #[trigger] plan_outcome(ticker@, *conf, req, k, pr) && resolves_to(*conf, priv_key_policy, k)
            && (pr matches Err(e) ==> r == Err::<EthCoin, EthActivationV2Error>(e))
            && (pr matches Ok(plan) ==> exists|versions: Seq<Option<String>>| #[trigger] probed(probe, plan, versions)
                && finish_outcome(plan, versions, *old(registry), *old(scopes), r, *final(registry), *final(scopes))),
{
    let plan = match begin_activation(ticker, conf, req, priv_key_policy) {
        Ok(plan) => plan,
        Err(e) => {
            return Err(e);
        },
    };
    let ghost plan0 = plan;
    let mut versions: Vec<Option<String>> = Vec::new();
    match &plan.transport {
        PlannedTransport::Probe { nodes, key_pair: _ } => {
            let mut i: usize = 0;
            while i < nodes.len()
                invariant
                    i <= nodes@.len(),
                    versions@.len() == i,
                    forall|n: &HttpTransportNode| #[trigger] probe.requires((n,)),
                    forall|j: int| 0 <= j < i ==> #[trigger] probe.ensures((&nodes@[j],), versions@[j]),
                decreases nodes@.len() - i,
            {
                let v = probe(&nodes[i]);
                versions.push(v);
                i = i + 1;
            }
        },
        PlannedTransport::Ready(_) => {},
    }
    assert(probed(probe, plan0, versions@));
    let r = finish_activation(plan, versions, registry, scopes);
    assert(finish_outcome(plan0, versions@, *old(registry), *old(scopes), r, *registry, *scopes));
    r
}

/// The decimals that a token's config fixes: its number when given, nonzero and at
/// most 255.
pub open spec fn conf_token_decimals(d: Option<u64>) -> Option<u8> {
    match d {
        Some(n) => if 0 < n <= 255 {
            Some(n as u8)
        } else {
            None
        },
        None => None,
    }
}

/// The config gives a number of decimals that no token can have.
pub open spec fn conf_decimals_out_of_range(d: Option<u64>) -> bool {
    d matches Some(n) && n > 255
}

/// The decimals that a token's config fixes, if it fixes them: its number when given
/// and nonzero. A number above 255 is an error.
pub fn token_decimals_from_conf(d: Option<u64>) -> (r: Result<Option<u8>, Erc20TokenActivationError>)
    ensures
        conf_decimals_out_of_range(d) ==> (r matches Err(e) && e is InternalError),
        !conf_decimals_out_of_range(d) ==> r == Ok::<Option<u8>, Erc20TokenActivationError>(conf_token_decimals(d)),
{
    match d {
        Some(n) => if n > 255 {
            Err(Erc20TokenActivationError::InternalError("'decimals' in the config is above 255".to_owned()))
        } else if n == 0 {
            Ok(None)
        } else {
            Ok(Some(n as u8))
        },
        None => Ok(None),
    }
}

/// The fields of a token that come from its platform coin, its request, its protocol
/// and its ticker.
pub open spec fn token_matches(
    platform: EthCoin,
    token: EthCoin,
    params: Erc20TokenActivationRequest,
    protocol: Erc20Protocol,
    ticker: String,
    conf: CoinConf,
) -> bool {
    &&& token.priv_key_policy.same_as(platform.priv_key_policy)
    &&& token.my_address == platform.my_address
    &&& token.coin_type == (EthCoinType::Erc20 { platform: protocol.platform, token_addr: protocol.token_addr })
    &&& token.sign_message_prefix == platform.sign_message_prefix
    &&& token.swap_contract_address == platform.swap_contract_address
    &&& token.fallback_swap_contract == platform.fallback_swap_contract
    &&& token.ticker == ticker
    &&& token.gas_station_url == platform.gas_station_url
    &&& token.gas_station_decimals == platform.gas_station_decimals
    &&& token.gas_station_policy == platform.gas_station_policy
    &&& retagged(platform.web3, ticker@, token.web3)
    &&& token.web3_instances@.len() == platform.web3_instances@.len()
    &&& forall|i: int| 0 <= i < token.web3_instances@.len() ==>
        retagged(platform.web3_instances@[i].web3, ticker@, #[trigger] token.web3_instances@[i].web3)
        && token.web3_instances@[i].is_parity == platform.web3_instances@[i].is_parity
    &&& token.required_confirmations == confirmations_spec(params.required_confirmations, conf.required_confirmations)
    &&& token.chain_id == platform.chain_id
    &&& token.logs_block_range == platform.logs_block_range
    &&& token.nonce_lock.id_spec() == platform.nonce_lock.id_spec()
}

impl EthCoin {
    /// Derives a token coin from this platform coin. It shares the platform's account,
    /// signer, endpoints and nonce handle, tags its signed requests with its own ticker
    /// and runs under a scope of its own below the root. Its decimals come from the
    /// config, or else from `get_token_decimals` on the platform's transport and the
    /// token's contract.
    pub fn initialize_erc20_token<Q: Fn(&Web3Transport, Address) -> Result<u8, String>>(
        &self,
        scopes: &mut ScopeTree,
        activation_params: Erc20TokenActivationRequest,
        protocol: Erc20Protocol,
        ticker: String,
        conf: &CoinConf,
        get_token_decimals: Q,
    ) -> (r: Result<EthCoin, Erc20TokenActivationError>)
        requires
            old(scopes).wf(),
            forall|t: &Web3Transport, a: Address| #[trigger] get_token_decimals.requires((t, a)),
        ensures
            final(scopes).wf(),
            r is Err ==> *final(scopes) == *old(scopes),
            r matches Err(e) ==> e is InternalError,
            old(scopes).is_aborted_spec(0) ==> r is Err,
            conf_decimals_out_of_range(conf.decimals) ==> r is Err,
            conf_token_decimals(conf.decimals) is Some && !old(scopes).is_aborted_spec(0) ==> r is Ok,
            r matches Err(Erc20TokenActivationError::InternalError(m)) ==> old(scopes).is_aborted_spec(0)
                || conf_decimals_out_of_range(conf.decimals) || (conf_token_decimals(conf.decimals) is None
                && get_token_decimals.ensures((&self.web3, protocol.token_addr), Err::<u8, String>(m))),
            r matches Ok(token) ==> {
                &&& token_matches(*self, token, activation_params, protocol, ticker, *conf)
                &&& ScopeTree::child_created(*old(scopes), 0, token.abortable_system as int, *final(scopes))
                &&& conf_token_decimals(conf.decimals) matches Some(d) ==> token.decimals == d
                &&& conf_token_decimals(conf.decimals) is None ==> get_token_decimals.ensures(
                    (&self.web3, protocol.token_addr),
                    Ok::<u8, String>(token.decimals),
                )
            },
            r is Ok && conf.decimals is Some && 0 < conf.decimals->0 <= 255 ==> r->Ok_0.decimals == conf.decimals->0,
    {
        let fixed = match token_decimals_from_conf(conf.decimals) {
            Ok(fixed) => fixed,
            Err(e) => {
                return Err(e);
            },
        };
        let decimals = match fixed {
            Some(d) => d,
            None => match get_token_decimals(&self.web3, protocol.token_addr) {
                Ok(d) => d,
                Err(e) => {
                    return Err(Erc20TokenActivationError::InternalError(e));
                },
            },
        };
        let mut web3_instances: Vec<Web3Instance> = Vec::new();
        let mut i: usize = 0;
        while i < self.web3_instances.len()
            invariant
                i <= self.web3_instances@.len(),
                web3_instances@.len() == i,
                forall|j: int| 0 <= j < i ==>
                    retagged(self.web3_instances@[j].web3, ticker@, #[trigger] web3_instances@[j].web3)
                    && web3_instances@[j].is_parity == self.web3_instances@[j].is_parity,
            decreases self.web3_instances@.len() - i,
        {
            let node = &self.web3_instances[i];
            web3_instances.push(Web3Instance { web3: node.web3.with_ticker(&ticker), is_parity: node.is_parity });
            i = i + 1;
        }
        let web3 = self.web3.with_ticker(&ticker);
        let required_confirmations = resolve_required_confirmations(
            activation_params.required_confirmations,
            conf.required_confirmations,
        );
        let root = scopes.root();
        let abortable_system = match scopes.create_subsystem(root) {
            Ok(s) => s,
            Err(_) => {
                return Err(Erc20TokenActivationError::InternalError("the daemon is stopping".to_owned()));
            },
        };
        Ok(EthCoin {
            priv_key_policy: self.priv_key_policy.duplicate(),
            my_address: self.my_address,
            coin_type: EthCoinType::Erc20 { platform: protocol.platform, token_addr: protocol.token_addr },
            sign_message_prefix: clone_text(&self.sign_message_prefix),
            swap_contract_address: self.swap_contract_address,
            fallback_swap_contract: self.fallback_swap_contract,
            decimals,
            ticker,
            gas_station_url: clone_text(&self.gas_station_url),
            gas_station_decimals: self.gas_station_decimals,
            gas_station_policy: self.gas_station_policy,
            web3,
            web3_instances,
            required_confirmations,
            chain_id: self.chain_id,
            logs_block_range: self.logs_block_range,
            nonce_lock: self.nonce_lock.share(),
            abortable_system,
        })
    }
}

} // verus!
