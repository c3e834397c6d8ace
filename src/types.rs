use vstd::prelude::*;
use crate::address::Address;

verus! {

/// How the activation request asks for the signing key.
#[derive(Clone, Copy, Debug, PartialEq, Eq, Structural)]
pub enum EthPrivKeyActivationPolicy {
    ContextPrivKey,
    Metamask,
}

impl Default for EthPrivKeyActivationPolicy {
    fn default() -> (r: Self)
        ensures
            r == EthPrivKeyActivationPolicy::ContextPrivKey,
    {
        EthPrivKeyActivationPolicy::ContextPrivKey
    }
}

/// Whether the coin talks to its own nodes or through a host-delegated provider.
#[derive(Clone, Copy, Debug, PartialEq, Eq, Structural)]
pub enum EthRpcMode {
    Http,
    Metamask,
}

impl Default for EthRpcMode {
    fn default() -> (r: Self)
        ensures
            r == EthRpcMode::Http,
    {
        EthRpcMode::Http
    }
}

/// How a gas price is taken from a gas station's answer.
#[derive(Clone, Copy, Debug, PartialEq, Eq, Structural)]
pub enum GasStationPricePolicy {
    MeanAverageFast,
    Median,
}

impl Default for GasStationPricePolicy {
    fn default() -> (r: Self)
        ensures
            r == GasStationPricePolicy::MeanAverageFast,
    {
        GasStationPricePolicy::MeanAverageFast
    }
}

/// A node endpoint of the activation request.
#[derive(Clone, Debug)]
pub struct EthNode {
    pub url: String,
    /// Whether the node asks for signed ("GUI auth") requests.
    pub gui_auth: bool,
}

/// The activation request of a platform coin.
#[derive(Clone, Debug)]
pub struct EthActivationV2Request {
    pub nodes: Vec<EthNode>,
    pub rpc_mode: EthRpcMode,
    pub swap_contract_address: Address,
    pub fallback_swap_contract: Option<Address>,
    pub gas_station_url: Option<String>,
    pub gas_station_decimals: Option<u8>,
    pub gas_station_policy: GasStationPricePolicy,
    pub mm2: Option<u8>,
    pub required_confirmations: Option<u64>,
    pub priv_key_policy: EthPrivKeyActivationPolicy,
}

/// The activation request of a token.
#[derive(Clone, Copy, Debug)]
pub struct Erc20TokenActivationRequest {
    pub required_confirmations: Option<u64>,
}

/// The protocol of a token: its platform coin and its contract.
#[derive(Clone, Debug)]
pub struct Erc20Protocol {
    pub platform: String,
    pub token_addr: Address,
}

} // verus!
