use vstd::prelude::*;
use crate::coin::{EthCoin, EthCoinType, ETH_DECIMALS};
use crate::types::{EthActivationV2Request, Erc20TokenActivationRequest};

verus! {

/// The protocol that a coin's config names.
#[derive(Clone, Debug, PartialEq, Eq)]
pub enum CoinProtocol {
    ETH,
    ERC20 { platform: String, contract_address: String },
    Other(String),
}

/// What a platform coin's protocol fixes: its kind and its decimals.
#[derive(Clone, Debug)]
pub struct EthProtocolInfo {
    pub coin_type: EthCoinType,
    pub decimals: u8,
}

impl EthProtocolInfo {
    /// The platform protocol info of a protocol; any protocol but the platform's own is
    /// handed back.
    pub fn try_from_coin_protocol(proto: CoinProtocol) -> (r: Result<EthProtocolInfo, CoinProtocol>)
        ensures
            proto is ETH ==> (r matches Ok(info) && info.coin_type == EthCoinType::Eth && info.decimals == ETH_DECIMALS),
            !(proto is ETH) ==> r == Err::<EthProtocolInfo, CoinProtocol>(proto),
    {
        match proto {
            CoinProtocol::ETH => Ok(EthProtocolInfo { coin_type: EthCoinType::Eth, decimals: ETH_DECIMALS }),
            protocol => Err(protocol),
        }
    }
}

/// Activates tokens on a platform coin.
#[derive(Debug)]
pub struct Erc20Initializer {
    pub platform_coin: EthCoin,
}

/// A token of the combined activation request.
#[derive(Clone, Debug)]
pub struct TokenActivationRequest {
    pub ticker: String,
    pub request: Erc20TokenActivationRequest,
}

/// The request to activate a platform coin together with tokens on it.
#[derive(Clone, Debug)]
pub struct EthWithTokensActivationRequest {
    pub platform_request: EthActivationV2Request,
    pub tx_history: Option<bool>,
    pub erc20_tokens_requests: Vec<TokenActivationRequest>,
}

impl EthWithTokensActivationRequest {
    /// Whether the transaction history is to be kept; it is not unless asked for.
    pub fn tx_history(&self) -> (r: bool)
        ensures
            r == (self.tx_history == Some(true)),
    {
        match self.tx_history {
            Some(b) => b,
            None => false,
        }
    }
}

/// What the combined activation reports.
#[derive(Clone, Debug)]
pub struct EthWithTokensActivationResult {
    pub current_block: u64,
}

impl EthWithTokensActivationResult {
    pub fn current_block(&self) -> (r: u64)
        ensures
            r == self.current_block,
    {
        self.current_block
    }
}

} // verus!
