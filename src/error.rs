use vstd::prelude::*;

verus! {

/// Why a key policy was refused by the current build or runtime mode.
#[derive(Clone, Debug, PartialEq, Eq)]
pub enum PrivKeyPolicyNotAllowed {
    HardwareWalletNotSupported,
    UnsupportedMethod(String),
    InternalError(String),
}

/// Errors of the platform coin activation.
#[derive(Clone, Debug, PartialEq, Eq)]
pub enum EthActivationV2Error {
    InvalidPayload(String),
    InvalidSwapContractAddr(String),
    InvalidFallbackSwapContract(String),
    ActivationFailed { ticker: String, error: String },
    CouldNotFetchBalance(String),
    UnreachableNodes(String),
    AtLeastOneNodeRequired,
    DerivationPathIsNotSet,
    ErrorDeserializingDerivationPath(String),
    PrivKeyPolicyNotAllowed(PrivKeyPolicyNotAllowed),
    MetamaskCtxNotInitialized,
    InternalError(String),
}

/// Errors of the token activation.
#[derive(Clone, Debug, PartialEq, Eq)]
pub enum Erc20TokenActivationError {
    InternalError(String),
    CouldNotFetchBalance(String),
}

/// Errors of the combined "platform coin with tokens" activation.
#[derive(Clone, Debug, PartialEq, Eq)]
pub enum EnablePlatformCoinWithTokensError {
    PlatformCoinCreationError { ticker: String, error: String },
    PrivKeyNotAllowed(PrivKeyPolicyNotAllowed),
    InvalidPayload(String),
    Transport(String),
    Internal(String),
}

/// What each platform activation error becomes in the combined activation: the
/// variant, and the message wherever the platform error carries one.
pub open spec fn converts_to(err: EthActivationV2Error, out: EnablePlatformCoinWithTokensError) -> bool {
    match err {
        EthActivationV2Error::InvalidPayload(e)
        | EthActivationV2Error::InvalidSwapContractAddr(e)
        | EthActivationV2Error::InvalidFallbackSwapContract(e)
        | EthActivationV2Error::ErrorDeserializingDerivationPath(e) =>
            out == EnablePlatformCoinWithTokensError::InvalidPayload(e),
        EthActivationV2Error::DerivationPathIsNotSet => out is InvalidPayload,
        EthActivationV2Error::ActivationFailed { ticker, error } =>
            out == (EnablePlatformCoinWithTokensError::PlatformCoinCreationError { ticker, error }),
        EthActivationV2Error::CouldNotFetchBalance(e) | EthActivationV2Error::UnreachableNodes(e) =>
            out == EnablePlatformCoinWithTokensError::Transport(e),
        EthActivationV2Error::AtLeastOneNodeRequired => out is Transport,
        EthActivationV2Error::PrivKeyPolicyNotAllowed(e) => out == EnablePlatformCoinWithTokensError::PrivKeyNotAllowed(e),
        EthActivationV2Error::MetamaskCtxNotInitialized => out is Internal,
        EthActivationV2Error::InternalError(e) => out == EnablePlatformCoinWithTokensError::Internal(e),
    }
}

impl EnablePlatformCoinWithTokensError {
    /// Converts a platform activation error into the combined activation's error.
    pub fn from_platform_error(err: EthActivationV2Error) -> (r: EnablePlatformCoinWithTokensError)
        ensures
            converts_to(err, r),
    {
        match err {
            EthActivationV2Error::InvalidPayload(e)
            | EthActivationV2Error::InvalidSwapContractAddr(e)
            | EthActivationV2Error::InvalidFallbackSwapContract(e)
            | EthActivationV2Error::ErrorDeserializingDerivationPath(e) =>
                EnablePlatformCoinWithTokensError::InvalidPayload(e),
            EthActivationV2Error::DerivationPathIsNotSet =>
                EnablePlatformCoinWithTokensError::InvalidPayload("'derivation_path' field is not found in config".to_owned()),
            EthActivationV2Error::ActivationFailed { ticker, error } =>
                EnablePlatformCoinWithTokensError::PlatformCoinCreationError { ticker, error },
            EthActivationV2Error::CouldNotFetchBalance(e) | EthActivationV2Error::UnreachableNodes(e) =>
                EnablePlatformCoinWithTokensError::Transport(e),
            EthActivationV2Error::AtLeastOneNodeRequired =>
                EnablePlatformCoinWithTokensError::Transport("Enable request for ETH coin must have at least 1 node".to_owned()),
            EthActivationV2Error::PrivKeyPolicyNotAllowed(e) => EnablePlatformCoinWithTokensError::PrivKeyNotAllowed(e),
            EthActivationV2Error::MetamaskCtxNotInitialized =>
                EnablePlatformCoinWithTokensError::Internal("MetaMask context is not initialized".to_owned()),
            EthActivationV2Error::InternalError(e) => EnablePlatformCoinWithTokensError::Internal(e),
        }
    }
}

impl From<EthActivationV2Error> for EnablePlatformCoinWithTokensError {
    fn from(err: EthActivationV2Error) -> (r: EnablePlatformCoinWithTokensError)
        ensures
            converts_to(err, r),
    {
        Self::from_platform_error(err)
    }
}

impl vstd::std_specs::convert::FromSpecImpl<EthActivationV2Error> for EnablePlatformCoinWithTokensError {
    open spec fn obeys_from_spec() -> bool {
        false
    }

    open spec fn from_spec(err: EthActivationV2Error) -> EnablePlatformCoinWithTokensError {
        choose|r: EnablePlatformCoinWithTokensError| converts_to(err, r)
    }
}

} // verus!
