//! Activation of an account-based platform coin and of the tokens derived from it:
//! key-policy resolution, node transports with liveness probing, the per-account
//! nonce registry and the cancellation scopes that coins run under.

pub mod address;
pub mod coin;
pub mod conf;
pub mod error;
pub mod hd_path;
pub mod key_pair_ctx;
pub mod key_policy;
pub mod nonce;
pub mod platform;
pub mod scope;
pub mod transport;
pub mod types;
