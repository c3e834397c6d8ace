use vstd::prelude::*;
use std::sync::Arc;
use crate::key_policy::KeyPair;

verus! {

/// The wallet's secp256k1 key pair, derived from its passphrase.
#[derive(Debug)]
pub struct KeyPairCtx {
    pub(crate) secp256k1_key_pair: KeyPair,
}

impl KeyPairCtx {
    pub fn new(secp256k1_key_pair: KeyPair) -> (r: KeyPairCtx)
        ensures
            r.key_pair() == secp256k1_key_pair,
    {
        KeyPairCtx { secp256k1_key_pair }
    }

    pub closed spec fn key_pair(&self) -> KeyPair {
        self.secp256k1_key_pair
    }

    /// The SEC1 encoding of the public key.
    pub fn secp256k1_pubkey(&self) -> (r: &Vec<u8>)
        ensures
            r@ == self.key_pair().public@,
    {
        &self.secp256k1_key_pair.public
    }

    /// The 32 bytes of the secret scalar.
    pub fn secp256k1_privkey(&self) -> (r: &[u8; 32])
        ensures
            *r == self.key_pair().secret,
    {
        &self.secp256k1_key_pair.secret
    }

    /// The secret scalar as a byte slice.
    pub fn secp256k1_privkey_bytes(&self) -> (r: &[u8])
        ensures
            r@ == self.key_pair().secret@,
    {
        self.secp256k1_key_pair.secret.as_slice()
    }
}

/// A shared reference to the wallet's key-pair context.
#[derive(Clone, Debug)]
pub struct KeyPairArc(Arc<KeyPairCtx>);

impl KeyPairArc {
    pub fn new(ctx: KeyPairCtx) -> (r: KeyPairArc)
        ensures
            r.ctx_spec() == ctx,
    {
        KeyPairArc(Arc::new(ctx))
    }

    pub closed spec fn ctx_spec(&self) -> KeyPairCtx {
        *self.0
    }

    /// The key-pair context that this refers to.
    pub fn ctx(&self) -> (r: &KeyPairCtx)
        ensures
            *r == self.ctx_spec(),
    {
        &self.0
    }

    /// Shares a key pair.
    pub fn from_key_pair(secp256k1_key_pair: KeyPair) -> (r: KeyPairArc)
        ensures
            r.ctx_spec().key_pair() == secp256k1_key_pair,
    {
        KeyPairArc::new(KeyPairCtx { secp256k1_key_pair })
    }
}

} // verus!
