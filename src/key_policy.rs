use vstd::prelude::*;
use k256::elliptic_curve::sec1::ToEncodedPoint;
use sha3::Digest;
use crate::address::{addr_from_str, hex_address_bytes, is_hex_address, Address};
use crate::conf::{CoinConf, ConfText};
use crate::error::EthActivationV2Error;
use crate::hd_path::{account_path_spec, parse_path_spec, StandardHDPathToCoin, HARDENED};

verus! {

/// The 65-byte uncompressed SEC1 encoding of the secp256k1 public key of a secret.
pub uninterp spec fn secp256k1_public_of(secret: Seq<u8>) -> Seq<u8>;

/// The Keccak-256 digest of some bytes.
pub uninterp spec fn keccak256_of(data: Seq<u8>) -> Seq<u8>;

/// The BIP32 private key reached from a seed along some child numbers, or the text of
/// the error that stops the derivation.
pub uninterp spec fn hd_secret_of(seed: Seq<u8>, path: Seq<u32>) -> Result<Seq<u8>, Seq<char>>;

/// The order of the secp256k1 group.
pub open spec fn secp256k1_order() -> nat {
    0xFFFFFFFFFFFFFFFFFFFFFFFFFFFFFFFEBAAEDCE6AF48A03BBFD25E8CD0364141nat
}

/// The value of bytes read as a big-endian unsigned integer.
pub open spec fn be_value(s: Seq<u8>) -> nat
    decreases s.len(),
{
    if s.len() == 0 {
        0
    } else {
        be_value(s.drop_last()) * 256 + s.last() as nat
    }
}

/// A secret key is 32 bytes that encode a scalar in `1 .. order`.
pub open spec fn valid_secret_scalar(secret: Seq<u8>) -> bool {
    secret.len() == 32 && 0 < be_value(secret) && be_value(secret) < secp256k1_order()
}

/// The account address of a secret: the last 20 bytes of the Keccak-256 digest of the
/// public key's two coordinates.
pub open spec fn eth_address_of_secret(secret: Seq<u8>) -> Seq<u8> {
    keccak256_of(secp256k1_public_of(secret).subrange(1, 65)).subrange(12, 32)
}

/// Relies on k256's `SecretKey::from_slice`, which on 32 bytes reads a big-endian scalar
/// and refuses zero and values not below the group order, then on `SecretKey::public_key`
/// and `PublicKey::to_encoded_point(false)`: the uncompressed SEC1 encoding of the point.
#[verifier::external_body]
fn secp256k1_public(secret: &[u8; 32]) -> (r: Option<Vec<u8>>)
    ensures
        r is Some <==> valid_secret_scalar(secret@),
        r matches Some(p) ==> p@ == secp256k1_public_of(secret@) && p@.len() == 65,
{
    k256::SecretKey::from_slice(secret).ok().map(|k| k.public_key().to_encoded_point(false).as_bytes().to_vec())
}

/// Relies on sha3's `Keccak256::digest`: the Keccak-256 digest of the bytes.
#[verifier::external_body]
pub(crate) fn keccak256(data: &[u8]) -> (r: [u8; 32])
    ensures
        r@ == keccak256_of(data@),
{
    sha3::Keccak256::digest(data).into()
}

/// Relies on bip32's `XPrv::derive_from_path`: the private key reached from the seed's
/// root key along the child numbers, or its error's `Display` text. Whether it fails
/// depends on the seed and the path alone: a seed that is not 16, 32 or 64 bytes long,
/// a path deeper than 255, or the rare child index whose tweak is not a valid scalar.
#[verifier::external_body]
fn derive_hd_secret(seed: &Vec<u8>, path: &Vec<u32>) -> (r: Result<[u8; 32], String>)
    ensures
        r is Ok ==> hd_secret_of(seed@, path@) == Ok::<Seq<u8>, Seq<char>>(r->Ok_0@),
        r is Err ==> hd_secret_of(seed@, path@) == Err::<Seq<u8>, Seq<char>>(r->Err_0@),
        r is Ok ==> seed@.len() == 16 || seed@.len() == 32 || seed@.len() == 64,
{
    let mut p = bip32::DerivationPath::default();
    for c in path.iter() {
        p.push(bip32::ChildNumber(*c));
    }
    bip32::XPrv::derive_from_path(seed, &p).map(|k| k.to_bytes()).map_err(|e| e.to_string())
}

/// A secp256k1 key pair and the account address it controls.
#[derive(Clone, Debug)]
pub struct KeyPair {
    pub secret: [u8; 32],
    pub public: Vec<u8>,
    pub address: Address,
}

fn copy_bytes(v: &Vec<u8>) -> (r: Vec<u8>)
    ensures
        r@ == v@,
{
    let mut out: Vec<u8> = Vec::new();
    let mut i: usize = 0;
    while i < v.len()
        invariant
            i <= v@.len(),
            out@ == v@.subrange(0, i as int),
        decreases v@.len() - i,
    {
        out.push(v[i]);
        assert(out@ =~= v@.subrange(0, i + 1));
        i = i + 1;
    }
    assert(out@ =~= v@);
    out
}

impl KeyPair {
    pub fn duplicate(&self) -> (r: KeyPair)
        ensures
            r.secret == self.secret,
            r.public@ == self.public@,
            r.address == self.address,
    {
        KeyPair { secret: self.secret, public: copy_bytes(&self.public), address: self.address }
    }

    /// The key pair of a secret, if the secret is a valid scalar.
    pub fn from_secret(secret: [u8; 32]) -> (r: Option<KeyPair>)
        ensures
            r is Some <==> valid_secret_scalar(secret@),
            r matches Some(kp) ==> kp.secret == secret && kp.address.0@ == eth_address_of_secret(secret@)
                && kp.public@ == secp256k1_public_of(secret@),
    {
        let public = match secp256k1_public(&secret) {
            Some(p) => p,
            None => {
                return None;
            },
        };
        let mut coords: Vec<u8> = Vec::new();
        let mut i: usize = 1;
        while i < 65
            invariant
                public@.len() == 65,
                1 <= i <= 65,
                coords@ == public@.subrange(1, i as int),
            decreases 65 - i,
        {
            coords.push(public[i]);
            assert(coords@ =~= public@.subrange(1, i + 1));
            i = i + 1;
        }
        let digest = keccak256(coords.as_slice());
        let mut out = [0u8; 20];
        let mut j: usize = 0;
        while j < 20
            invariant
                digest@.len() == 32,
                j <= 20,
                forall|m: int| 0 <= m < j ==> #[trigger] out@[m] == digest@[12 + m],
            decreases 20 - j,
        {
            out[j] = digest[12 + j];
            j = j + 1;
        }
        let address = Address(out);
        assert(address.0@ =~= digest@.subrange(12, 32));
        Some(KeyPair { secret, public, address })
    }
}

/// The seed of the wallet's BIP32 root key.
#[derive(Clone, Debug)]
pub struct GlobalHdAccount {
    pub seed: Vec<u8>,
}

/// A host-delegated signer: it reports its account and signs; no secret is held here.
#[derive(Clone, Debug)]
pub struct MetamaskCtx {
    pub account_address: String,
}

/// How the signing key is to be had.
#[derive(Clone, Debug)]
pub enum EthPrivKeyBuildPolicy {
    IguanaPrivKey([u8; 32]),
    GlobalHDAccount(GlobalHdAccount),
    Metamask(MetamaskCtx),
}

/// The signing material of an activated coin.
#[derive(Clone, Debug)]
pub enum EthPrivKeyPolicy {
    KeyPair(KeyPair),
    Metamask(MetamaskCtx),
}

impl MetamaskCtx {
    pub fn duplicate(&self) -> (r: MetamaskCtx)
        ensures
            r == *self,
    {
        MetamaskCtx { account_address: self.account_address.clone() }
    }
}

impl EthPrivKeyPolicy {
    /// The same signing material: the same key pair, or the same host signer.
    pub open spec fn same_as(&self, other: EthPrivKeyPolicy) -> bool {
        match (*self, other) {
            (EthPrivKeyPolicy::KeyPair(a), EthPrivKeyPolicy::KeyPair(b)) =>
                a.secret == b.secret && a.public@ == b.public@ && a.address == b.address,
            (EthPrivKeyPolicy::Metamask(a), EthPrivKeyPolicy::Metamask(b)) => a == b,
            _ => false,
        }
    }

    pub fn duplicate(&self) -> (r: EthPrivKeyPolicy)
        ensures
            r.same_as(*self),
    {
        match self {
            EthPrivKeyPolicy::KeyPair(kp) => EthPrivKeyPolicy::KeyPair(kp.duplicate()),
            EthPrivKeyPolicy::Metamask(ctx) => EthPrivKeyPolicy::Metamask(ctx.duplicate()),
        }
    }
}

/// What a resolution from a secret gives: its address, and the key pair of that secret.
pub open spec fn from_secret_outcome(
    secret: Seq<u8>,
    r: Result<(Address, EthPrivKeyPolicy), EthActivationV2Error>,
) -> bool {
    &&& r is Ok <==> valid_secret_scalar(secret)
    &&& r matches Ok((a, p)) ==> a.0@ == eth_address_of_secret(secret) && (p matches EthPrivKeyPolicy::KeyPair(kp)
        && kp.secret@ == secret && kp.public@ == secp256k1_public_of(secret) && kp.address == a)
    &&& r matches Err(e) ==> e is InternalError
}

/// What key-policy resolution returns for a config and a requested policy. Where the
/// BIP32 derivation itself fails, the result is an internal error with its text.
pub open spec fn resolves_to(
    conf: CoinConf,
    policy: EthPrivKeyBuildPolicy,
    r: Result<(Address, EthPrivKeyPolicy), EthActivationV2Error>,
) -> bool {
    match policy {
        EthPrivKeyBuildPolicy::IguanaPrivKey(secret) => from_secret_outcome(secret@, r),
        EthPrivKeyBuildPolicy::GlobalHDAccount(hd) => match conf.derivation_path {
            ConfText::Absent => r matches Err(e) && e is DerivationPathIsNotSet,
            ConfText::NotText => r matches Err(e) && e is ErrorDeserializingDerivationPath,
            ConfText::Text(t) => match parse_path_spec(t@) {
                None => r matches Err(e) && e is ErrorDeserializingDerivationPath,
                Some(path) => match hd_secret_of(hd.seed@, account_path_spec(path)) {
                    Ok(secret) => from_secret_outcome(secret, r),
                    Err(m) => r matches Err(e) && (e matches EthActivationV2Error::InternalError(msg) && msg@ == m),
                },
            },
        },
        EthPrivKeyBuildPolicy::Metamask(ctx) => {
            &&& r is Ok <==> is_hex_address(ctx.account_address@)
            &&& r matches Ok((a, p)) ==> a.0@ == hex_address_bytes(ctx.account_address@)
                && (p matches EthPrivKeyPolicy::Metamask(m) && m == ctx)
            &&& r matches Err(e) ==> e is InternalError
        },
    }
}

fn resolve_from_secret(secret: [u8; 32]) -> (r: Result<(Address, EthPrivKeyPolicy), EthActivationV2Error>)
    ensures
        from_secret_outcome(secret@, r),
{
    match KeyPair::from_secret(secret) {
        Some(kp) => {
            let address = kp.address;
            Ok((address, EthPrivKeyPolicy::KeyPair(kp)))
        },
        None => Err(EthActivationV2Error::InternalError("invalid secp256k1 secret key".to_owned())),
    }
}

/// Resolves the requested key policy into the account address and the signing material.
pub fn build_address_and_priv_key_policy(
    conf: &CoinConf,
    priv_key_policy: EthPrivKeyBuildPolicy,
) -> (r: Result<(Address, EthPrivKeyPolicy), EthActivationV2Error>)
    ensures
        resolves_to(*conf, priv_key_policy, r),
{
    match priv_key_policy {
        EthPrivKeyBuildPolicy::IguanaPrivKey(secret) => resolve_from_secret(secret),
        EthPrivKeyBuildPolicy::GlobalHDAccount(hd) => {
            let path = match &conf.derivation_path {
                ConfText::Absent => {
                    return Err(EthActivationV2Error::DerivationPathIsNotSet);
                },
                ConfText::NotText => {
                    return Err(EthActivationV2Error::ErrorDeserializingDerivationPath(
                        "'derivation_path' is not a string".to_owned(),
                    ));
                },
                ConfText::Text(t) => match StandardHDPathToCoin::parse(t.as_str()) {
                    Some(p) => p,
                    None => {
                        return Err(EthActivationV2Error::ErrorDeserializingDerivationPath(
                            "expected a path of the form m/44'/<coin_type>'".to_owned(),
                        ));
                    },
                },
            };
            let child_numbers = path.account_path();
            match derive_hd_secret(&hd.seed, &child_numbers) {
                Ok(secret) => resolve_from_secret(secret),
                Err(m) => Err(EthActivationV2Error::InternalError(m)),
            }
        },
        EthPrivKeyBuildPolicy::Metamask(ctx) => match addr_from_str(ctx.account_address.as_str()) {
            Some(address) => Ok((address, EthPrivKeyPolicy::Metamask(ctx))),
            None => Err(EthActivationV2Error::InternalError("invalid address of the host signer".to_owned())),
        },
    }
}

} // verus!
