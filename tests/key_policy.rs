use eth_activation::address::{addr_from_str, checksum_address, Address};
use eth_activation::conf::{CoinConf, ConfText};
use eth_activation::error::EthActivationV2Error;
use eth_activation::hd_path::StandardHDPathToCoin;
use eth_activation::key_pair_ctx::{KeyPairArc, KeyPairCtx};
use eth_activation::key_policy::{
    build_address_and_priv_key_policy, EthPrivKeyBuildPolicy, EthPrivKeyPolicy, GlobalHdAccount, KeyPair, MetamaskCtx,
};

fn secret_of(last: u8) -> [u8; 32] {
    let mut s = [0u8; 32];
    s[31] = last;
    s
}

fn hex_of(a: &Address) -> String {
    a.0.iter().map(|b| format!("{:02x}", b)).collect()
}

#[test]
fn zero_address_is_zero() {
    assert!(Address::zero().is_zero());
    let mut b = [0u8; 20];
    b[19] = 1;
    assert!(!Address(b).is_zero());
}

#[test]
fn address_parses_from_hex() {
    let a = addr_from_str("0x5aAeb6053F3E94C9b9A09f33669435E7Ef1BeAed").unwrap();
    assert_eq!(hex_of(&a), "5aaeb6053f3e94c9b9a09f33669435e7ef1beaed");
    assert!(addr_from_str("5aAeb6053F3E94C9b9A09f33669435E7Ef1BeAed").is_none());
    assert!(addr_from_str("0x5aAeb6053F3E94C9b9A09f33669435E7Ef1BeAe").is_none());
    assert!(addr_from_str("0x5aAeb6053F3E94C9b9A09f33669435E7Ef1BeAeg").is_none());
}

#[test]
fn checksum_matches_known_vectors() {
    for text in [
        "0x5aAeb6053F3E94C9b9A09f33669435E7Ef1BeAed",
        "0xfB6916095ca1df60bB79Ce92cE3Ea74c37c5d359",
        "0xdbF03B407c01E7cD3CBea99509d93f8DDDC8C6FB",
        "0xD1220A0cf47c7B9Be7A2E6BA89F429762e7b9aDb",
    ] {
        let a = addr_from_str(text).unwrap();
        assert_eq!(checksum_address(&a), text);
    }
}

#[test]
fn key_pair_of_secret_one() {
    let kp = KeyPair::from_secret(secret_of(1)).unwrap();
    assert_eq!(checksum_address(&kp.address), "0x7E5F4552091A69125d5DfCb7b8C2659029395Bdf");
    assert_eq!(kp.public.len(), 65);
    let kp2 = KeyPair::from_secret(secret_of(2)).unwrap();
    assert_eq!(checksum_address(&kp2.address), "0x2B5AD5c4795c026514f8317c7a215E218DcCD6cF");
}

#[test]
fn invalid_secrets_are_refused() {
    assert!(KeyPair::from_secret([0u8; 32]).is_none());
    assert!(KeyPair::from_secret([0xffu8; 32]).is_none());
    let r = build_address_and_priv_key_policy(&CoinConf::empty(), EthPrivKeyBuildPolicy::IguanaPrivKey([0u8; 32]));
    assert!(matches!(r, Err(EthActivationV2Error::InternalError(_))));
}

#[test]
fn raw_key_policy_resolves_to_its_address() {
    let (a, p) =
        build_address_and_priv_key_policy(&CoinConf::empty(), EthPrivKeyBuildPolicy::IguanaPrivKey(secret_of(1)))
            .unwrap();
    assert_eq!(checksum_address(&a), "0x7E5F4552091A69125d5DfCb7b8C2659029395Bdf");
    match p {
        EthPrivKeyPolicy::KeyPair(kp) => assert_eq!(kp.secret, secret_of(1)),
        _ => panic!("expected a key pair"),
    }
}

#[test]
fn path_to_coin_parses() {
    assert_eq!(StandardHDPathToCoin::parse("m/44'/60'"), Some(StandardHDPathToCoin { coin_type: 60 }));
    assert_eq!(StandardHDPathToCoin::parse("m/44'/0'"), Some(StandardHDPathToCoin { coin_type: 0 }));
    assert_eq!(
        StandardHDPathToCoin::parse("m/44'/2147483647'"),
        Some(StandardHDPathToCoin { coin_type: 2147483647 })
    );
    assert_eq!(StandardHDPathToCoin::parse("m/44'/2147483648'"), None);
    assert_eq!(StandardHDPathToCoin::parse("m/44'/60"), None);
    assert_eq!(StandardHDPathToCoin::parse("m/45'/60'"), None);
    assert_eq!(StandardHDPathToCoin::parse("m/44'/'"), None);
    assert_eq!(StandardHDPathToCoin::parse("m/44'/6a'"), None);
    assert_eq!(StandardHDPathToCoin::parse(""), None);
}

fn hd_policy() -> EthPrivKeyBuildPolicy {
    EthPrivKeyBuildPolicy::GlobalHDAccount(GlobalHdAccount { seed: (0u8..64).collect() })
}

#[test]
fn hd_policy_without_path_fails() {
    let r = build_address_and_priv_key_policy(&CoinConf::empty(), hd_policy());
    assert!(matches!(r, Err(EthActivationV2Error::DerivationPathIsNotSet)));
}

#[test]
fn hd_policy_with_malformed_path_fails() {
    let mut conf = CoinConf::empty();
    conf.derivation_path = ConfText::Text("m/44'/sixty'".to_string());
    let r = build_address_and_priv_key_policy(&conf, hd_policy());
    assert!(matches!(r, Err(EthActivationV2Error::ErrorDeserializingDerivationPath(_))));
    conf.derivation_path = ConfText::NotText;
    let r = build_address_and_priv_key_policy(&conf, hd_policy());
    assert!(matches!(r, Err(EthActivationV2Error::ErrorDeserializingDerivationPath(_))));
}

#[test]
fn hd_policy_derives_first_account_key() {
    let mut conf = CoinConf::empty();
    conf.derivation_path = ConfText::Text("m/44'/60'".to_string());
    let (a, p) = build_address_and_priv_key_policy(&conf, hd_policy()).unwrap();
    let seed: Vec<u8> = (0u8..64).collect();
    let path: bip32::DerivationPath = "m/44'/60'/0'/0/0".parse().unwrap();
    let expected = bip32::XPrv::derive_from_path(&seed, &path).unwrap().to_bytes();
    let kp = KeyPair::from_secret(expected).unwrap();
    assert_eq!(a, kp.address);
    match p {
        EthPrivKeyPolicy::KeyPair(k) => {
            assert_eq!(k.secret, expected);
            assert_eq!(k.public, kp.public);
        },
        _ => panic!("expected a key pair"),
    }
}

#[test]
fn hd_policy_with_bad_seed_is_internal_error() {
    let mut conf = CoinConf::empty();
    conf.derivation_path = ConfText::Text("m/44'/60'".to_string());
    let policy = EthPrivKeyBuildPolicy::GlobalHDAccount(GlobalHdAccount { seed: vec![1, 2, 3] });
    let r = build_address_and_priv_key_policy(&conf, policy);
    let expected = bip32::Error::SeedLength.to_string();
    assert!(matches!(r, Err(EthActivationV2Error::InternalError(ref m)) if *m == expected));
}

#[test]
fn host_signer_reports_its_address() {
    let ctx = MetamaskCtx { account_address: "0xfB6916095ca1df60bB79Ce92cE3Ea74c37c5d359".to_string() };
    let (a, p) = build_address_and_priv_key_policy(&CoinConf::empty(), EthPrivKeyBuildPolicy::Metamask(ctx)).unwrap();
    assert_eq!(hex_of(&a), "fb6916095ca1df60bb79ce92ce3ea74c37c5d359");
    assert!(matches!(p, EthPrivKeyPolicy::Metamask(_)));
    let bad = MetamaskCtx { account_address: "not an address".to_string() };
    let r = build_address_and_priv_key_policy(&CoinConf::empty(), EthPrivKeyBuildPolicy::Metamask(bad));
    assert!(matches!(r, Err(EthActivationV2Error::InternalError(_))));
}

#[test]
fn key_pair_context_exposes_the_key() {
    let kp = KeyPair::from_secret(secret_of(7)).unwrap();
    let ctx = KeyPairCtx::new(kp.clone());
    assert_eq!(ctx.secp256k1_privkey(), &secret_of(7));
    assert_eq!(ctx.secp256k1_privkey_bytes(), &secret_of(7)[..]);
    assert_eq!(ctx.secp256k1_pubkey(), &kp.public);
    let shared = KeyPairArc::from_key_pair(kp.clone());
    assert_eq!(shared.ctx().secp256k1_privkey(), &secret_of(7));
    let shared2 = KeyPairArc::new(KeyPairCtx::new(kp));
    assert_eq!(shared2.clone().ctx().secp256k1_pubkey().len(), 65);
}

#[test]
fn config_is_read_from_json() {
    let v: serde_json::Value = serde_json::from_str(
        r#"{"decimals": 6, "required_confirmations": 3, "chain_id": 1, "sign_message_prefix": "hi", "derivation_path": "m/44'/60'"}"#,
    )
    .unwrap();
    let conf = CoinConf::from_json(&v);
    assert_eq!(conf.decimals, Some(6));
    assert_eq!(conf.required_confirmations, Some(3));
    assert_eq!(conf.chain_id, Some(1));
    assert_eq!(conf.logs_block_range, None);
    assert_eq!(conf.sign_message_prefix, Some("hi".to_string()));
    assert!(matches!(conf.derivation_path, ConfText::Text(ref s) if s == "m/44'/60'"));
    let v: serde_json::Value = serde_json::from_str(r#"{"derivation_path": 5, "decimals": -1}"#).unwrap();
    let conf = CoinConf::from_json(&v);
    assert!(matches!(conf.derivation_path, ConfText::NotText));
    assert_eq!(conf.decimals, None);
    let v: serde_json::Value = serde_json::from_str(r#"{"derivation_path": null}"#).unwrap();
    assert!(matches!(CoinConf::from_json(&v).derivation_path, ConfText::Absent));
}
