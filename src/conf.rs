use vstd::prelude::*;

verus! {

#[verifier::external_type_specification]
#[verifier::external_body]
pub struct ExJson(serde_json::Value);

/// A field of the coin config that is read as an optional string.
#[derive(Clone, Debug)]
pub enum ConfText {
    /// Missing, or `null`.
    Absent,
    Text(String),
    /// Present, but not a string.
    NotText,
}

/// What the activation reads of a coin's config.
#[derive(Clone, Debug)]
pub struct CoinConf {
    pub decimals: Option<u64>,
    pub required_confirmations: Option<u64>,
    pub chain_id: Option<u64>,
    pub logs_block_range: Option<u64>,
    pub sign_message_prefix: Option<String>,
    pub derivation_path: ConfText,
}

/// Relies on serde_json's `Value` indexing by key and `Value::as_u64`: the field as an
/// unsigned integer, if it is one.
#[verifier::external_body]
fn json_u64(conf: &serde_json::Value, key: &str) -> Option<u64> {
    conf[key].as_u64()
}

/// Relies on serde_json's `Value` indexing by key and `Value::as_str`: the field's text,
/// if it is a string.
#[verifier::external_body]
fn json_str(conf: &serde_json::Value, key: &str) -> Option<String> {
    conf[key].as_str().map(String::from)
}

/// Relies on serde_json's `Value` indexing by key and `Value::is_null`: whether the field
/// is missing or `null`.
#[verifier::external_body]
fn json_is_null(conf: &serde_json::Value, key: &str) -> bool {
    conf[key].is_null()
}

impl CoinConf {
    /// A config with no field set.
    pub fn empty() -> (r: CoinConf)
        ensures
            r.decimals is None,
            r.required_confirmations is None,
            r.chain_id is None,
            r.logs_block_range is None,
            r.sign_message_prefix is None,
            r.derivation_path is Absent,
    {
        CoinConf {
            decimals: None,
            required_confirmations: None,
            chain_id: None,
            logs_block_range: None,
            sign_message_prefix: None,
            derivation_path: ConfText::Absent,
        }
    }

    /// Reads the fields that the activation uses out of a JSON coin config.
    pub fn from_json(conf: &serde_json::Value) -> (r: CoinConf) {
        let derivation_path = if json_is_null(conf, "derivation_path") {
            ConfText::Absent
        } else {
            match json_str(conf, "derivation_path") {
                Some(s) => ConfText::Text(s),
                None => ConfText::NotText,
            }
        };
        CoinConf {
            decimals: json_u64(conf, "decimals"),
            required_confirmations: json_u64(conf, "required_confirmations"),
            chain_id: json_u64(conf, "chain_id"),
            logs_block_range: json_u64(conf, "logs_block_range"),
            sign_message_prefix: json_str(conf, "sign_message_prefix"),
            derivation_path,
        }
    }
}

} // verus!
