//! The trusted boundary to the token-verification and JSON libraries.
//!
//! A credential is a JSON Web Signature whose payload is a JSON object.
//! Whether the signature verifies under a secret, and what the payload says,
//! are deterministic functions of the token text and the secret alone, so
//! they are named here by uninterpreted spec functions, and each wrapper's
//! contract ties the call's result to the corresponding name.  Expiry is
//! deliberately *not* checked here: it depends on the clock, so the guards
//! check it themselves against an evaluation instant they are handed.

use vstd::prelude::*;

verus! {

/// The payload text carried by `token` when it is a well-formed JWS that
/// HMAC-SHA256 verification accepts under `secret`; `None` when the token is
/// rejected (malformed, wrong or missing signature, an algorithm other than
/// HS256 declared, or an audience claim present with none expected).
pub uninterp spec fn hs256_payload(token: Seq<char>, secret: Seq<char>) -> Option<Seq<char>>;

/// Relies on `jsonwebtoken::decode` with `Algorithm::HS256` and a key built by
/// `DecodingKey::from_secret`: it accepts exactly the tokens whose declared
/// algorithm is HS256 and whose signature verifies under the secret, and then
/// yields the decoded claims.  Time-based validation is switched off, so the
/// result depends on the token and the secret alone; the claims are handed
/// back as canonical JSON text.
#[verifier::external_body]
pub(crate) fn decode_hs256(token: &str, secret: &str) -> (r: Option<String>)
    ensures
        match r {
            Some(p) => hs256_payload(token@, secret@) == Some(p@),
            None => hs256_payload(token@, secret@) is None,
        },
{
    let key = jsonwebtoken::DecodingKey::from_secret(secret.as_bytes());
    let mut validation = jsonwebtoken::Validation::new(jsonwebtoken::Algorithm::HS256);
    validation.validate_exp = false;
    validation.required_spec_claims.clear();
    match jsonwebtoken::decode::<serde_json::Value>(token, &key, &validation) {
        Ok(data) => Some(data.claims.to_string()),
        Err(_) => None,
    }
}

/// The string held by field `key` of the JSON object `payload`; `None` when
/// the payload is no object, the field is absent, or it is no string.
pub uninterp spec fn json_str_field(payload: Seq<char>, key: Seq<char>) -> Option<Seq<char>>;

/// Relies on `serde_json`: parses the payload text and reads field `key` as a
/// string; the result depends on the two arguments alone.
#[verifier::external_body]
pub(crate) fn get_str_field(payload: &str, key: &str) -> (r: Option<String>)
    ensures
        match r {
            Some(s) => json_str_field(payload@, key@) == Some(s@),
            None => json_str_field(payload@, key@) is None,
        },
{
    let v: serde_json::Value = serde_json::from_str(payload).ok()?;
    v.get(key).and_then(|f| f.as_str()).map(|s| s.to_string())
}

/// The unsigned number held by field `key` of the JSON object `payload`;
/// `None` when the field is absent or no unsigned 64-bit integer.
pub uninterp spec fn json_u64_field(payload: Seq<char>, key: Seq<char>) -> Option<u64>;

/// Relies on `serde_json`: parses the payload text and reads field `key` as an
/// unsigned integer; the result depends on the two arguments alone.
#[verifier::external_body]
pub(crate) fn get_u64_field(payload: &str, key: &str) -> (r: Option<u64>)
    ensures
        r == json_u64_field(payload@, key@),
{
    let v: serde_json::Value = serde_json::from_str(payload).ok()?;
    v.get(key).and_then(|f| f.as_u64())
}

/// The signed number held by field `key` of the JSON object `payload`; `None`
/// when the field is absent or no signed 64-bit integer.
pub uninterp spec fn json_i64_field(payload: Seq<char>, key: Seq<char>) -> Option<i64>;

/// Relies on `serde_json`: parses the payload text and reads field `key` as a
/// signed integer; the result depends on the two arguments alone.
#[verifier::external_body]
pub(crate) fn get_i64_field(payload: &str, key: &str) -> (r: Option<i64>)
    ensures
        r == json_i64_field(payload@, key@),
{
    let v: serde_json::Value = serde_json::from_str(payload).ok()?;
    v.get(key).and_then(|f| f.as_i64())
}

/// Field `key` of the JSON object `payload` read as an optional string:
/// `Some(None)` when the field is absent or null, `Some(Some(s))` when it
/// holds the string `s`, and `None` when it holds a value of another type.
pub uninterp spec fn json_opt_str_field(payload: Seq<char>, key: Seq<char>) -> Option<
    Option<Seq<char>>,
>;

/// Relies on `serde_json`: parses the payload text and reads field `key` as a
/// string that may be absent or null; the result depends on the two arguments
/// alone.
#[verifier::external_body]
pub(crate) fn get_opt_str_field(payload: &str, key: &str) -> (r: Option<Option<String>>)
    ensures
        match r {
            Some(Some(s)) => json_opt_str_field(payload@, key@) == Some(Some(s@)),
            Some(None) => json_opt_str_field(payload@, key@) == Some(Option::<Seq<char>>::None),
            None => json_opt_str_field(payload@, key@) is None,
        },
{
    let v: serde_json::Value = serde_json::from_str(payload).ok()?;
    match v.get(key) {
        None => Some(None),
        Some(serde_json::Value::Null) => Some(None),
        Some(serde_json::Value::String(s)) => Some(Some(s.clone())),
        Some(_) => None,
    }
}

/// The list of strings held by field `key` of the JSON object `payload`;
/// `None` when the field is absent or no array made of strings alone.
pub uninterp spec fn json_str_list_field(payload: Seq<char>, key: Seq<char>) -> Option<
    Seq<Seq<char>>,
>;

/// Relies on `serde_json`: parses the payload text and reads field `key` as an
/// array of strings; the result depends on the two arguments alone.
#[verifier::external_body]
pub(crate) fn get_str_list_field(payload: &str, key: &str) -> (r: Option<Vec<String>>)
    ensures
        match r {
            Some(xs) => json_str_list_field(payload@, key@) == Some(xs.deep_view()),
            None => json_str_list_field(payload@, key@) is None,
        },
{
    let v: serde_json::Value = serde_json::from_str(payload).ok()?;
    let field = v.get(key)?.clone();
    serde_json::from_value::<Vec<String>>(field).ok()
}

} // verus!
