//! The request-authentication guards.
//!
//! Each guard takes the multiset of header values found under its header
//! name, a shared secret and the evaluation instant, and yields either a
//! typed claims record or one of two failures: `Missing` when the header is
//! absent or ambiguous (present more than once), `Invalid` when the single
//! credential fails prefix parsing, signature verification, the expiry
//! check, or payload-shape decoding.  The sub-causes of `Invalid` are
//! deliberately not distinguished, so that a caller learns nothing about why
//! a credential was rejected.
//!
//! All three guards share one skeleton: locate the single header value,
//! strip an optional `"Bearer "` scheme prefix and surrounding white space,
//! verify and decode the token, and check the expiry instant.  They differ
//! only in the header name they are configured for and in the shape of the
//! claims they carry.

use vstd::prelude::*;

use crate::jwt::hs256_payload;
use crate::jwt::json_i64_field;
use crate::jwt::json_opt_str_field;
use crate::jwt::json_str_field;
use crate::jwt::json_str_list_field;
use crate::jwt::json_u64_field;
use crate::jwt::decode_hs256;
use crate::jwt::get_i64_field;
use crate::jwt::get_opt_str_field;
use crate::jwt::get_str_field;
use crate::jwt::get_str_list_field;
use crate::jwt::get_u64_field;
use crate::text::is_space_char;
use crate::text::lemma_trim_no_space;
use crate::text::str_eq;
use crate::text::trim_spec;
use crate::text::trim_str;

verus! {

/// Claims carried by an internal-service token, scoped to an organization.
#[derive(Debug, Clone)]
pub struct ISCClaims {
    pub sub: String,
    pub exp: usize,
    pub org_id: String,
    pub scopes: Vec<String>,
}

pub struct ISCClaimsView {
    pub sub: Seq<char>,
    pub exp: usize,
    pub org_id: Seq<char>,
    pub scopes: Seq<Seq<char>>,
}

impl View for ISCClaims {
    type V = ISCClaimsView;

    open spec fn view(&self) -> ISCClaimsView {
        ISCClaimsView {
            sub: self.sub@,
            exp: self.exp,
            org_id: self.org_id@,
            scopes: self.scopes.deep_view(),
        }
    }
}

#[derive(Debug, PartialEq, Eq, Structural)]
pub enum ISCClaimsError {
    Missing,
    Invalid,
}

/// Claims carried by an API-key token, scoped to a group.
#[derive(Debug, Clone)]
pub struct APIClaims {
    pub sub: String,
    pub exp: usize,
    pub group_id: i64,
    pub scopes: Vec<String>,
}

pub struct APIClaimsView {
    pub sub: Seq<char>,
    pub exp: usize,
    pub group_id: i64,
    pub scopes: Seq<Seq<char>>,
}

impl View for APIClaims {
    type V = APIClaimsView;

    open spec fn view(&self) -> APIClaimsView {
        APIClaimsView {
            sub: self.sub@,
            exp: self.exp,
            group_id: self.group_id,
            scopes: self.scopes.deep_view(),
        }
    }
}

#[derive(Debug, PartialEq, Eq, Structural)]
pub enum APIClaimsError {
    Missing,
    Invalid,
}

/// Claims carried by a user-session token, scoped to a user, with optional
/// name and client fields.  `token_type` tells access tokens from refresh
/// tokens.
#[derive(Debug, Clone)]
pub struct Claims {
    pub sub: String,
    pub exp: usize,
    pub user_id: String,
    pub token_type: String,
    pub first_name: Option<String>,
    pub last_name: Option<String>,
    pub middle_name: Option<String>,
    pub client_id: Option<String>,
}

pub struct ClaimsView {
    pub sub: Seq<char>,
    pub exp: usize,
    pub user_id: Seq<char>,
    pub token_type: Seq<char>,
    pub first_name: Option<Seq<char>>,
    pub last_name: Option<Seq<char>>,
    pub middle_name: Option<Seq<char>>,
    pub client_id: Option<Seq<char>>,
}

impl View for Claims {
    type V = ClaimsView;

    open spec fn view(&self) -> ClaimsView {
        ClaimsView {
            sub: self.sub@,
            exp: self.exp,
            user_id: self.user_id@,
            token_type: self.token_type@,
            first_name: self.first_name.deep_view(),
            last_name: self.last_name.deep_view(),
            middle_name: self.middle_name.deep_view(),
            client_id: self.client_id.deep_view(),
        }
    }
}

#[derive(Debug, PartialEq, Eq, Structural)]
pub enum ClaimsError {
    Missing,
    Invalid,
}

/// The header each guard reads: `X-API-Authorization` for the
/// internal-service and API-key guards, `Authorization` for the user-session
/// guard.
pub fn isc_header_name() -> (r: &'static str)
    ensures
        r@ == "X-API-Authorization"@,
{
    "X-API-Authorization"
}

pub fn api_header_name() -> (r: &'static str)
    ensures
        r@ == "X-API-Authorization"@,
{
    "X-API-Authorization"
}

pub fn user_header_name() -> (r: &'static str)
    ensures
        r@ == "Authorization"@,
{
    "Authorization"
}

/// A credential with the scheme prefix dropped: when the value starts with
/// the literal marker `"Bearer "`, the seven marker characters are removed
/// once; any other value is kept whole.
pub open spec fn strip_scheme_spec(s: Seq<char>) -> Seq<char> {
    if s.len() >= 7 && s.subrange(0, 7) == "Bearer "@ {
        s.skip(7)
    } else {
        s
    }
}

/// The token text handed to the decoder: the scheme prefix dropped if
/// present, then surrounding white space trimmed.
pub open spec fn normalize_spec(s: Seq<char>) -> Seq<char> {
    trim_spec(strip_scheme_spec(s))
}

/// Strips an optional `"Bearer "` scheme prefix and trims white space.  The
/// prefix is optional on purpose: a bare token is passed through unchanged,
/// so callers that omit the scheme marker still authenticate.
pub fn normalize_credential(value: &str) -> (r: String)
    ensures
        r@ == normalize_spec(value@),
{
    proof {
        reveal_strlit("Bearer ");
    }
    let n = value.unicode_len();
    let stripped: &str = if n >= 7 {
        let head = value.substring_char(0, 7);
        if str_eq(head, "Bearer ") {
            let rest = value.substring_char(7, n);
            proof {
                assert(rest@ =~= value@.skip(7));
            }
            rest
        } else {
            value
        }
    } else {
        value
    };
    assert(stripped@ == strip_scheme_spec(value@));
    let trimmed = trim_str(stripped);
    trimmed.to_owned()
}

/// The single credential among the values a request carries under the
/// configured header name, or nothing when the header is absent or appears
/// more than once.  Ambiguity counts as absence on purpose: picking one of
/// several credentials would be a security risk.
pub fn locate_credential<'a>(values: &'a Vec<String>) -> (r: Option<&'a String>)
    ensures
        values@.len() == 1 <==> r is Some,
        r matches Some(v) ==> v@ == values@[0]@,
{
    if values.len() == 1 {
        Some(&values[0])
    } else {
        None
    }
}

/// The internal-service claims a token yields: the payload the verifier
/// accepts under the secret, provided the required fields are present with
/// their required types and the token has not expired by `now`.
pub open spec fn isc_token_claims(token: Seq<char>, secret: Seq<char>, now: usize) -> Option<
    ISCClaimsView,
> {
    match hs256_payload(token, secret) {
        Option::None => Option::<ISCClaimsView>::None,
        Option::Some(p) => {
            let sub = json_str_field(p, "sub"@);
            let exp = json_u64_field(p, "exp"@);
            let org_id = json_str_field(p, "org_id"@);
            let scopes = json_str_list_field(p, "scopes"@);
            if sub is Some && exp is Some && exp->0 <= usize::MAX as u64 && org_id is Some
                && scopes is Some && now as u64 <= exp->0 {
                Option::Some(
                    ISCClaimsView {
                        sub: sub->0,
                        exp: exp->0 as usize,
                        org_id: org_id->0,
                        scopes: scopes->0,
                    },
                )
            } else {
                Option::<ISCClaimsView>::None
            }
        },
    }
}

fn decode_isc_token(token: &str, secret: &str, now: usize) -> (r: Option<ISCClaims>)
    ensures
        match r {
            Some(c) => isc_token_claims(token@, secret@, now) == Some(c@),
            None => isc_token_claims(token@, secret@, now) is None,
        },
{
    let payload = match decode_hs256(token, secret) {
        Some(p) => p,
        None => { return None; },
    };
    let sub = match get_str_field(payload.as_str(), "sub") {
        Some(s) => s,
        None => { return None; },
    };
    let exp64 = match get_u64_field(payload.as_str(), "exp") {
        Some(e) => e,
        None => { return None; },
    };
    if exp64 > usize::MAX as u64 {
        return None;
    }
    let exp: usize = exp64 as usize;
    let org_id = match get_str_field(payload.as_str(), "org_id") {
        Some(s) => s,
        None => { return None; },
    };
    let scopes = match get_str_list_field(payload.as_str(), "scopes") {
        Some(v) => v,
        None => { return None; },
    };
    if now <= exp {
        Some(ISCClaims { sub, exp, org_id, scopes })
    } else {
        None
    }
}

impl ISCClaims {
    /// The internal-service guard: exactly one header value must be present,
    /// and its token must verify, carry the required fields, and be
    /// unexpired at `now`.
    pub fn from_header_values(values: &Vec<String>, secret: &str, now: usize) -> (r: Result<
        ISCClaims,
        ISCClaimsError,
    >)
        ensures
            values@.len() != 1 ==> r == Err::<ISCClaims, ISCClaimsError>(ISCClaimsError::Missing),
            values@.len() == 1 ==> match r {
                Ok(c) => isc_token_claims(normalize_spec(values@[0]@), secret@, now) == Some(c@),
                Err(e) => e == ISCClaimsError::Invalid && isc_token_claims(
                    normalize_spec(values@[0]@),
                    secret@,
                    now,
                ) is None,
            },
    {
        let value = match locate_credential(values) {
            Some(v) => v,
            None => { return Err(ISCClaimsError::Missing); },
        };
        let token = normalize_credential(value.as_str());
        match decode_isc_token(token.as_str(), secret, now) {
            Some(c) => Ok(c),
            None => Err(ISCClaimsError::Invalid),
        }
    }
}

/// The API-key claims a token yields, under the same rule as
/// `isc_token_claims`, with a signed group identifier in place of the
/// organization.
pub open spec fn api_token_claims(token: Seq<char>, secret: Seq<char>, now: usize) -> Option<
    APIClaimsView,
> {
    match hs256_payload(token, secret) {
        Option::None => Option::<APIClaimsView>::None,
        Option::Some(p) => {
            let sub = json_str_field(p, "sub"@);
            let exp = json_u64_field(p, "exp"@);
            let group_id = json_i64_field(p, "group_id"@);
            let scopes = json_str_list_field(p, "scopes"@);
            if sub is Some && exp is Some && exp->0 <= usize::MAX as u64 && group_id is Some
                && scopes is Some && now as u64 <= exp->0 {
                Option::Some(
                    APIClaimsView {
                        sub: sub->0,
                        exp: exp->0 as usize,
                        group_id: group_id->0,
                        scopes: scopes->0,
                    },
                )
            } else {
                Option::<APIClaimsView>::None
            }
        },
    }
}

fn decode_api_token(token: &str, secret: &str, now: usize) -> (r: Option<APIClaims>)
    ensures
        match r {
            Some(c) => api_token_claims(token@, secret@, now) == Some(c@),
            None => api_token_claims(token@, secret@, now) is None,
        },
{
    let payload = match decode_hs256(token, secret) {
        Some(p) => p,
        None => { return None; },
    };
    let sub = match get_str_field(payload.as_str(), "sub") {
        Some(s) => s,
        None => { return None; },
    };
    let exp64 = match get_u64_field(payload.as_str(), "exp") {
        Some(e) => e,
        None => { return None; },
    };
    if exp64 > usize::MAX as u64 {
        return None;
    }
    let exp: usize = exp64 as usize;
    let group_id = match get_i64_field(payload.as_str(), "group_id") {
        Some(g) => g,
        None => { return None; },
    };
    let scopes = match get_str_list_field(payload.as_str(), "scopes") {
        Some(v) => v,
        None => { return None; },
    };
    if now <= exp {
        Some(APIClaims { sub, exp, group_id, scopes })
    } else {
        None
    }
}

impl APIClaims {
    /// The API-key guard: exactly one header value must be present, and its
    /// token must verify, carry the required fields, and be unexpired at
    /// `now`.
    pub fn from_header_values(values: &Vec<String>, secret: &str, now: usize) -> (r: Result<
        APIClaims,
        APIClaimsError,
    >)
        ensures
            values@.len() != 1 ==> r == Err::<APIClaims, APIClaimsError>(APIClaimsError::Missing),
            values@.len() == 1 ==> match r {
                Ok(c) => api_token_claims(normalize_spec(values@[0]@), secret@, now) == Some(c@),
                Err(e) => e == APIClaimsError::Invalid && api_token_claims(
                    normalize_spec(values@[0]@),
                    secret@,
                    now,
                ) is None,
            },
    {
        let value = match locate_credential(values) {
            Some(v) => v,
            None => { return Err(APIClaimsError::Missing); },
        };
        let token = normalize_credential(value.as_str());
        match decode_api_token(token.as_str(), secret, now) {
            Some(c) => Ok(c),
            None => Err(APIClaimsError::Invalid),
        }
    }
}

/// The user-session claims a token yields: `sub`, `exp`, `user_id` and
/// `token_type` are required; the name and client fields may be absent or
/// null, but when present they must be strings.
pub open spec fn user_token_claims(token: Seq<char>, secret: Seq<char>, now: usize) -> Option<
    ClaimsView,
> {
    match hs256_payload(token, secret) {
        Option::None => Option::<ClaimsView>::None,
        Option::Some(p) => {
            let sub = json_str_field(p, "sub"@);
            let exp = json_u64_field(p, "exp"@);
            let user_id = json_str_field(p, "user_id"@);
            let token_type = json_str_field(p, "token_type"@);
            let first_name = json_opt_str_field(p, "first_name"@);
            let last_name = json_opt_str_field(p, "last_name"@);
            let middle_name = json_opt_str_field(p, "middle_name"@);
            let client_id = json_opt_str_field(p, "client_id"@);
            if sub is Some && exp is Some && exp->0 <= usize::MAX as u64 && user_id is Some
                && token_type is Some && first_name is Some && last_name is Some
                && middle_name is Some && client_id is Some && now as u64 <= exp->0 {
                Option::Some(
                    ClaimsView {
                        sub: sub->0,
                        exp: exp->0 as usize,
                        user_id: user_id->0,
                        token_type: token_type->0,
                        first_name: first_name->0,
                        last_name: last_name->0,
                        middle_name: middle_name->0,
                        client_id: client_id->0,
                    },
                )
            } else {
                Option::<ClaimsView>::None
            }
        },
    }
}

fn decode_user_token(token: &str, secret: &str, now: usize) -> (r: Option<Claims>)
    ensures
        match r {
            Some(c) => user_token_claims(token@, secret@, now) == Some(c@),
            None => user_token_claims(token@, secret@, now) is None,
        },
{
    let payload = match decode_hs256(token, secret) {
        Some(p) => p,
        None => { return None; },
    };
    let sub = match get_str_field(payload.as_str(), "sub") {
        Some(s) => s,
        None => { return None; },
    };
    let exp64 = match get_u64_field(payload.as_str(), "exp") {
        Some(e) => e,
        None => { return None; },
    };
    if exp64 > usize::MAX as u64 {
        return None;
    }
    let exp: usize = exp64 as usize;
    let user_id = match get_str_field(payload.as_str(), "user_id") {
        Some(s) => s,
        None => { return None; },
    };
    let token_type = match get_str_field(payload.as_str(), "token_type") {
        Some(s) => s,
        None => { return None; },
    };
    let first_name = match get_opt_str_field(payload.as_str(), "first_name") {
        Some(o) => o,
        None => { return None; },
    };
    let last_name = match get_opt_str_field(payload.as_str(), "last_name") {
        Some(o) => o,
        None => { return None; },
    };
    let middle_name = match get_opt_str_field(payload.as_str(), "middle_name") {
        Some(o) => o,
        None => { return None; },
    };
    let client_id = match get_opt_str_field(payload.as_str(), "client_id") {
        Some(o) => o,
        None => { return None; },
    };
    if now <= exp {
        Some(
            Claims {
                sub,
                exp,
                user_id,
                token_type,
                first_name,
                last_name,
                middle_name,
                client_id,
            },
        )
    } else {
        None
    }
}

impl Claims {
    /// The user-session guard: exactly one header value must be present, and
    /// its token must verify, carry the required fields, and be unexpired at
    /// `now`.
    pub fn from_header_values(values: &Vec<String>, secret: &str, now: usize) -> (r: Result<
        Claims,
        ClaimsError,
    >)
        ensures
            values@.len() != 1 ==> r == Err::<Claims, ClaimsError>(ClaimsError::Missing),
            values@.len() == 1 ==> match r {
                Ok(c) => user_token_claims(normalize_spec(values@[0]@), secret@, now) == Some(c@),
                Err(e) => e == ClaimsError::Invalid && user_token_claims(
                    normalize_spec(values@[0]@),
                    secret@,
                    now,
                ) is None,
            },
    {
        let value = match locate_credential(values) {
            Some(v) => v,
            None => { return Err(ClaimsError::Missing); },
        };
        let token = normalize_credential(value.as_str());
        match decode_user_token(token.as_str(), secret, now) {
            Some(c) => Ok(c),
            None => Err(ClaimsError::Invalid),
        }
    }
}

/// A token the verifier rejects yields no claims, whatever the instant: in
/// particular, every token signed under another secret that HMAC
/// verification refuses is answered with `Invalid`, never with claims.
pub proof fn lemma_unverified_token_rejected(token: Seq<char>, secret: Seq<char>, now: usize)
    ensures
        hs256_payload(token, secret) is None ==> isc_token_claims(token, secret, now) is None,
        hs256_payload(token, secret) is None ==> api_token_claims(token, secret, now) is None,
        hs256_payload(token, secret) is None ==> user_token_claims(token, secret, now) is None,
{
}

/// No guard ever yields claims whose expiry lies strictly before the
/// evaluation instant: a correctly signed but expired token is rejected.
pub proof fn lemma_expired_token_rejected(token: Seq<char>, secret: Seq<char>, now: usize)
    ensures
        isc_token_claims(token, secret, now) matches Some(c) ==> now <= c.exp,
        api_token_claims(token, secret, now) matches Some(c) ==> now <= c.exp,
        user_token_claims(token, secret, now) matches Some(c) ==> now <= c.exp,
{
}

/// A verified token whose payload lacks a required field, or holds it with
/// the wrong type, yields no claims.
pub proof fn lemma_missing_field_rejected(token: Seq<char>, secret: Seq<char>, now: usize)
    ensures
        hs256_payload(token, secret) matches Some(p) && (json_str_field(p, "sub"@) is None
            || json_u64_field(p, "exp"@) is None || json_str_field(p, "org_id"@) is None
            || json_str_list_field(p, "scopes"@) is None) ==> isc_token_claims(
            token,
            secret,
            now,
        ) is None,
        hs256_payload(token, secret) matches Some(p) && (json_str_field(p, "sub"@) is None
            || json_u64_field(p, "exp"@) is None || json_i64_field(p, "group_id"@) is None
            || json_str_list_field(p, "scopes"@) is None) ==> api_token_claims(
            token,
            secret,
            now,
        ) is None,
        hs256_payload(token, secret) matches Some(p) && (json_str_field(p, "sub"@) is None
            || json_u64_field(p, "exp"@) is None || json_str_field(p, "user_id"@) is None
            || json_str_field(p, "token_type"@) is None) ==> user_token_claims(
            token,
            secret,
            now,
        ) is None,
{
}

/// Scheme-prefix leniency: for a token without white space, the credential
/// `"Bearer " + token` and the bare token normalize to the same text, so
/// both hand the decoder the same token and yield the same outcome.
pub proof fn lemma_scheme_prefix_leniency(t: Seq<char>)
    requires
        forall|i: int| 0 <= i < t.len() ==> !is_space_char(t[i]),
    ensures
        normalize_spec("Bearer "@ + t) == normalize_spec(t),
        normalize_spec(t) == t,
{
    reveal_strlit("Bearer ");
    let w = "Bearer "@ + t;
    assert(w.subrange(0, 7) =~= "Bearer "@);
    assert(w.skip(7) =~= t);
    assert(strip_scheme_spec(w) == t);
    if t.len() >= 7 && t.subrange(0, 7) == "Bearer "@ {
        assert(t.subrange(0, 7)[6] == t[6]);
        assert(t[6] == ' ');
        assert(is_space_char(' '));
        assert(false);
    }
    assert(strip_scheme_spec(t) == t);
    lemma_trim_no_space(t);
}

/// Scheme-prefix leniency at the decoder: under every secret and instant,
/// the prefixed and the bare credential yield the same claims for each of
/// the three guards.
pub proof fn lemma_scheme_prefix_same_claims(t: Seq<char>, secret: Seq<char>, now: usize)
    requires
        forall|i: int| 0 <= i < t.len() ==> !is_space_char(t[i]),
    ensures
        isc_token_claims(normalize_spec("Bearer "@ + t), secret, now) == isc_token_claims(
            normalize_spec(t),
            secret,
            now,
        ),
        api_token_claims(normalize_spec("Bearer "@ + t), secret, now) == api_token_claims(
            normalize_spec(t),
            secret,
            now,
        ),
        user_token_claims(normalize_spec("Bearer "@ + t), secret, now) == user_token_claims(
            normalize_spec(t),
            secret,
            now,
        ),
{
    lemma_scheme_prefix_leniency(t);
}

} // verus!
