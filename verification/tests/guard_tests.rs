use ginger_shared_rs::APIClaims;
use ginger_shared_rs::APIClaimsError;
use ginger_shared_rs::Claims;
use ginger_shared_rs::ClaimsError;
use ginger_shared_rs::ISCClaims;
use ginger_shared_rs::ISCClaimsError;

const SECRET: &str = "test-signing-secret";
const NOW: usize = 1_700_000_000;
const FUTURE: u64 = 4_102_444_800;

fn field(map: &mut serde_json::Map<String, serde_json::Value>, key: &str, value: serde_json::Value) {
    map.insert(key.to_string(), value);
}

fn sv(s: &str) -> serde_json::Value {
    serde_json::Value::String(s.to_string())
}

fn nv(n: u64) -> serde_json::Value {
    serde_json::Value::Number(serde_json::Number::from(n))
}

fn scopes_value(scopes: &[&str]) -> serde_json::Value {
    serde_json::Value::Array(scopes.iter().map(|s| sv(s)).collect())
}

fn sign_with(payload: serde_json::Value, secret: &str, alg: jsonwebtoken::Algorithm) -> String {
    jsonwebtoken::encode(
        &jsonwebtoken::Header::new(alg),
        &payload,
        &jsonwebtoken::EncodingKey::from_secret(secret.as_bytes()),
    )
    .unwrap()
}

fn sign(payload: serde_json::Value, secret: &str) -> String {
    sign_with(payload, secret, jsonwebtoken::Algorithm::HS256)
}

fn user_payload(exp: u64) -> serde_json::Value {
    let mut m = serde_json::Map::new();
    field(&mut m, "sub", sv("u1"));
    field(&mut m, "exp", nv(exp));
    field(&mut m, "user_id", sv("u1"));
    field(&mut m, "token_type", sv("access"));
    serde_json::Value::Object(m)
}

fn isc_payload(exp: u64) -> serde_json::Value {
    let mut m = serde_json::Map::new();
    field(&mut m, "sub", sv("svc-7"));
    field(&mut m, "exp", nv(exp));
    field(&mut m, "org_id", sv("org-42"));
    field(&mut m, "scopes", scopes_value(&["read", "write"]));
    serde_json::Value::Object(m)
}

fn api_payload(exp: u64) -> serde_json::Value {
    let mut m = serde_json::Map::new();
    field(&mut m, "sub", sv("key-1"));
    field(&mut m, "exp", nv(exp));
    field(&mut m, "group_id", serde_json::Value::Number(serde_json::Number::from(-3i64)));
    field(&mut m, "scopes", scopes_value(&["deploy"]));
    serde_json::Value::Object(m)
}

#[test]
fn user_guard_success() {
    let token = sign(user_payload(FUTURE), SECRET);
    let values = vec![format!("Bearer {}", token)];
    let claims = Claims::from_header_values(&values, SECRET, NOW).unwrap();
    assert_eq!(claims.sub, "u1");
    assert_eq!(claims.user_id, "u1");
    assert_eq!(claims.token_type, "access");
    assert_eq!(claims.exp, FUTURE as usize);
    assert_eq!(claims.first_name, None);
    assert_eq!(claims.last_name, None);
    assert_eq!(claims.middle_name, None);
    assert_eq!(claims.client_id, None);
}

#[test]
fn user_guard_optional_fields_kept() {
    let mut m = serde_json::Map::new();
    field(&mut m, "sub", sv("u2"));
    field(&mut m, "exp", nv(FUTURE));
    field(&mut m, "user_id", sv("u2"));
    field(&mut m, "token_type", sv("access"));
    field(&mut m, "first_name", sv("Ada"));
    field(&mut m, "client_id", serde_json::Value::Null);
    let token = sign(serde_json::Value::Object(m), SECRET);
    let values = vec![format!("Bearer {}", token)];
    let claims = Claims::from_header_values(&values, SECRET, NOW).unwrap();
    assert_eq!(claims.first_name, Some("Ada".to_string()));
    assert_eq!(claims.client_id, None);
}

#[test]
fn user_guard_wrong_type_optional_field_invalid() {
    let mut m = serde_json::Map::new();
    field(&mut m, "sub", sv("u2"));
    field(&mut m, "exp", nv(FUTURE));
    field(&mut m, "user_id", sv("u2"));
    field(&mut m, "token_type", sv("access"));
    field(&mut m, "first_name", nv(5));
    let token = sign(serde_json::Value::Object(m), SECRET);
    let values = vec![token];
    let r = Claims::from_header_values(&values, SECRET, NOW);
    assert_eq!(r.unwrap_err(), ClaimsError::Invalid);
}

#[test]
fn isc_guard_success() {
    let token = sign(isc_payload(FUTURE), SECRET);
    let values = vec![format!("Bearer {}", token)];
    let claims = ISCClaims::from_header_values(&values, SECRET, NOW).unwrap();
    assert_eq!(claims.sub, "svc-7");
    assert_eq!(claims.org_id, "org-42");
    assert_eq!(claims.scopes, vec!["read".to_string(), "write".to_string()]);
}

#[test]
fn api_guard_success() {
    let token = sign(api_payload(FUTURE), SECRET);
    let values = vec![format!("Bearer {}", token)];
    let claims = APIClaims::from_header_values(&values, SECRET, NOW).unwrap();
    assert_eq!(claims.sub, "key-1");
    assert_eq!(claims.group_id, -3);
    assert_eq!(claims.scopes, vec!["deploy".to_string()]);
}

#[test]
fn absent_header_missing() {
    let values: Vec<String> = Vec::new();
    assert_eq!(
        ISCClaims::from_header_values(&values, SECRET, NOW).unwrap_err(),
        ISCClaimsError::Missing
    );
    assert_eq!(
        Claims::from_header_values(&values, SECRET, NOW).unwrap_err(),
        ClaimsError::Missing
    );
}

#[test]
fn ambiguous_header_missing() {
    let tok_a = sign(isc_payload(FUTURE), SECRET);
    let tok_b = sign(isc_payload(FUTURE + 1), SECRET);
    let values = vec![format!("Bearer {}", tok_a), format!("Bearer {}", tok_b)];
    assert_eq!(
        ISCClaims::from_header_values(&values, SECRET, NOW).unwrap_err(),
        ISCClaimsError::Missing
    );
    assert_eq!(
        APIClaims::from_header_values(&values, SECRET, NOW).unwrap_err(),
        APIClaimsError::Missing
    );
}

#[test]
fn wrong_secret_invalid() {
    let token = sign(user_payload(FUTURE), "another-secret");
    let values = vec![format!("Bearer {}", token)];
    assert_eq!(
        Claims::from_header_values(&values, SECRET, NOW).unwrap_err(),
        ClaimsError::Invalid
    );
}

#[test]
fn expired_token_invalid() {
    let token = sign(user_payload((NOW - 1) as u64), SECRET);
    let values = vec![format!("Bearer {}", token)];
    assert_eq!(
        Claims::from_header_values(&values, SECRET, NOW).unwrap_err(),
        ClaimsError::Invalid
    );
}

#[test]
fn expiry_boundary_still_valid() {
    let token = sign(user_payload(NOW as u64), SECRET);
    let values = vec![format!("Bearer {}", token)];
    assert!(Claims::from_header_values(&values, SECRET, NOW).is_ok());
}

#[test]
fn missing_required_field_invalid() {
    let mut m = serde_json::Map::new();
    field(&mut m, "sub", sv("svc-7"));
    field(&mut m, "exp", nv(FUTURE));
    field(&mut m, "scopes", scopes_value(&["read"]));
    let token = sign(serde_json::Value::Object(m), SECRET);
    let values = vec![format!("Bearer {}", token)];
    assert_eq!(
        ISCClaims::from_header_values(&values, SECRET, NOW).unwrap_err(),
        ISCClaimsError::Invalid
    );
}

#[test]
fn wrong_type_required_field_invalid() {
    let mut m = serde_json::Map::new();
    field(&mut m, "sub", sv("svc-7"));
    field(&mut m, "exp", nv(FUTURE));
    field(&mut m, "org_id", nv(7));
    field(&mut m, "scopes", scopes_value(&["read"]));
    let token = sign(serde_json::Value::Object(m), SECRET);
    let values = vec![format!("Bearer {}", token)];
    assert_eq!(
        ISCClaims::from_header_values(&values, SECRET, NOW).unwrap_err(),
        ISCClaimsError::Invalid
    );
}

#[test]
fn bearer_prefix_leniency() {
    let token = sign(user_payload(FUTURE), SECRET);
    let with_prefix = vec![format!("Bearer  {}", token)];
    let bare = vec![token];
    let a = Claims::from_header_values(&with_prefix, SECRET, NOW).unwrap();
    let b = Claims::from_header_values(&bare, SECRET, NOW).unwrap();
    assert_eq!(a.sub, b.sub);
    assert_eq!(a.exp, b.exp);
    assert_eq!(a.user_id, b.user_id);
    assert_eq!(a.token_type, b.token_type);
}

#[test]
fn surrounding_whitespace_trimmed() {
    let token = sign(user_payload(FUTURE), SECRET);
    let values = vec![format!("Bearer {} ", token)];
    assert!(Claims::from_header_values(&values, SECRET, NOW).is_ok());
}

#[test]
fn wrong_algorithm_invalid() {
    let token = sign_with(user_payload(FUTURE), SECRET, jsonwebtoken::Algorithm::HS384);
    let values = vec![format!("Bearer {}", token)];
    assert_eq!(
        Claims::from_header_values(&values, SECRET, NOW).unwrap_err(),
        ClaimsError::Invalid
    );
}

#[test]
fn malformed_credential_invalid() {
    let values = vec!["Bearer not-a-token".to_string()];
    assert_eq!(
        Claims::from_header_values(&values, SECRET, NOW).unwrap_err(),
        ClaimsError::Invalid
    );
}
