use brik::AuthGate;
use brik::UserScopes;
use brik::headers::RequestHeaders;
use jsonwebtoken::EncodingKey;
use jsonwebtoken::Header;
use jsonwebtoken::encode;
use serde_json::Value;

const SECRET: &str = "test-signing-key";
const FUTURE_EXP: u64 = 4102444800; // far in the future

fn make_token(secret: &str, claims: serde_json::Map<String, Value>) -> String {
    encode(
        &Header::default(),
        &Value::Object(claims),
        &EncodingKey::from_secret(secret.as_bytes()),
    )
    .unwrap()
}

fn base_claims() -> serde_json::Map<String, Value> {
    let mut m = serde_json::Map::new();
    m.insert("exp".to_string(), Value::from(FUTURE_EXP));
    m
}

fn string_list(items: &[&str]) -> Value {
    Value::Array(items.iter().map(|s| Value::String(s.to_string())).collect())
}

fn headers_with(token: &str) -> RequestHeaders {
    let mut headers = RequestHeaders::new();
    headers.insert("authorization".to_string(), format!("Bearer {}", token));
    headers
}

#[test]
fn test_validate_success_with_scopes() {
    let mut claims = base_claims();
    claims.insert("sub".to_string(), Value::String("alice".to_string()));
    claims.insert("scopes".to_string(), string_list(&["users:create"]));
    let token = make_token(SECRET, claims);

    let gate = AuthGate::new(SECRET.to_string(), vec![UserScopes::create()]);
    let result = gate.validate(&headers_with(&token));

    assert!(result.is_ok());
    assert!(result.duration.is_some());
    let ctx = result.unwrap();
    assert_eq!(ctx.user_id, "alice");
    assert_eq!(ctx.scopes, vec!["users:create".to_string()]);
    assert_eq!(ctx.email, None);
    assert_eq!(ctx.roles, Some(vec![]));
}

#[test]
fn test_validate_user_id_fallback() {
    let mut claims = base_claims();
    claims.insert("user_id".to_string(), Value::String("bob".to_string()));
    let token = make_token(SECRET, claims);

    let gate = AuthGate::new(SECRET.to_string(), vec![]);
    let ctx = gate.validate(&headers_with(&token)).unwrap();
    assert_eq!(ctx.user_id, "bob");
}

#[test]
fn test_validate_unknown_subject() {
    let token = make_token(SECRET, base_claims());

    let gate = AuthGate::new(SECRET.to_string(), vec![]);
    let ctx = gate.validate(&headers_with(&token)).unwrap();
    assert_eq!(ctx.user_id, "unknown");
}

#[test]
fn test_validate_email_and_roles() {
    let mut claims = base_claims();
    claims.insert("sub".to_string(), Value::String("carol".to_string()));
    claims.insert("email".to_string(), Value::String("carol@example.com".to_string()));
    claims.insert("roles".to_string(), string_list(&["admin", "ops"]));
    let token = make_token(SECRET, claims);

    let gate = AuthGate::new(SECRET.to_string(), vec![]);
    let ctx = gate.validate(&headers_with(&token)).unwrap();
    assert_eq!(ctx.email, Some("carol@example.com".to_string()));
    assert_eq!(
        ctx.roles,
        Some(vec!["admin".to_string(), "ops".to_string()])
    );
}

#[test]
fn test_validate_expired_token() {
    let mut claims = base_claims();
    claims.insert("exp".to_string(), Value::from(1000u64));
    let token = make_token(SECRET, claims);

    let gate = AuthGate::new(SECRET.to_string(), vec![]);
    let result = gate.validate(&headers_with(&token));

    assert!(result.is_err());
    assert_eq!(result.error.as_ref().unwrap().code, "AUTH_TOKEN_INVALID");
    assert_eq!(result.error.as_ref().unwrap().http_status, 401);
}

#[test]
fn test_validate_bad_signature() {
    let token = make_token("other-key", base_claims());

    let gate = AuthGate::new(SECRET.to_string(), vec![]);
    let result = gate.validate(&headers_with(&token));

    assert!(result.is_err());
    assert_eq!(result.error.as_ref().unwrap().code, "AUTH_TOKEN_INVALID");
}

#[test]
fn test_validate_garbage_token() {
    let gate = AuthGate::new(SECRET.to_string(), vec![]);
    let result = gate.validate(&headers_with("not.a.jwt"));

    assert!(result.is_err());
    assert_eq!(result.error.as_ref().unwrap().code, "AUTH_TOKEN_INVALID");
}

#[test]
fn test_validate_missing_exp() {
    let mut claims = serde_json::Map::new();
    claims.insert("sub".to_string(), Value::String("dave".to_string()));
    let token = make_token(SECRET, claims);

    let gate = AuthGate::new(SECRET.to_string(), vec![]);
    let result = gate.validate(&headers_with(&token));
    assert_eq!(result.error.as_ref().unwrap().code, "AUTH_TOKEN_INVALID");
}

#[test]
fn test_validate_mistyped_scopes_claim() {
    let mut claims = base_claims();
    claims.insert("scopes".to_string(), Value::String("users:create".to_string()));
    let token = make_token(SECRET, claims);

    let gate = AuthGate::new(SECRET.to_string(), vec![]);
    let result = gate.validate(&headers_with(&token));
    assert_eq!(result.error.as_ref().unwrap().code, "AUTH_TOKEN_INVALID");
}

#[test]
fn test_validate_insufficient_scopes() {
    let mut claims = base_claims();
    claims.insert("scopes".to_string(), string_list(&["users:read"]));
    let token = make_token(SECRET, claims);

    let gate = AuthGate::new(SECRET.to_string(), vec![UserScopes::create()]);
    let result = gate.validate(&headers_with(&token));

    assert!(result.is_err());
    let error = result.error.as_ref().unwrap();
    assert_eq!(error.code, "AUTH_INSUFFICIENT_SCOPES");
    assert_eq!(error.http_status, 403);
    assert_eq!(error.message, "Missing required scope: users:create");
}

#[test]
fn test_validate_wildcard_token() {
    let mut claims = base_claims();
    claims.insert("scopes".to_string(), string_list(&["users:*"]));
    let token = make_token(SECRET, claims);

    let gate = AuthGate::new(
        SECRET.to_string(),
        vec![UserScopes::create(), UserScopes::read(), UserScopes::update()],
    );
    assert!(gate.validate(&headers_with(&token)).is_ok());
}

#[test]
fn test_validate_global_wildcard_token() {
    let mut claims = base_claims();
    claims.insert("scopes".to_string(), string_list(&["*:*"]));
    let token = make_token(SECRET, claims);

    let gate = AuthGate::new(
        SECRET.to_string(),
        vec![UserScopes::create(), UserScopes::delete()],
    );
    assert!(gate.validate(&headers_with(&token)).is_ok());
}

#[test]
fn test_validate_admin_role_token() {
    let mut claims = base_claims();
    claims.insert("roles".to_string(), string_list(&["admin"]));
    let token = make_token(SECRET, claims);

    let gate = AuthGate::new(SECRET.to_string(), vec![UserScopes::delete()]);
    assert!(gate.validate(&headers_with(&token)).is_ok());
}

#[test]
fn test_validate_idempotent() {
    let mut claims = base_claims();
    claims.insert("sub".to_string(), Value::String("erin".to_string()));
    claims.insert("scopes".to_string(), string_list(&["users:create", "users:read"]));
    claims.insert("roles".to_string(), string_list(&["staff"]));
    let token = make_token(SECRET, claims);
    let headers = headers_with(&token);

    let gate = AuthGate::new(SECRET.to_string(), vec![UserScopes::create()]);
    let first = gate.validate(&headers);
    let second = gate.validate(&headers);

    assert!(first.is_ok());
    assert!(second.is_ok());
    assert_eq!(first.data, second.data);
}
