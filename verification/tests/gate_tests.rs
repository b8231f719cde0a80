use brik::AuthGate;
use brik::RequestGate;
use brik::UserScopes;
use brik::headers::RequestHeaders;

fn create_test_headers(auth_value: &str) -> RequestHeaders {
    let mut headers = RequestHeaders::new();
    headers.insert(
        "authorization".to_string(),
        format!("Bearer {}", auth_value),
    );
    headers
}

#[test]
fn test_auth_gate_missing_auth() {
    let gate = AuthGate::new("signing-key".to_string(), vec![]);
    let headers = RequestHeaders::new();

    let result = gate.validate(&headers);

    assert!(!result.is_ok());
    assert_eq!(result.error.as_ref().unwrap().code, "AUTH_TOKEN_MISSING");
    assert_eq!(result.error.as_ref().unwrap().http_status, 401);
    assert!(result.duration.is_some());
}

#[test]
fn test_extract_bearer_auth() {
    let gate = AuthGate::new("signing-key".to_string(), vec![]);
    let headers = create_test_headers("test_auth_value");

    let auth_value = gate.extract_bearer_auth(&headers);
    assert_eq!(auth_value, Some("test_auth_value".to_string()));
}

#[test]
fn test_extract_bearer_auth_case_insensitive_name() {
    let gate = AuthGate::new("signing-key".to_string(), vec![]);
    let mut headers = RequestHeaders::new();
    headers.insert("AUTHORIZATION".to_string(), "Bearer abc".to_string());

    assert_eq!(gate.extract_bearer_auth(&headers), Some("abc".to_string()));
}

#[test]
fn test_extract_bearer_auth_wrong_prefix() {
    let gate = AuthGate::new("signing-key".to_string(), vec![]);
    let mut headers = RequestHeaders::new();
    headers.insert("authorization".to_string(), "Token abc".to_string());

    assert_eq!(gate.extract_bearer_auth(&headers), None);
    let result = gate.validate(&headers);
    assert_eq!(result.error.as_ref().unwrap().code, "AUTH_TOKEN_MISSING");
    assert_eq!(result.error.as_ref().unwrap().http_status, 401);
}

#[test]
fn test_extract_bearer_auth_keeps_inner_whitespace() {
    let gate = AuthGate::new("signing-key".to_string(), vec![]);
    let headers = create_test_headers(" spaced value ");
    assert_eq!(
        gate.extract_bearer_auth(&headers),
        Some(" spaced value ".to_string())
    );
}

#[test]
fn test_headers_first_match_wins() {
    let gate = AuthGate::new("signing-key".to_string(), vec![]);
    let mut headers = RequestHeaders::new();
    headers.insert("authorization".to_string(), "Bearer first".to_string());
    headers.insert("Authorization".to_string(), "Bearer second".to_string());

    assert_eq!(headers.len(), 2);
    assert_eq!(gate.extract_bearer_auth(&headers), Some("first".to_string()));
}

#[test]
fn test_validate_scopes() {
    let gate = AuthGate::new("signing-key".to_string(), vec![UserScopes::create()]);
    let user_scopes = vec!["users:create".to_string()];
    let user_roles: Vec<String> = vec![];
    let required = vec![UserScopes::create()];

    let result = gate.validate_scopes(&user_scopes, &user_roles, &required);
    assert!(result.is_ok());
}

#[test]
fn test_validate_scopes_missing() {
    let gate = AuthGate::new("signing-key".to_string(), vec![UserScopes::create()]);
    let user_scopes = vec!["users:read".to_string()];
    let user_roles: Vec<String> = vec![];
    let required = vec![UserScopes::create()];

    let result = gate.validate_scopes(&user_scopes, &user_roles, &required);
    assert!(result.is_err());
    assert_eq!(result.unwrap_err(), "users:create");
}

#[test]
fn test_validate_scopes_resource_wildcard() {
    let gate = AuthGate::new("signing-key".to_string(), vec![]);
    let user_scopes = vec!["users:*".to_string()];
    let user_roles: Vec<String> = vec![];
    let required = vec![
        UserScopes::create(),
        UserScopes::read(),
        UserScopes::update(),
        UserScopes::delete(),
    ];

    let result = gate.validate_scopes(&user_scopes, &user_roles, &required);
    assert!(result.is_ok());
}

#[test]
fn test_validate_scopes_global_wildcard() {
    let gate = AuthGate::new("signing-key".to_string(), vec![]);
    let user_scopes = vec!["*:*".to_string()];
    let user_roles: Vec<String> = vec![];
    let required = vec![UserScopes::create(), UserScopes::delete()];

    let result = gate.validate_scopes(&user_scopes, &user_roles, &required);
    assert!(result.is_ok());
}

#[test]
fn test_validate_scopes_admin_override() {
    let gate = AuthGate::new("signing-key".to_string(), vec![]);
    let user_scopes: Vec<String> = vec![];
    let user_roles = vec!["admin".to_string()];
    let required = vec![UserScopes::delete()];

    let result = gate.validate_scopes(&user_scopes, &user_roles, &required);
    assert!(result.is_ok());
}

#[test]
fn test_validate_scopes_admin_role_without_admin_only() {
    let gate = AuthGate::new("signing-key".to_string(), vec![]);
    let user_scopes: Vec<String> = vec![];
    let user_roles = vec!["admin".to_string()];
    let required = vec![UserScopes::create()];

    let result = gate.validate_scopes(&user_scopes, &user_roles, &required);
    assert_eq!(result.unwrap_err(), "users:create");
}

#[test]
fn test_validate_scopes_first_missing_wins() {
    let gate = AuthGate::new("signing-key".to_string(), vec![]);
    let user_scopes: Vec<String> = vec![];
    let user_roles: Vec<String> = vec![];
    let required = vec![UserScopes::read(), UserScopes::create()];

    let result = gate.validate_scopes(&user_scopes, &user_roles, &required);
    assert_eq!(result.unwrap_err(), "users:read");
}

#[test]
fn test_user_scopes_factories() {
    let create = UserScopes::create();
    assert_eq!(create.resource, "users");
    assert_eq!(create.action, "create");
    assert!(create.constraints.is_none());

    let read = UserScopes::read();
    assert_eq!(read.action, "read");

    let update = UserScopes::update();
    assert_eq!(update.action, "update");

    let delete = UserScopes::delete();
    assert_eq!(delete.action, "delete");
    let constraints = delete.constraints.unwrap();
    assert!(constraints.admin_only);
    assert!(!constraints.owned_only);
    assert!(!constraints.department_only);
}

#[test]
fn test_request_gate_trait() {
    let gate = AuthGate::new("signing-key".to_string(), vec![]);
    assert_eq!(RequestGate::name(&gate), "AuthGate");

    let headers = RequestHeaders::new();
    let result = RequestGate::validate(&gate, &headers);
    assert_eq!(result.error.as_ref().unwrap().code, "AUTH_TOKEN_MISSING");
}
