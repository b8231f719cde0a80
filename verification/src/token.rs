//! Verified-and-decoded token claims, and the trusted seam to the JWT
//! decoder.

use vstd::prelude::*;

verus! {

/// Claims read from a verified token, as plain values. A claim the token
/// omits is `None`.
#[derive(Debug, Clone)]
pub struct TokenClaims {
    pub sub: Option<String>,
    pub user_id: Option<String>,
    pub email: Option<String>,
    pub scopes: Option<Vec<String>>,
    pub roles: Option<Vec<String>>,
}

#[verifier::external_type_specification]
#[verifier::external_body]
pub struct ExValue(serde_json::Value);

/// Relies on `jsonwebtoken::decode` with HMAC-SHA256: the claims come back
/// only when the token's signature matches `secret` and its required `exp`
/// claim has not passed. The result depends on the clock, so nothing is
/// assumed of it.
#[verifier::external_body]
fn decode_hs256(token: &str, secret: &str) -> Option<serde_json::Value> {
    let key = jsonwebtoken::DecodingKey::from_secret(secret.as_bytes());
    let validation = jsonwebtoken::Validation::new(jsonwebtoken::Algorithm::HS256);
    match jsonwebtoken::decode::<serde_json::Value>(token, &key, &validation) {
        Ok(data) => Some(data.claims),
        Err(_) => None,
    }
}

/// Relies on `serde_json::Value::get` to look up a field of a JSON object.
#[verifier::external_body]
fn value_get<'a>(v: &'a serde_json::Value, key: &str) -> Option<&'a serde_json::Value> {
    v.get(key)
}

/// Relies on `serde_json::Value::is_null`.
#[verifier::external_body]
fn value_is_null(v: &serde_json::Value) -> bool {
    v.is_null()
}

/// Relies on `serde_json::Value::as_str`.
#[verifier::external_body]
fn value_as_str(v: &serde_json::Value) -> Option<String> {
    v.as_str().map(|s| s.to_string())
}

/// Relies on `serde_json::Value::as_array`.
#[verifier::external_body]
fn value_as_array(v: &serde_json::Value) -> Option<Vec<serde_json::Value>> {
    v.as_array().cloned()
}

/// One optional string claim: absent or null is `Ok(None)`, a string is
/// `Ok(Some(_))`, any other shape is malformed.
fn string_claim(v: &serde_json::Value, name: &str) -> Result<Option<String>, ()> {
    match value_get(v, name) {
        None => Ok(None),
        Some(field) => {
            if value_is_null(field) {
                Ok(None)
            } else {
                match value_as_str(field) {
                    Some(s) => Ok(Some(s)),
                    None => Err(()),
                }
            }
        },
    }
}

/// One optional list-of-strings claim: absent or null is `Ok(None)`, a list
/// of strings is `Ok(Some(_))`, any other shape is malformed.
fn string_list_claim(v: &serde_json::Value, name: &str) -> Result<Option<Vec<String>>, ()> {
    match value_get(v, name) {
        None => Ok(None),
        Some(field) => {
            if value_is_null(field) {
                Ok(None)
            } else {
                match value_as_array(field) {
                    None => Err(()),
                    Some(items) => {
                        let mut out: Vec<String> = Vec::new();
                        let n = items.len();
                        let mut i: usize = 0;
                        while i < n
                            invariant
                                n == items@.len(),
                                i <= n,
                            decreases n - i,
                        {
                            match value_as_str(&items[i]) {
                                Some(s) => out.push(s),
                                None => {
                                    return Err(());
                                },
                            }
                            i += 1;
                        }
                        Ok(Some(out))
                    },
                }
            }
        },
    }
}

/// The recognized claims of a decoded payload. `None` when a recognized
/// claim is present with the wrong shape: the decoder's typed
/// deserialization refuses such a token as malformed.
fn claims_from_value(v: &serde_json::Value) -> Option<TokenClaims> {
    let sub = match string_claim(v, "sub") {
        Ok(x) => x,
        Err(()) => {
            return None;
        },
    };
    let user_id = match string_claim(v, "user_id") {
        Ok(x) => x,
        Err(()) => {
            return None;
        },
    };
    let email = match string_claim(v, "email") {
        Ok(x) => x,
        Err(()) => {
            return None;
        },
    };
    let scopes = match string_list_claim(v, "scopes") {
        Ok(x) => x,
        Err(()) => {
            return None;
        },
    };
    let roles = match string_list_claim(v, "roles") {
        Ok(x) => x,
        Err(()) => {
            return None;
        },
    };
    Some(TokenClaims { sub, user_id, email, scopes, roles })
}

/// Verifies and decodes a token against `secret`, handing back its
/// recognized claims, or `None` for a token that is malformed, forged or
/// expired. The decoder decides; nothing is assumed of which tokens pass.
pub fn decode_claims(token: &str, secret: &str) -> Option<TokenClaims> {
    match decode_hs256(token, secret) {
        None => None,
        Some(v) => claims_from_value(&v),
    }
}

} // verus!
