//! The authorization gate: bearer extraction, token decoding, context
//! building and scope enforcement.

use vstd::prelude::*;
use crate::gate_result::GateResult;
use crate::gate_result::GateTimer;
use crate::gate_result::RequestGate;
use crate::headers::RequestHeaders;
use crate::headers::spec_lookup;
use crate::result_ext::BrikResult;
use crate::text::clone_string_vec;
use crate::text::contains_string;
use crate::text::has_prefix;
use crate::text::seq_contains_str;
use crate::text::strip_prefix_owned;
use crate::token::TokenClaims;
use crate::token::decode_claims;

verus! {

/// The authorization context a successful gate check produces.
#[derive(Debug, Clone, PartialEq)]
pub struct AuthContext {
    pub user_id: String,
    pub scopes: Vec<String>,
    pub email: Option<String>,
    pub roles: Option<Vec<String>>,
}

/// A required permission, compared as the string `"resource:action"`.
#[derive(Debug, Clone)]
pub struct SecurityScope {
    pub resource: String,
    pub action: String,
    pub constraints: Option<ScopeConstraints>,
}

/// Extra conditions a required scope may carry.
#[derive(Debug, Clone)]
pub struct ScopeConstraints {
    pub owned_only: bool,
    pub department_only: bool,
    pub admin_only: bool,
}

/// An authorization gate: a signing secret and the scopes a request must
/// hold.
pub struct AuthGate {
    jwt_signing_key: String,
    required_scopes: Vec<SecurityScope>,
}

/// The string form of a required scope.
pub open spec fn spec_scope_string(s: SecurityScope) -> Seq<char> {
    s.resource@ + ":"@ + s.action@
}

/// A required scope is satisfied by the exact grant, the resource wildcard,
/// the global wildcard, or the admin override when the scope allows it.
pub open spec fn spec_scope_satisfied(
    granted: Seq<String>,
    roles: Seq<String>,
    req: SecurityScope,
) -> bool {
    ||| seq_contains_str(granted, spec_scope_string(req))
    ||| seq_contains_str(granted, req.resource@ + ":*"@)
    ||| seq_contains_str(granted, "*:*"@)
    ||| (req.constraints matches Some(c) && c.admin_only && seq_contains_str(roles, "admin"@))
}

/// The string of the first unsatisfied required scope, in list order, or
/// `None` when every required scope is satisfied.
pub open spec fn spec_first_missing(
    granted: Seq<String>,
    roles: Seq<String>,
    required: Seq<SecurityScope>,
) -> Option<Seq<char>>
    decreases required.len(),
{
    if required.len() == 0 {
        None
    } else if !spec_scope_satisfied(granted, roles, required[0]) {
        Some(spec_scope_string(required[0]))
    } else {
        spec_first_missing(granted, roles, required.drop_first())
    }
}

/// The credential carried by a `"Bearer "`-prefixed header value.
pub open spec fn spec_bearer_of(v: Seq<char>) -> Option<Seq<char>> {
    if has_prefix(v, "Bearer "@) {
        Some(v.subrange("Bearer "@.len() as int, v.len() as int))
    } else {
        None
    }
}

/// The bearer credential of a header collection: the `authorization` header
/// looked up case-insensitively, with the `"Bearer "` prefix stripped.
pub open spec fn spec_extract_bearer(entries: Seq<(String, String)>) -> Option<Seq<char>> {
    match spec_lookup(entries, "authorization"@) {
        Some(v) => spec_bearer_of(v),
        None => None,
    }
}

/// The subject of a set of claims: `sub`, else `user_id`, else `"unknown"`.
pub open spec fn spec_user_id(c: TokenClaims) -> Seq<char> {
    if c.sub is Some {
        c.sub->0@
    } else if c.user_id is Some {
        c.user_id->0@
    } else {
        "unknown"@
    }
}

/// The granted scopes of a set of claims, empty when the claim is absent.
pub open spec fn spec_scopes_of(c: TokenClaims) -> Seq<String> {
    match c.scopes {
        Some(v) => v@,
        None => Seq::<String>::empty(),
    }
}

/// The roles of a set of claims, empty when the claim is absent.
pub open spec fn spec_roles_of(c: TokenClaims) -> Seq<String> {
    match c.roles {
        Some(v) => v@,
        None => Seq::<String>::empty(),
    }
}

/// The email of a set of claims, as a view.
pub open spec fn spec_email_of(c: TokenClaims) -> Option<Seq<char>> {
    match c.email {
        Some(e) => Some(e@),
        None => None,
    }
}

/// `ctx` is the context that the claims `c` describe.
pub open spec fn spec_context_matches(ctx: AuthContext, c: TokenClaims) -> bool {
    &&& ctx.user_id@ == spec_user_id(c)
    &&& ctx.scopes@ == spec_scopes_of(c)
    &&& spec_email_of_ctx(ctx) == spec_email_of(c)
    &&& ctx.roles matches Some(rs) && rs@ == spec_roles_of(c)
}

/// The email field of a context, as a view.
pub open spec fn spec_email_of_ctx(ctx: AuthContext) -> Option<Seq<char>> {
    match ctx.email {
        Some(e) => Some(e@),
        None => None,
    }
}

/// The failure owed when no bearer credential is presented.
pub open spec fn spec_missing_failure(r: GateResult<AuthContext>) -> bool {
    &&& !r.is_success
    &&& r.data is None
    &&& r.error matches Some(e) && e.gate@ == "AuthGate"@ && e.code@ == "AUTH_TOKEN_MISSING"@
        && e.message@ == "Authorization header with Bearer value is required"@ && e.http_status
        == 401
}

/// The failure owed when the credential does not verify or has expired.
pub open spec fn spec_invalid_failure(r: GateResult<AuthContext>) -> bool {
    &&& !r.is_success
    &&& r.data is None
    &&& r.error matches Some(e) && e.gate@ == "AuthGate"@ && e.code@ == "AUTH_TOKEN_INVALID"@
        && e.message@ == "Invalid or expired JWT authorization"@ && e.http_status == 401
}

/// The failure owed when a required scope named `missing` is not granted.
pub open spec fn spec_denied_failure(r: GateResult<AuthContext>, missing: Seq<char>) -> bool {
    &&& !r.is_success
    &&& r.data is None
    &&& r.error matches Some(e) && e.gate@ == "AuthGate"@ && e.code@
        == "AUTH_INSUFFICIENT_SCOPES"@ && e.message@ == "Missing required scope: "@ + missing
        && e.http_status == 403
}

/// The outcome owed for a decode result, up to elapsed time: a
/// failed decode is the invalid-credential failure; decoded claims yield
/// the context when every required scope is satisfied, else the failure
/// naming the first missing scope.
pub open spec fn spec_claims_outcome(
    gate: AuthGate,
    claims: Option<TokenClaims>,
    r: GateResult<AuthContext>,
) -> bool {
    match claims {
        None => spec_invalid_failure(r),
        Some(c) => match spec_first_missing(
            spec_scopes_of(c),
            spec_roles_of(c),
            gate.spec_required(),
        ) {
            Some(missing) => spec_denied_failure(r, missing),
            None => {
                &&& r.is_success
                &&& r.error is None
                &&& r.data matches Some(ctx) && spec_context_matches(ctx, c)
            },
        },
    }
}

fn scope_string(s: &SecurityScope) -> (r: String)
    ensures
        r@ == spec_scope_string(*s),
{
    let mut out = s.resource.clone();
    out.append(":");
    out.append(s.action.as_str());
    out
}

fn resource_wildcard(s: &SecurityScope) -> (r: String)
    ensures
        r@ == s.resource@ + ":*"@,
{
    let mut out = s.resource.clone();
    out.append(":*");
    out
}

fn scope_satisfied(granted: &[String], roles: &[String], req: &SecurityScope) -> (r: bool)
    ensures
        r == spec_scope_satisfied(granted@, roles@, *req),
{
    let exact = scope_string(req);
    if contains_string(granted, &exact) {
        return true;
    }
    let wildcard = resource_wildcard(req);
    if contains_string(granted, &wildcard) {
        return true;
    }
    let global: String = "*:*".to_owned();
    if contains_string(granted, &global) {
        return true;
    }
    match &req.constraints {
        Some(c) => {
            if c.admin_only {
                let admin: String = "admin".to_owned();
                if contains_string(roles, &admin) {
                    return true;
                }
            }
        },
        None => {},
    }
    false
}

/// The context that a set of claims describes.
pub fn context_from_claims(claims: &TokenClaims) -> (r: AuthContext)
    ensures
        spec_context_matches(r, *claims),
{
    let user_id: String = match &claims.sub {
        Some(s) => s.clone(),
        None => match &claims.user_id {
            Some(u) => u.clone(),
            None => "unknown".to_owned(),
        },
    };
    let scopes: Vec<String> = match &claims.scopes {
        Some(v) => clone_string_vec(v),
        None => Vec::new(),
    };
    let roles: Vec<String> = match &claims.roles {
        Some(v) => clone_string_vec(v),
        None => Vec::new(),
    };
    let email: Option<String> = match &claims.email {
        Some(e) => Some(e.clone()),
        None => None,
    };
    AuthContext { user_id, scopes, email, roles: Some(roles) }
}

impl AuthGate {
    /// The signing secret.
    pub closed spec fn spec_key(&self) -> Seq<char> {
        self.jwt_signing_key@
    }

    /// The required scopes.
    pub closed spec fn spec_required(&self) -> Seq<SecurityScope> {
        self.required_scopes@
    }

    /// A gate that checks credentials signed with `jwt_signing_key` against
    /// `required_scopes`.
    pub fn new(jwt_signing_key: String, required_scopes: Vec<SecurityScope>) -> (r: Self)
        ensures
            r.spec_key() == jwt_signing_key@,
            r.spec_required() == required_scopes@,
    {
        Self { jwt_signing_key, required_scopes }
    }

    /// The bearer credential of `headers`, when one is present.
    pub fn extract_bearer_auth(&self, headers: &RequestHeaders) -> (r: Option<String>)
        ensures
            match r {
                Some(t) => spec_extract_bearer(headers@) == Some(t@),
                None => spec_extract_bearer(headers@) is None,
            },
    {
        match headers.get("authorization") {
            None => None,
            Some(value) => strip_prefix_owned(value.as_str(), "Bearer "),
        }
    }

    /// Checks each required scope in list order against the granted scopes
    /// and roles; the first unsatisfied scope's string comes back as the
    /// error.
    pub fn validate_scopes(
        &self,
        user_scopes: &[String],
        user_roles: &[String],
        required_scopes: &[SecurityScope],
    ) -> (r: BrikResult<(), String>)
        ensures
            r matches Ok(()) <==> spec_first_missing(user_scopes@, user_roles@, required_scopes@)
                is None,
            r matches Err(m) ==> Some(m@) == spec_first_missing(
                user_scopes@,
                user_roles@,
                required_scopes@,
            ),
    {
        let n = required_scopes.len();
        let mut i: usize = 0;
        proof {
            assert(required_scopes@.skip(0) =~= required_scopes@);
        }
        while i < n
            invariant
                n == required_scopes@.len(),
                i <= n,
                spec_first_missing(user_scopes@, user_roles@, required_scopes@)
                    == spec_first_missing(
                    user_scopes@,
                    user_roles@,
                    required_scopes@.skip(i as int),
                ),
            decreases n - i,
        {
            let req = vstd::slice::slice_index_get(required_scopes, i);
            proof {
                assert(required_scopes@.skip(i as int)[0] == required_scopes@[i as int]);
            }
            if !scope_satisfied(user_scopes, user_roles, req) {
                return Err(scope_string(req));
            }
            proof {
                assert(required_scopes@.skip(i as int).drop_first() =~= required_scopes@.skip(
                    i as int + 1,
                ));
            }
            i += 1;
        }
        proof {
            assert(required_scopes@.skip(n as int) =~= Seq::<SecurityScope>::empty());
        }
        Ok(())
    }

    /// The outcome owed for a decode result: the invalid-credential
    /// failure for a failed decode, else the context or the first missing
    /// scope, with `duration` attached either way.
    pub fn outcome_for_claims(
        &self,
        claims: Option<TokenClaims>,
        duration: Option<std::time::Duration>,
    ) -> (r: GateResult<AuthContext>)
        ensures
            r.wf(),
            r.duration == duration,
            spec_claims_outcome(*self, claims, r),
    {
        let c = match claims {
            None => {
                return GateResult::failure(
                    "AuthGate",
                    "AUTH_TOKEN_INVALID",
                    "Invalid or expired JWT authorization",
                    401,
                    duration,
                );
            },
            Some(c) => c,
        };
        let ctx = context_from_claims(&c);
        let roles_ref: &Vec<String> = match &ctx.roles {
            Some(rs) => rs,
            None => unreached(),
        };
        match self.validate_scopes(
            ctx.scopes.as_slice(),
            roles_ref.as_slice(),
            self.required_scopes.as_slice(),
        ) {
            Err(missing) => {
                let mut msg: String = "Missing required scope: ".to_owned();
                msg.append(missing.as_str());
                GateResult::failure(
                    "AuthGate",
                    "AUTH_INSUFFICIENT_SCOPES",
                    msg.as_str(),
                    403,
                    duration,
                )
            },
            Ok(()) => GateResult::success(ctx, duration),
        }
    }

    /// Validates one request: extracts the bearer credential, verifies and
    /// decodes it, and enforces the required scopes. A missing credential is
    /// reported as such; what the decoder refuses is reported as invalid;
    /// decoded claims yield the context or the first missing scope. Every
    /// outcome carries the elapsed time.
    pub fn validate(&self, headers: &RequestHeaders) -> (r: GateResult<AuthContext>)
        ensures
            r.wf(),
            r.duration is Some,
            spec_extract_bearer(headers@) is None ==> spec_missing_failure(r),
            spec_extract_bearer(headers@) is Some ==> exists|claims: Option<TokenClaims>|
                spec_claims_outcome(*self, claims, r),
    {
        let timer = GateTimer::start();
        let token = match self.extract_bearer_auth(headers) {
            Some(t) => t,
            None => {
                return GateResult::failure(
                    "AuthGate",
                    "AUTH_TOKEN_MISSING",
                    "Authorization header with Bearer value is required",
                    401,
                    Some(timer.elapsed()),
                );
            },
        };
        let claims = decode_claims(token.as_str(), self.jwt_signing_key.as_str());
        let r = self.outcome_for_claims(claims, Some(timer.elapsed()));
        proof {
            assert(spec_claims_outcome(*self, claims, r));
        }
        r
    }
}

impl<'a> RequestGate<&'a RequestHeaders, AuthContext> for AuthGate {
    fn name(&self) -> &'static str {
        "AuthGate"
    }

    fn validate(&self, input: &'a RequestHeaders) -> (r: GateResult<AuthContext>) {
        AuthGate::validate(self, input)
    }
}

/// Factories for the user-resource scopes.
pub struct UserScopes;

impl UserScopes {
    /// The `users:create` scope.
    pub fn create() -> (r: SecurityScope)
        ensures
            r.resource@ == "users"@,
            r.action@ == "create"@,
            r.constraints is None,
    {
        SecurityScope {
            resource: "users".to_owned(),
            action: "create".to_owned(),
            constraints: None,
        }
    }

    /// The `users:read` scope.
    pub fn read() -> (r: SecurityScope)
        ensures
            r.resource@ == "users"@,
            r.action@ == "read"@,
            r.constraints is None,
    {
        SecurityScope { resource: "users".to_owned(), action: "read".to_owned(), constraints: None }
    }

    /// The `users:update` scope.
    pub fn update() -> (r: SecurityScope)
        ensures
            r.resource@ == "users"@,
            r.action@ == "update"@,
            r.constraints is None,
    {
        SecurityScope {
            resource: "users".to_owned(),
            action: "update".to_owned(),
            constraints: None,
        }
    }

    /// The `users:delete` scope, reserved to administrators.
    pub fn delete() -> (r: SecurityScope)
        ensures
            r.resource@ == "users"@,
            r.action@ == "delete"@,
            r.constraints matches Some(c) && !c.owned_only && !c.department_only && c.admin_only,
    {
        SecurityScope {
            resource: "users".to_owned(),
            action: "delete".to_owned(),
            constraints: Some(
                ScopeConstraints { owned_only: false, department_only: false, admin_only: true },
            ),
        }
    }
}

/// Law: granting `"{resource}:*"` satisfies any required scope on that
/// resource, whatever its action.
pub proof fn lemma_resource_wildcard_satisfies(
    granted: Seq<String>,
    roles: Seq<String>,
    req: SecurityScope,
)
    requires
        seq_contains_str(granted, req.resource@ + ":*"@),
    ensures
        spec_scope_satisfied(granted, roles, req),
{
}

/// Law: granting the global wildcard `"*:*"` satisfies every required
/// scope, so no scope check with it ever reports a missing scope.
pub proof fn lemma_global_wildcard_satisfies_all(
    granted: Seq<String>,
    roles: Seq<String>,
    required: Seq<SecurityScope>,
)
    requires
        seq_contains_str(granted, "*:*"@),
    ensures
        spec_first_missing(granted, roles, required) is None,
    decreases required.len(),
{
    if required.len() > 0 {
        lemma_global_wildcard_satisfies_all(granted, roles, required.drop_first());
    }
}

/// Law: a required scope whose constraints set `admin_only` is satisfied by
/// the `admin` role, even with no matching granted scope.
pub proof fn lemma_admin_override(granted: Seq<String>, roles: Seq<String>, req: SecurityScope)
    requires
        req.constraints matches Some(c) && c.admin_only,
        seq_contains_str(roles, "admin"@),
    ensures
        spec_scope_satisfied(granted, roles, req),
{
}

/// Law: the outcome owed for a decode result is a function of gate and
/// claims alone. Two well-formed outcomes for the same gate and claims
/// agree on success and, field for field, on the context or error they
/// carry; only the elapsed time may differ.
pub proof fn lemma_outcome_deterministic(
    gate: AuthGate,
    claims: Option<TokenClaims>,
    r1: GateResult<AuthContext>,
    r2: GateResult<AuthContext>,
)
    requires
        r1.wf(),
        r2.wf(),
        spec_claims_outcome(gate, claims, r1),
        spec_claims_outcome(gate, claims, r2),
    ensures
        r1.is_success == r2.is_success,
        r1.is_success ==> {
            let a = r1.data->0;
            let b = r2.data->0;
            &&& a.user_id@ == b.user_id@
            &&& a.scopes@ == b.scopes@
            &&& spec_email_of_ctx(a) == spec_email_of_ctx(b)
            &&& a.roles is Some && b.roles is Some && a.roles->0@ == b.roles->0@
        },
        !r1.is_success ==> {
            let a = r1.error->0;
            let b = r2.error->0;
            &&& a.gate@ == b.gate@
            &&& a.code@ == b.code@
            &&& a.message@ == b.message@
            &&& a.http_status == b.http_status
        },
{
}

} // verus!
