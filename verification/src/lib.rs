//! Request authorization gate and resilient call wrapper.
//!
//! An authorization gate validates a bearer credential from request headers
//! against a set
//! of required scopes and produces a typed outcome. The resilient wrapper
//! guards an operation with a circuit breaker, bounded retries with
//! exponential backoff, and a per-attempt timeout. Shared result plumbing and
//! a few small core rules round out the crate.

pub mod arith;
pub mod auth_gate;
pub mod business_rules;
pub mod gate_result;
pub mod headers;
pub mod resilient;
pub mod result_ext;
pub mod text;
pub mod token;

pub use arith::add;
pub use arith::is_even;

pub use auth_gate::AuthContext;
pub use auth_gate::AuthGate;
pub use auth_gate::ScopeConstraints;
pub use auth_gate::SecurityScope;
pub use auth_gate::UserScopes;

pub use business_rules::ordertotalcalculation;
pub use business_rules::stockvalidation;

pub use gate_result::GateError;
pub use gate_result::GateResult;
pub use gate_result::GateTimer;
pub use gate_result::RequestGate;

pub use resilient::AttemptResult;
pub use resilient::CallOutcome;
pub use resilient::CircuitBreaker;
pub use resilient::CircuitState;
pub use resilient::ResilientCall;
pub use resilient::RetryConfig;

pub use result_ext::BrikResult;
pub use result_ext::ResultExt;
pub use result_ext::err;
pub use result_ext::ok;
