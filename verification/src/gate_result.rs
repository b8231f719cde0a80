//! Gate outcome type, gate error, gate trait and a small timer.

use vstd::prelude::*;

verus! {

/// Outcome of a gate check. Exactly one of `data` and `error` is populated,
/// as `wf` states; `duration` carries the elapsed time when a timer was
/// supplied.
#[derive(Debug, Clone)]
pub struct GateResult<T> {
    pub is_success: bool,
    pub data: Option<T>,
    pub error: Option<GateError>,
    pub duration: Option<std::time::Duration>,
}

/// A typed gate failure with an HTTP-style status code.
#[derive(Debug, Clone)]
pub struct GateError {
    pub gate: String,
    pub code: String,
    pub message: String,
    pub http_status: u16,
}

impl<T> GateResult<T> {
    /// Exactly one variant is populated, never both.
    pub open spec fn wf(self) -> bool {
        &&& self.is_success ==> self.data is Some && self.error is None
        &&& !self.is_success ==> self.data is None && self.error is Some
    }

    /// A successful outcome carrying `data`.
    pub fn success(data: T, duration: Option<std::time::Duration>) -> (r: Self)
        ensures
            r.wf(),
            r.is_success,
            r.data == Some(data),
            r.error is None,
            r.duration == duration,
    {
        Self { is_success: true, data: Some(data), error: None, duration }
    }

    /// A failed outcome carrying a `GateError` built from the arguments.
    pub fn failure(
        gate: &str,
        code: &str,
        message: &str,
        http_status: u16,
        duration: Option<std::time::Duration>,
    ) -> (r: Self)
        ensures
            r.wf(),
            !r.is_success,
            r.data is None,
            r.error matches Some(e) && e.gate@ == gate@ && e.code@ == code@ && e.message@
                == message@ && e.http_status == http_status,
            r.duration == duration,
    {
        Self {
            is_success: false,
            data: None,
            error: Some(GateError::new(gate, code, message, http_status)),
            duration,
        }
    }

    /// The success value; the caller must know the outcome succeeded.
    pub fn unwrap(self) -> (r: T)
        requires
            self.wf(),
            self.is_success,
        ensures
            Some(r) == self.data,
    {
        self.data.unwrap()
    }

    /// The success value, or `default` for a failed outcome.
    pub fn unwrap_or(self, default: T) -> (r: T)
        ensures
            self.data is Some ==> Some(r) == self.data,
            self.data is None ==> r == default,
    {
        self.data.unwrap_or(default)
    }

    /// Whether the outcome is a success.
    pub fn is_ok(&self) -> (r: bool)
        ensures
            r == self.is_success,
    {
        self.is_success
    }

    /// Whether the outcome is a failure.
    pub fn is_err(&self) -> (r: bool)
        ensures
            r == !self.is_success,
    {
        !self.is_success
    }
}

impl GateError {
    /// A gate error built from its parts.
    pub fn new(gate: &str, code: &str, message: &str, http_status: u16) -> (r: Self)
        ensures
            r.gate@ == gate@,
            r.code@ == code@,
            r.message@ == message@,
            r.http_status == http_status,
    {
        Self {
            gate: gate.to_owned(),
            code: code.to_owned(),
            message: message.to_owned(),
            http_status,
        }
    }

    /// The error rendered as one line of text.
    pub fn display_string(&self) -> (r: String)
        ensures
            r@ == "Gate "@ + self.gate@ + " failed with code "@ + self.code@ + ": "@
                + self.message@,
    {
        let mut s: String = "Gate ".to_owned();
        s.append(self.gate.as_str());
        s.append(" failed with code ");
        s.append(self.code.as_str());
        s.append(": ");
        s.append(self.message.as_str());
        s
    }
}

/// Trait for request gates.
pub trait RequestGate<TInput, TOutput> {
    /// The name used in failure reports.
    fn name(&self) -> &'static str;

    /// Validates one inbound input, producing an outcome.
    fn validate(&self, input: TInput) -> (r: GateResult<TOutput>)
        ensures
            r.wf(),
    ;
}

/// Helper to time gate operations.
pub struct GateTimer {
    start: std::time::Instant,
}

#[verifier::external_type_specification]
#[verifier::external_body]
pub struct ExInstant(std::time::Instant);

/// Relies on `std::time::Instant::now` for a monotonic timestamp; nothing is
/// assumed of the value.
#[verifier::external_body]
fn instant_now() -> std::time::Instant {
    std::time::Instant::now()
}

/// Relies on `std::time::Instant::elapsed`; nothing is assumed of the
/// duration it reports.
#[verifier::external_body]
fn instant_elapsed(start: &std::time::Instant) -> std::time::Duration {
    start.elapsed()
}

impl GateTimer {
    /// Starts a timer at the current instant.
    pub fn start() -> Self {
        Self { start: instant_now() }
    }

    /// Time elapsed since the timer started.
    pub fn elapsed(&self) -> std::time::Duration {
        instant_elapsed(&self.start)
    }
}

} // verus!
