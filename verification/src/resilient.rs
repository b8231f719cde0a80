//! Resilient call wrapper: a three-state circuit breaker, bounded retries
//! with exponential backoff, and a per-attempt timeout.
//!
//! The wrapped operation is modelled as a script: entry `i` says what the
//! operation's invocation on attempt `i` would do, and is consulted only
//! when that attempt happens. A caller that runs a live operation performs
//! each attempt itself and feeds the wrapper the outcomes.

use vstd::prelude::*;

verus! {

/// How many consecutive failures open the circuit.
pub const FAILURE_THRESHOLD: u64 = 5;

/// How long an open circuit rejects calls before a probe is allowed, in
/// milliseconds.
pub const COOLDOWN_MS: u64 = 60000;

/// Default per-attempt deadline, in milliseconds.
pub const DEFAULT_TIMEOUT_MS: u64 = 5000;

/// Default attempt budget.
pub const DEFAULT_RETRIES: u32 = 3;

/// The circuit breaker's three states.
#[derive(Debug, Clone, Copy, PartialEq, Eq, Structural)]
pub enum CircuitState {
    Closed,
    Open,
    HalfOpen,
}

/// Breaker state of one wrapper instance: the state, the consecutive
/// failure count, and when the latest failure happened (milliseconds).
#[derive(Debug, Clone, Copy, PartialEq)]
pub struct CircuitBreaker {
    pub state: CircuitState,
    pub failure_count: u64,
    pub last_failure_time: Option<u64>,
}

/// Per-call configuration: per-attempt deadline and attempt budget.
#[derive(Debug, Clone, Copy, PartialEq, Eq, Structural)]
pub struct RetryConfig {
    pub timeout_ms: u64,
    pub retries: u32,
}

/// What one invocation of the wrapped operation did: completed with a value
/// or an error after `elapsed_ms`, or ran into the per-attempt timeout.
#[derive(Debug, Clone)]
pub enum AttemptResult<T> {
    Success { value: T, elapsed_ms: u64 },
    Failure { message: String, elapsed_ms: u64 },
    TimedOut,
}

/// The normalized outcome of a resilient call. Exactly one of `value` and
/// `error` is populated, as `wf` states.
#[derive(Debug, Clone)]
pub struct CallOutcome<T> {
    pub success: bool,
    pub value: Option<T>,
    pub error: Option<String>,
    pub attempts: u32,
    pub timestamp: u64,
    pub duration: u64,
}

impl<T> CallOutcome<T> {
    /// Success carries a value and no error; failure the opposite.
    pub open spec fn wf(self) -> bool {
        &&& self.success ==> self.value is Some && self.error is None
        &&& !self.success ==> self.value is None && self.error is Some
    }
}

/// A fresh breaker: closed, no failures recorded.
pub open spec fn spec_fresh_breaker() -> CircuitBreaker {
    CircuitBreaker { state: CircuitState::Closed, failure_count: 0, last_failure_time: None }
}

/// The failure count after one more failure, saturating at the machine
/// limit.
pub open spec fn spec_inc_failures(n: u64) -> u64 {
    if n == u64::MAX {
        n
    } else {
        (n + 1) as u64
    }
}

/// The breaker after one failure recorded at `now`: the count grows, the
/// failure time is refreshed, and the circuit opens at the threshold.
pub open spec fn spec_after_failure(b: CircuitBreaker, now: u64) -> CircuitBreaker {
    let count = spec_inc_failures(b.failure_count);
    CircuitBreaker {
        state: if count >= FAILURE_THRESHOLD {
            CircuitState::Open
        } else {
            b.state
        },
        failure_count: count,
        last_failure_time: Some(now),
    }
}

/// The breaker after a success: closed, with the count reset.
pub open spec fn spec_after_success(b: CircuitBreaker) -> CircuitBreaker {
    CircuitBreaker {
        state: CircuitState::Closed,
        failure_count: 0,
        last_failure_time: b.last_failure_time,
    }
}

/// Whether the cooldown has elapsed at `now` since the latest failure.
pub open spec fn spec_cooldown_elapsed(b: CircuitBreaker, now: u64) -> bool {
    match b.last_failure_time {
        Some(t) => now >= t && now - t > COOLDOWN_MS,
        None => false,
    }
}

/// Whether a call beginning at `now` may proceed: closed and half-open
/// breakers admit it; an open breaker admits it only once the cooldown has
/// elapsed.
pub open spec fn spec_admits(b: CircuitBreaker, now: u64) -> bool {
    !(b.state is Open) || spec_cooldown_elapsed(b, now)
}

/// The breaker an admitted call sees: an open breaker whose cooldown has
/// elapsed turns half-open for the probe; any other is unchanged.
pub open spec fn spec_after_admit(b: CircuitBreaker, now: u64) -> CircuitBreaker {
    if b.state is Open && spec_cooldown_elapsed(b, now) {
        CircuitBreaker {
            state: CircuitState::HalfOpen,
            failure_count: b.failure_count,
            last_failure_time: b.last_failure_time,
        }
    } else {
        b
    }
}

impl CircuitBreaker {
    /// A fresh breaker: closed, no failures recorded.
    pub fn new() -> (r: Self)
        ensures
            r == spec_fresh_breaker(),
    {
        Self { state: CircuitState::Closed, failure_count: 0, last_failure_time: None }
    }

    /// Records one failure at `now`.
    pub fn record_failure(&mut self, now: u64)
        ensures
            *final(self) == spec_after_failure(*old(self), now),
    {
        if self.failure_count < u64::MAX {
            self.failure_count = self.failure_count + 1;
        }
        self.last_failure_time = Some(now);
        if self.failure_count >= FAILURE_THRESHOLD {
            self.state = CircuitState::Open;
        }
    }

    /// Records a success: the circuit closes and the count resets.
    pub fn record_success(&mut self)
        ensures
            *final(self) == spec_after_success(*old(self)),
    {
        self.state = CircuitState::Closed;
        self.failure_count = 0;
    }

    /// Whether a call at `now` may proceed. An open breaker whose cooldown
    /// has elapsed moves to half-open and admits the probe; one still
    /// cooling down refuses.
    pub fn try_admit(&mut self, now: u64) -> (admitted: bool)
        ensures
            admitted == spec_admits(*old(self), now),
            *final(self) == spec_after_admit(*old(self), now),
    {
        match self.state {
            CircuitState::Open => {
                let reset = match self.last_failure_time {
                    Some(t) => now >= t && now - t > COOLDOWN_MS,
                    None => false,
                };
                if reset {
                    self.state = CircuitState::HalfOpen;
                    true
                } else {
                    false
                }
            },
            _ => true,
        }
    }
}

impl RetryConfig {
    /// A configuration with the given deadline and attempt budget.
    pub fn new(timeout_ms: u64, retries: u32) -> (r: Self)
        ensures
            r.timeout_ms == timeout_ms,
            r.retries == retries,
    {
        Self { timeout_ms, retries }
    }
}

impl Default for RetryConfig {
    /// The default configuration: a 5000 ms deadline and 3 attempts.
    fn default() -> (r: Self)
        ensures
            r.timeout_ms == DEFAULT_TIMEOUT_MS,
            r.retries == DEFAULT_RETRIES,
    {
        Self { timeout_ms: DEFAULT_TIMEOUT_MS, retries: DEFAULT_RETRIES }
    }
}

/// Addition on the millisecond clock, saturating at the machine limit.
pub open spec fn spec_add_sat(a: u64, b: u64) -> u64 {
    if a + b > u64::MAX {
        u64::MAX
    } else {
        (a + b) as u64
    }
}

/// Twice `x`, saturating at the machine limit.
pub open spec fn spec_double_sat(x: u64) -> u64 {
    if 2 * x > u64::MAX {
        u64::MAX
    } else {
        (2 * x) as u64
    }
}

/// The backoff slept after `attempts` failures, before the next attempt:
/// `2^attempts` seconds in milliseconds, unbounded growth saturating only
/// at the machine limit.
pub open spec fn spec_backoff_ms(attempts: u32) -> u64
    decreases attempts,
{
    if attempts == 0 {
        1000
    } else {
        spec_double_sat(spec_backoff_ms((attempts - 1) as u32))
    }
}

/// The backoff slept after `attempts` failures.
pub fn backoff_ms(attempts: u32) -> (r: u64)
    ensures
        r == spec_backoff_ms(attempts),
{
    let mut b: u64 = 1000;
    let mut i: u32 = 0;
    while i < attempts
        invariant
            i <= attempts,
            b == spec_backoff_ms(i),
        decreases attempts - i,
    {
        b = if b > u64::MAX / 2 {
            u64::MAX
        } else {
            b * 2
        };
        i += 1;
    }
    b
}

/// How long an attempt took: its own elapsed time, or the whole deadline
/// for one that timed out.
pub open spec fn spec_attempt_elapsed<T>(a: AttemptResult<T>, timeout_ms: u64) -> u64 {
    match a {
        AttemptResult::Success { value: _, elapsed_ms } => elapsed_ms,
        AttemptResult::Failure { message: _, elapsed_ms } => elapsed_ms,
        AttemptResult::TimedOut => timeout_ms,
    }
}

/// The message a failed attempt reports; a timeout reads as one more
/// operation error.
pub open spec fn spec_attempt_error<T>(a: AttemptResult<T>) -> Seq<char> {
    match a {
        AttemptResult::Success { value: _, elapsed_ms: _ } => Seq::<char>::empty(),
        AttemptResult::Failure { message, elapsed_ms: _ } => message@,
        AttemptResult::TimedOut => "Request timeout"@,
    }
}

/// The spec-level image of a finished call: the outcome fields and the
/// breaker left behind, with `clock` the time the call finished.
pub ghost struct RunResult<T> {
    pub breaker: CircuitBreaker,
    pub success: bool,
    pub value: Option<T>,
    pub error: Option<Seq<char>>,
    pub attempts: u32,
    pub clock: u64,
}

/// The retry loop, entered before attempt `i` with the clock at `clock` and
/// `rest` the attempts still to come. A success closes the circuit and
/// returns at once; a failure is recorded at the time it finished, and,
/// with attempts left, the loop sleeps the backoff and goes round again.
pub open spec fn spec_run<T>(
    b: CircuitBreaker,
    cfg: RetryConfig,
    rest: Seq<AttemptResult<T>>,
    i: u32,
    clock: u64,
) -> RunResult<T>
    decreases cfg.retries - i,
{
    if i >= cfg.retries {
        RunResult {
            breaker: b,
            success: false,
            value: None,
            error: Some("Max retries exceeded"@),
            attempts: i,
            clock,
        }
    } else {
        match rest[0] {
            AttemptResult::Success { value, elapsed_ms } => {
                let done = spec_add_sat(clock, elapsed_ms);
                RunResult {
                    breaker: spec_after_success(b),
                    success: true,
                    value: Some(value),
                    error: None,
                    attempts: (i + 1) as u32,
                    clock: done,
                }
            },
            _ => {
                let failed_at = spec_add_sat(clock, spec_attempt_elapsed(rest[0], cfg.timeout_ms));
                let b2 = spec_after_failure(b, failed_at);
                if i + 1 >= cfg.retries {
                    RunResult {
                        breaker: b2,
                        success: false,
                        value: None,
                        error: Some(spec_attempt_error(rest[0])),
                        attempts: (i + 1) as u32,
                        clock: failed_at,
                    }
                } else {
                    spec_run(
                        b2,
                        cfg,
                        rest.drop_first(),
                        (i + 1) as u32,
                        spec_add_sat(failed_at, spec_backoff_ms((i + 1) as u32)),
                    )
                }
            },
        }
    }
}

/// A call at time `now` against a breaker: rejected outright with no
/// attempt made when the breaker refuses it, else the retry loop from
/// attempt zero.
pub open spec fn spec_execute<T>(
    b: CircuitBreaker,
    cfg: RetryConfig,
    script: Seq<AttemptResult<T>>,
    now: u64,
) -> RunResult<T> {
    if !spec_admits(b, now) {
        RunResult {
            breaker: b,
            success: false,
            value: None,
            error: Some("Circuit breaker is open"@),
            attempts: 0,
            clock: now,
        }
    } else {
        spec_run(spec_after_admit(b, now), cfg, script, 0, now)
    }
}

/// `outcome` is the executable image of the model `m`, for a call that
/// started at `start`.
pub open spec fn spec_outcome_matches<T>(
    outcome: CallOutcome<T>,
    m: RunResult<T>,
    start: u64,
) -> bool {
    &&& outcome.success == m.success
    &&& outcome.value == m.value
    &&& match (outcome.error, m.error) {
        (Some(e), Some(v)) => e@ == v,
        (None, None) => true,
        _ => false,
    }
    &&& outcome.attempts == m.attempts
    &&& outcome.timestamp == m.clock
    &&& outcome.duration == m.clock - start
}

fn add_sat(a: u64, b: u64) -> (r: u64)
    ensures
        r == spec_add_sat(a, b),
{
    a.saturating_add(b)
}

/// A circuit-breaker-guarded, retrying, timeout-bounded call wrapper. One
/// instance owns its breaker state for its whole lifetime.
#[derive(Debug)]
pub struct ResilientCall {
    config: RetryConfig,
    breaker: CircuitBreaker,
}

impl ResilientCall {
    /// The wrapper's configuration.
    pub closed spec fn spec_config(&self) -> RetryConfig {
        self.config
    }

    /// The wrapper's breaker state.
    pub closed spec fn spec_breaker(&self) -> CircuitBreaker {
        self.breaker
    }

    /// A wrapper with the given configuration and a fresh, closed breaker.
    pub fn new(config: RetryConfig) -> (r: Self)
        ensures
            r.spec_config() == config,
            r.spec_breaker() == spec_fresh_breaker(),
    {
        Self { config, breaker: CircuitBreaker::new() }
    }

    /// A wrapper with the default configuration.
    pub fn with_defaults() -> (r: Self)
        ensures
            r.spec_config() == (RetryConfig {
                timeout_ms: DEFAULT_TIMEOUT_MS,
                retries: DEFAULT_RETRIES,
            }),
            r.spec_breaker() == spec_fresh_breaker(),
    {
        Self::new(RetryConfig::new(DEFAULT_TIMEOUT_MS, DEFAULT_RETRIES))
    }

    /// The breaker's state, for observation.
    pub fn state(&self) -> (r: CircuitState)
        ensures
            r == self.spec_breaker().state,
    {
        self.breaker.state
    }

    /// The breaker's consecutive failure count, for observation.
    pub fn failure_count(&self) -> (r: u64)
        ensures
            r == self.spec_breaker().failure_count,
    {
        self.breaker.failure_count
    }

    /// When the breaker last recorded a failure, for observation.
    pub fn last_failure_time(&self) -> (r: Option<u64>)
        ensures
            r == self.spec_breaker().last_failure_time,
    {
        self.breaker.last_failure_time
    }

    /// Runs one guarded call at time `now` (a millisecond clock). `script`
    /// says what each invocation of the operation would do; entry `i` is
    /// consulted only if attempt `i` happens, so the script must cover the
    /// whole attempt budget. The outcome and the breaker afterwards are
    /// exactly the model's.
    pub fn execute<T>(&mut self, script: Vec<AttemptResult<T>>, now: u64) -> (r: CallOutcome<T>)
        requires
            script@.len() >= old(self).spec_config().retries,
        ensures
            final(self).spec_config() == old(self).spec_config(),
            r.wf(),
            ({
                let m = spec_execute(
                    old(self).spec_breaker(),
                    old(self).spec_config(),
                    script@,
                    now,
                );
                &&& spec_outcome_matches(r, m, now)
                &&& final(self).spec_breaker() == m.breaker
            }),
    {
        let ghost cfg = self.config;
        let ghost m = spec_execute(self.spec_breaker(), self.spec_config(), script@, now);
        if !self.breaker.try_admit(now) {
            return CallOutcome {
                success: false,
                value: None,
                error: Some("Circuit breaker is open".to_owned()),
                attempts: 0,
                timestamp: now,
                duration: 0,
            };
        }
        let retries = self.config.retries;
        let timeout = self.config.timeout_ms;
        let mut rest = script;
        let mut clock: u64 = now;
        let mut attempts: u32 = 0;
        while attempts < retries
            invariant
                self.config == cfg,
                cfg == old(self).spec_config(),
                m == spec_execute(old(self).spec_breaker(), cfg, script@, now),
                spec_admits(old(self).spec_breaker(), now),
                retries == cfg.retries,
                timeout == cfg.timeout_ms,
                attempts <= retries,
                rest@.len() >= retries - attempts,
                clock >= now,
                spec_run(self.spec_breaker(), cfg, rest@, attempts, clock) == m,
            decreases retries - attempts,
        {
            let ghost b_before = self.breaker;
            let ghost rest_before = rest@;
            let ghost clock_before = clock;
            let attempt = rest.remove(0);
            proof {
                assert(rest_before[0] == attempt);
                assert(rest@ =~= rest_before.drop_first());
            }
            match attempt {
                AttemptResult::Success { value, elapsed_ms } => {
                    clock = add_sat(clock, elapsed_ms);
                    self.breaker.record_success();
                    proof {
                        assert(spec_run(b_before, cfg, rest_before, attempts, clock_before)
                            == RunResult {
                            breaker: spec_after_success(b_before),
                            success: true,
                            value: Some(value),
                            error: None,
                            attempts: (attempts + 1) as u32,
                            clock: spec_add_sat(clock_before, elapsed_ms),
                        });
                    }
                    return CallOutcome {
                        success: true,
                        value: Some(value),
                        error: None,
                        attempts: attempts + 1,
                        timestamp: clock,
                        duration: clock - now,
                    };
                },
                AttemptResult::Failure { message, elapsed_ms } => {
                    clock = add_sat(clock, elapsed_ms);
                    attempts = attempts + 1;
                    self.breaker.record_failure(clock);
                    proof {
                        assert(spec_attempt_elapsed(rest_before[0], cfg.timeout_ms) == elapsed_ms);
                        assert(spec_attempt_error(rest_before[0]) == message@);
                    }
                    if attempts >= retries {
                        return CallOutcome {
                            success: false,
                            value: None,
                            error: Some(message),
                            attempts,
                            timestamp: clock,
                            duration: clock - now,
                        };
                    }
                    clock = add_sat(clock, backoff_ms(attempts));
                },
                AttemptResult::TimedOut => {
                    clock = add_sat(clock, timeout);
                    attempts = attempts + 1;
                    self.breaker.record_failure(clock);
                    proof {
                        assert(spec_attempt_elapsed(rest_before[0], cfg.timeout_ms)
                            == cfg.timeout_ms);
                        assert(spec_attempt_error(rest_before[0]) == "Request timeout"@);
                    }
                    if attempts >= retries {
                        return CallOutcome {
                            success: false,
                            value: None,
                            error: Some("Request timeout".to_owned()),
                            attempts,
                            timestamp: clock,
                            duration: clock - now,
                        };
                    }
                    clock = add_sat(clock, backoff_ms(attempts));
                },
            }
        }
        CallOutcome {
            success: false,
            value: None,
            error: Some("Max retries exceeded".to_owned()),
            attempts,
            timestamp: clock,
            duration: clock - now,
        }
    }
}

/// The breaker after a run of failures recorded at the given times, oldest
/// first.
pub open spec fn spec_after_failures(b: CircuitBreaker, times: Seq<u64>) -> CircuitBreaker
    decreases times.len(),
{
    if times.len() == 0 {
        b
    } else {
        spec_after_failures(spec_after_failure(b, times[0]), times.drop_first())
    }
}

/// What a run of recorded failures does to a breaker: the count grows by
/// one per failure, saturating at the machine limit; the failure time ends
/// up at the last failure; and the circuit is open exactly when the count
/// has reached the threshold, the state otherwise untouched.
pub proof fn lemma_after_failures(b: CircuitBreaker, times: Seq<u64>)
    requires
        times.len() > 0,
    ensures
        ({
            let r = spec_after_failures(b, times);
            &&& r.failure_count as int == vstd::math::min(
                b.failure_count as int + times.len(),
                u64::MAX as int,
            )
            &&& r.last_failure_time == Some(times.last())
            &&& r.state == if r.failure_count >= FAILURE_THRESHOLD {
                CircuitState::Open
            } else {
                b.state
            }
        }),
    decreases times.len(),
{
    let b1 = spec_after_failure(b, times[0]);
    if times.len() == 1 {
        assert(spec_after_failures(b1, times.drop_first()) == b1);
    } else {
        lemma_after_failures(b1, times.drop_first());
        assert(times.drop_first().last() == times.last());
    }
}

/// Law: after the threshold many consecutive operation failures on one
/// wrapper, the circuit is open, and a further call within the cooldown of
/// the last failure is rejected immediately: it reports zero attempts, no
/// script entry is consulted, and the breaker is left untouched.
pub proof fn lemma_open_circuit_rejects<T>(
    times: Seq<u64>,
    cfg: RetryConfig,
    script: Seq<AttemptResult<T>>,
    now: u64,
)
    requires
        times.len() >= FAILURE_THRESHOLD,
        now <= times.last() + COOLDOWN_MS,
    ensures
        ({
            let b = spec_after_failures(spec_fresh_breaker(), times);
            let m = spec_execute(b, cfg, script, now);
            &&& b.state is Open
            &&& !m.success
            &&& m.value is None
            &&& m.error == Some("Circuit breaker is open"@)
            &&& m.attempts == 0
            &&& m.clock == now
            &&& m.breaker == b
        }),
{
    lemma_after_failures(spec_fresh_breaker(), times);
}

/// In a run whose remaining attempts all fail, every remaining attempt is
/// used: the outcome reports the whole attempt budget and the last
/// attempt's error, and the breaker has recorded each failure, the last at
/// the time the outcome reports.
pub proof fn lemma_run_all_failing<T>(
    b: CircuitBreaker,
    cfg: RetryConfig,
    rest: Seq<AttemptResult<T>>,
    i: u32,
    clock: u64,
)
    requires
        i < cfg.retries,
        rest.len() >= cfg.retries - i,
        forall|j: int| 0 <= j < cfg.retries - i ==> !(#[trigger] rest[j] is Success),
    ensures
        ({
            let m = spec_run(b, cfg, rest, i, clock);
            &&& !m.success
            &&& m.value is None
            &&& m.attempts == cfg.retries
            &&& m.error == Some(spec_attempt_error(rest[cfg.retries - i - 1]))
            &&& m.clock >= clock
            &&& m.breaker.last_failure_time == Some(m.clock)
            &&& m.breaker.failure_count as int == vstd::math::min(
                b.failure_count as int + (cfg.retries - i),
                u64::MAX as int,
            )
            &&& m.breaker.state == if m.breaker.failure_count >= FAILURE_THRESHOLD {
                CircuitState::Open
            } else {
                b.state
            }
        }),
    decreases cfg.retries - i,
{
    let failed_at = spec_add_sat(clock, spec_attempt_elapsed(rest[0], cfg.timeout_ms));
    let b2 = spec_after_failure(b, failed_at);
    if i + 1 < cfg.retries {
        lemma_run_all_failing(
            b2,
            cfg,
            rest.drop_first(),
            (i + 1) as u32,
            spec_add_sat(failed_at, spec_backoff_ms((i + 1) as u32)),
        );
        assert(rest.drop_first()[cfg.retries - (i + 1) - 1] == rest[cfg.retries - i - 1]);
    }
}

/// Law: with an attempt budget of `retries`, a persistently failing
/// operation is attempted exactly `retries` times: the outcome reports
/// `attempts == retries`, no success, and the last attempt's error.
pub proof fn lemma_retries_exhausted<T>(
    b: CircuitBreaker,
    cfg: RetryConfig,
    script: Seq<AttemptResult<T>>,
    now: u64,
)
    requires
        spec_admits(b, now),
        cfg.retries >= 1,
        script.len() >= cfg.retries,
        forall|j: int| 0 <= j < cfg.retries ==> !(#[trigger] script[j] is Success),
    ensures
        ({
            let m = spec_execute(b, cfg, script, now);
            &&& !m.success
            &&& m.value is None
            &&& m.attempts == cfg.retries
            &&& m.error == Some(spec_attempt_error(script[cfg.retries - 1]))
        }),
{
    lemma_run_all_failing(spec_after_admit(b, now), cfg, script, 0, now);
}

/// Law: once the cooldown has elapsed on an open circuit, the next call is
/// admitted as the one half-open probe. A probe whose first attempt
/// succeeds closes the circuit and resets the failure count to zero. A
/// probe whose attempts all fail returns the circuit to open with the
/// cooldown clock reset to its last failure, so a call within the new
/// cooldown is rejected again.
pub proof fn lemma_halfopen_probe<T>(
    b: CircuitBreaker,
    cfg: RetryConfig,
    script: Seq<AttemptResult<T>>,
    now: u64,
    now2: u64,
)
    requires
        b.state is Open,
        b.failure_count >= FAILURE_THRESHOLD,
        spec_cooldown_elapsed(b, now),
        cfg.retries >= 1,
        script.len() >= cfg.retries,
    ensures
        spec_admits(b, now),
        spec_after_admit(b, now).state is HalfOpen,
        script[0] is Success ==> ({
            let m = spec_execute(b, cfg, script, now);
            &&& m.success
            &&& m.attempts == 1
            &&& m.breaker.state is Closed
            &&& m.breaker.failure_count == 0
        }),
        (forall|j: int| 0 <= j < cfg.retries ==> !(#[trigger] script[j] is Success)) ==> ({
            let m = spec_execute(b, cfg, script, now);
            &&& !m.success
            &&& m.breaker.state is Open
            &&& m.breaker.last_failure_time == Some(m.clock)
            &&& (now2 <= m.clock + COOLDOWN_MS ==> !spec_admits(m.breaker, now2))
        }),
{
    let b0 = spec_after_admit(b, now);
    if forall|j: int| 0 <= j < cfg.retries ==> !(#[trigger] script[j] is Success) {
        lemma_run_all_failing(b0, cfg, script, 0, now);
    }
}

} // verus!
