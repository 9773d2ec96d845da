//! Error recovery: classifying failures, choosing a recovery strategy,
//! exponential backoff, circuit breakers per operation, the retry loop as a
//! sequence of decisions, and the health status built from all of it.
//!
//! The retry loop runs outside: the caller performs the operation, sleeps
//! and requests permissions, and reports each outcome to the manager, which
//! answers with the next action.

use vstd::prelude::*;
use crate::TilleRSError;
use crate::permissions::{PermissionType, PermissionChecker, PermissionSummary, permission_instructions, missing_in};
use crate::table::{keys_unique, entry_of, lemma_entry_absent, lemma_entry_at, lemma_entry_set, lemma_entry_push};
use crate::text::{contains_seq, str_contains, lowercase, to_lowercase, owned, push_str, str_equal};

verus! {

/// Configuration for error recovery behavior. Durations are in milliseconds.
#[derive(Debug, Clone, Copy)]
pub struct RecoveryConfig {
    /// Maximum number of retry attempts for transient failures
    pub max_retries: usize,
    /// Base delay between retry attempts
    pub base_retry_delay: u64,
    /// Maximum delay between retry attempts (for exponential backoff)
    pub max_retry_delay: u64,
    /// Timeout for individual API calls
    pub api_timeout: u64,
    /// Interval for checking permission status
    pub permission_check_interval: u64,
    /// Whether to automatically attempt permission recovery
    pub auto_permission_recovery: bool,
    /// Circuit breaker threshold (failures before disabling)
    pub circuit_breaker_threshold: usize,
    /// Circuit breaker recovery time
    pub circuit_breaker_recovery_time: u64,
}

/// The default recovery configuration.
pub open spec fn default_recovery_config() -> RecoveryConfig {
    RecoveryConfig {
        max_retries: 3,
        base_retry_delay: 100,
        max_retry_delay: 5000,
        api_timeout: 2000,
        permission_check_interval: 30_000,
        auto_permission_recovery: true,
        circuit_breaker_threshold: 5,
        circuit_breaker_recovery_time: 60_000,
    }
}

impl Default for RecoveryConfig {
    fn default() -> (c: Self)
        ensures
            c == default_recovery_config(),
    {
        RecoveryConfig {
            max_retries: 3,
            base_retry_delay: 100,
            max_retry_delay: 5000,
            api_timeout: 2000,
            permission_check_interval: 30_000,
            auto_permission_recovery: true,
            circuit_breaker_threshold: 5,
            circuit_breaker_recovery_time: 60_000,
        }
    }
}

/// Types of recoverable errors.
#[derive(Debug, Clone, Copy, PartialEq, Eq, Structural)]
pub enum RecoverableError {
    /// Permission denied - can be recovered by requesting permission
    PermissionDenied(PermissionType),
    /// API temporarily unavailable - can be recovered with retry
    ApiUnavailable,
    /// Window not found - might be recoverable if window appears later
    WindowNotFound(u32),
    /// Workspace operation failed - can be retried
    WorkspaceOperationFailed,
    /// System overloaded - should back off and retry
    SystemOverloaded,
    /// Network or IPC failure - can be retried
    CommunicationFailure,
}

/// Recovery strategy for different error types. Delays are in
/// milliseconds; `until` is a time in milliseconds since the Unix epoch.
#[derive(Debug, Clone)]
pub enum RecoveryStrategy {
    /// Retry with exponential backoff
    RetryWithBackoff { attempts: usize, delay: u64 },
    /// Request missing permissions
    RequestPermissions { permissions: Vec<PermissionType> },
    /// Wait and retry once
    WaitAndRetry { wait_time: u64 },
    /// Circuit breaker - temporarily disable functionality
    CircuitBreaker { until: i64 },
    /// No recovery possible
    NoRecovery,
}

/// A failure reported by an operation: one of TilleRS's errors, or another
/// error given by its message.
#[derive(Debug, Clone, PartialEq, Eq)]
pub enum OperationError {
    Known(TilleRSError),
    Other(String),
}

/// Whether the text holds one of the two words.
pub open spec fn mentions(m: Seq<char>, a: Seq<char>, b: Seq<char>) -> bool {
    contains_seq(m, a) || contains_seq(m, b)
}

/// The classification of one of TilleRS's errors.
pub open spec fn classify_spec(e: TilleRSError) -> Option<RecoverableError> {
    match e {
        TilleRSError::PermissionDenied(m) => Some(
            RecoverableError::PermissionDenied(
                if mentions(m@, "Accessibility"@, "accessibility"@) {
                    PermissionType::Accessibility
                } else if mentions(m@, "Input"@, "input"@) {
                    PermissionType::InputMonitoring
                } else if mentions(m@, "Screen"@, "screen"@) {
                    PermissionType::ScreenRecording
                } else {
                    PermissionType::Accessibility
                },
            ),
        ),
        TilleRSError::WindowNotFound(id) => Some(RecoverableError::WindowNotFound(id)),
        TilleRSError::MacOSAPIError(m) => Some(
            if mentions(m@, "timeout"@, "unavailable"@) {
                RecoverableError::ApiUnavailable
            } else if mentions(m@, "overload"@, "busy"@) {
                RecoverableError::SystemOverloaded
            } else {
                RecoverableError::CommunicationFailure
            },
        ),
        TilleRSError::WorkspaceNotFound(_) => Some(RecoverableError::WorkspaceOperationFailed),
        _ => None,
    }
}

/// The classification of another error by its message.
pub open spec fn classify_message_spec(m: Seq<char>) -> RecoverableError {
    let l = lowercase(m);
    if contains_seq(l, "permission"@) {
        RecoverableError::PermissionDenied(PermissionType::Accessibility)
    } else if contains_seq(l, "timeout"@) {
        RecoverableError::ApiUnavailable
    } else {
        RecoverableError::CommunicationFailure
    }
}

/// The classification of an operation's failure.
pub open spec fn classify_operation_spec(e: OperationError) -> Option<RecoverableError> {
    match e {
        OperationError::Known(t) => classify_spec(t),
        OperationError::Other(m) => Some(classify_message_spec(m@)),
    }
}

fn mentions_either(m: &str, a: &str, b: &str) -> (r: bool)
    ensures
        r == mentions(m@, a@, b@),
{
    str_contains(m, a) || str_contains(m, b)
}

/// Classifies one of TilleRS's errors; configuration and validation errors
/// are not recoverable.
pub fn classify_error(error: &TilleRSError) -> (r: Option<RecoverableError>)
    ensures
        r == classify_spec(*error),
{
    match error {
        TilleRSError::PermissionDenied(m) => {
            let p = if mentions_either(m.as_str(), "Accessibility", "accessibility") {
                PermissionType::Accessibility
            } else if mentions_either(m.as_str(), "Input", "input") {
                PermissionType::InputMonitoring
            } else if mentions_either(m.as_str(), "Screen", "screen") {
                PermissionType::ScreenRecording
            } else {
                PermissionType::Accessibility
            };
            Some(RecoverableError::PermissionDenied(p))
        },
        TilleRSError::WindowNotFound(id) => Some(RecoverableError::WindowNotFound(*id)),
        TilleRSError::MacOSAPIError(m) => {
            if mentions_either(m.as_str(), "timeout", "unavailable") {
                Some(RecoverableError::ApiUnavailable)
            } else if mentions_either(m.as_str(), "overload", "busy") {
                Some(RecoverableError::SystemOverloaded)
            } else {
                Some(RecoverableError::CommunicationFailure)
            }
        },
        TilleRSError::WorkspaceNotFound(_) => Some(RecoverableError::WorkspaceOperationFailed),
        _ => None,
    }
}

/// Classifies an error that is not one of TilleRS's by its message, ignoring case.
pub fn classify_message(message: &str) -> (r: RecoverableError)
    ensures
        r == classify_message_spec(message@),
{
    let l = to_lowercase(message);
    if str_contains(l.as_str(), "permission") {
        RecoverableError::PermissionDenied(PermissionType::Accessibility)
    } else if str_contains(l.as_str(), "timeout") {
        RecoverableError::ApiUnavailable
    } else {
        RecoverableError::CommunicationFailure
    }
}

/// Classifies an operation's failure.
pub fn classify_operation_error(error: &OperationError) -> (r: Option<RecoverableError>)
    ensures
        r == classify_operation_spec(*error),
{
    match error {
        OperationError::Known(t) => classify_error(t),
        OperationError::Other(m) => Some(classify_message(m.as_str())),
    }
}

/// Two to the power `n`.
pub open spec fn pow2(n: nat) -> nat
    decreases n,
{
    if n == 0 {
        1
    } else {
        2 * pow2((n - 1) as nat)
    }
}

/// The backoff delay before attempt `attempt`: the base delay doubled
/// `attempt` times, capped at the maximum delay.
pub open spec fn backoff(c: RecoveryConfig, attempt: nat) -> u64 {
    if c.base_retry_delay * pow2(attempt) < c.max_retry_delay {
        (c.base_retry_delay * pow2(attempt)) as u64
    } else {
        c.max_retry_delay
    }
}

/// The backoff delay before attempt `attempt`.
pub fn calculate_backoff_delay(config: &RecoveryConfig, attempt: usize) -> (d: u64)
    requires
        attempt < 32,
    ensures
        d == backoff(*config, attempt as nat),
{
    let mut p: u64 = 1;
    let mut i: usize = 0;
    while i < attempt
        invariant
            i <= attempt < 32,
            p == pow2(i as nat),
            p <= 0x8000_0000,
        decreases attempt - i,
    {
        assert(pow2((i + 1) as nat) == 2 * pow2(i as nat));
        assert(p <= 0x4000_0000) by {
            lemma_pow2_bound(i as nat);
        }
        p = p * 2;
        i = i + 1;
    }
    assert(config.base_retry_delay as u128 * p as u128 <= 0xffff_ffff_ffff_ffff_u128 * 0x8000_0000_u128)
        by (nonlinear_arith)
        requires
            p <= 0x8000_0000,
    ;
    let full: u128 = config.base_retry_delay as u128 * p as u128;
    assert(full == config.base_retry_delay * pow2(attempt as nat)) by (nonlinear_arith)
        requires
            full == config.base_retry_delay as u128 * p as u128,
            p == pow2(attempt as nat),
    ;
    if full < config.max_retry_delay as u128 {
        full as u64
    } else {
        config.max_retry_delay
    }
}

proof fn lemma_pow2_bound(n: nat)
    requires
        n < 31,
    ensures
        pow2(n) <= 0x4000_0000,
{
    lemma_pow2_monotone(n, 30);
    assert(pow2(30) == 0x4000_0000) by {
        reveal_with_fuel(pow2, 31);
    }
}

proof fn lemma_pow2_monotone(a: nat, b: nat)
    requires
        a <= b,
    ensures
        pow2(a) <= pow2(b),
    decreases b,
{
    if a < b {
        lemma_pow2_monotone(a, (b - 1) as nat);
    }
}

/// Whether choosing a strategy for the error computes a backoff delay.
pub open spec fn strategy_uses_backoff(c: RecoveryConfig, e: RecoverableError, attempt: nat) -> bool {
    match e {
        RecoverableError::ApiUnavailable | RecoverableError::CommunicationFailure => attempt
            < c.circuit_breaker_threshold,
        RecoverableError::WorkspaceOperationFailed => true,
        _ => false,
    }
}

/// Whether `s` is the strategy for an error at an attempt, at time `now`.
pub open spec fn is_strategy_for(s: RecoveryStrategy, c: RecoveryConfig, e: RecoverableError, attempt: nat, now: i64) -> bool {
    match e {
        RecoverableError::PermissionDenied(p) => s matches RecoveryStrategy::RequestPermissions {
            permissions,
        } && permissions@ == seq![p],
        RecoverableError::ApiUnavailable | RecoverableError::CommunicationFailure => {
            if attempt >= c.circuit_breaker_threshold {
                s == RecoveryStrategy::CircuitBreaker { until: (now + c.circuit_breaker_recovery_time) as i64 }
            } else {
                s == RecoveryStrategy::RetryWithBackoff { attempts: attempt as usize, delay: backoff(c, attempt) }
            }
        },
        RecoverableError::WindowNotFound(_) => s == RecoveryStrategy::WaitAndRetry { wait_time: 200 },
        RecoverableError::WorkspaceOperationFailed => s == RecoveryStrategy::RetryWithBackoff {
            attempts: attempt as usize,
            delay: backoff(c, attempt),
        },
        RecoverableError::SystemOverloaded => s == RecoveryStrategy::WaitAndRetry { wait_time: 1000 },
    }
}

/// Whether an operation's failure is the timeout of the named operation.
pub open spec fn is_timeout_error(e: OperationError, name: Seq<char>) -> bool {
    e matches OperationError::Known(TilleRSError::MacOSAPIError(m)) && m@ == "Operation "@ + name
        + " timed out"@
}

/// Circuit breaker state for one operation.
#[derive(Debug, Clone, Copy, PartialEq, Eq, Structural)]
pub struct CircuitBreakerState {
    /// Failures recorded since the last success
    pub failures: usize,
    /// Time of the last failure, or the time the breaker was opened until
    pub last_failure: Option<i64>,
    /// Whether requests are blocked
    pub state: CircuitState,
}

/// Whether a circuit lets requests through.
#[derive(Debug, Clone, Copy, PartialEq, Eq, Structural)]
pub enum CircuitState {
    /// Normal operation
    Closed,
    /// Failing, blocking requests
    Open,
}

/// A breaker that has seen no failure.
pub open spec fn fresh_breaker() -> CircuitBreakerState {
    CircuitBreakerState { failures: 0, last_failure: None, state: CircuitState::Closed }
}

/// The breaker, or a fresh one where there is none.
pub open spec fn or_fresh(b: Option<CircuitBreakerState>) -> CircuitBreakerState {
    match b {
        Some(s) => s,
        None => fresh_breaker(),
    }
}

/// The breaker after a failure at `now`: one more failure, and open once
/// the failures reach the threshold.
pub open spec fn after_failure(b: Option<CircuitBreakerState>, now: i64, threshold: usize) -> CircuitBreakerState {
    let s = or_fresh(b);
    CircuitBreakerState {
        failures: (s.failures + 1) as usize,
        last_failure: Some(now),
        state: if s.failures + 1 >= threshold {
            CircuitState::Open
        } else {
            s.state
        },
    }
}

/// The breaker after being opened until `until`.
pub open spec fn after_open(b: Option<CircuitBreakerState>, until: i64) -> CircuitBreakerState {
    CircuitBreakerState { state: CircuitState::Open, last_failure: Some(until), ..or_fresh(b) }
}

/// The breaker after a success: cleared if it had failures.
pub open spec fn after_success(b: Option<CircuitBreakerState>) -> Option<CircuitBreakerState> {
    match b {
        Some(s) => if s.failures > 0 {
            Some(fresh_breaker())
        } else {
            Some(s)
        },
        None => None,
    }
}

/// Time elapsed since `t` as seen at `now`, never negative.
pub open spec fn elapsed_since(now: i64, t: i64) -> int {
    if now >= t {
        now - t
    } else {
        0
    }
}

/// Whether the breaker blocks requests at `now`: it is open and less than
/// the recovery time has passed since its last failure.
pub open spec fn blocks_at(b: Option<CircuitBreakerState>, now: i64, recovery: u64) -> bool {
    match b {
        Some(s) => s.state == CircuitState::Open && match s.last_failure {
            Some(t) => elapsed_since(now, t) < recovery,
            None => false,
        },
        None => false,
    }
}

/// Whether a failure can still be counted on the breaker.
pub open spec fn breaker_room(b: Option<CircuitBreakerState>) -> bool {
    or_fresh(b).failures < usize::MAX
}

/// The names of the breakers that are not closed, in table order.
pub open spec fn active_names(t: Seq<(Seq<char>, CircuitBreakerState)>) -> Seq<Seq<char>>
    decreases t.len(),
{
    if t.len() == 0 {
        Seq::empty()
    } else {
        let rest = active_names(t.drop_last());
        if t.last().1.state != CircuitState::Closed {
            rest.push(t.last().0)
        } else {
            rest
        }
    }
}

/// The contents of a list of strings.
pub open spec fn string_views(v: Seq<String>) -> Seq<Seq<char>> {
    v.map_values(|s: String| s@)
}

/// An attempt's outcome, as the caller observed it.
#[derive(Debug)]
pub enum AttemptOutcome {
    /// The operation succeeded
    Succeeded,
    /// The operation failed with an error
    Failed(OperationError),
    /// The operation did not finish within the API timeout
    TimedOut,
}

/// What the caller does next in a retry run.
#[derive(Debug)]
pub enum RetryAction {
    /// Run the operation now
    Attempt,
    /// Wait this many milliseconds, then ask with `resume`
    Sleep { millis: u64 },
    /// Request these permissions, then report with `on_permissions_requested`
    RequestPermissions { permissions: Vec<PermissionType> },
    /// The operation succeeded; hand its value back
    Succeed,
    /// Give up with this error
    Fail { error: OperationError },
}

/// A retry run of one operation: its name, the current attempt (counted
/// from zero) and the last error seen.
#[derive(Debug)]
pub struct RetryRun {
    pub operation: String,
    pub attempt: usize,
    pub last_error: Option<OperationError>,
}

/// The error a run carries after a step: the one it fails with, or the one
/// it keeps for later.
pub open spec fn carried_error(run: RetryRun, action: RetryAction) -> Option<OperationError> {
    match action {
        RetryAction::Fail { error } => Some(error),
        _ => run.last_error,
    }
}

/// Error recovery manager for TilleRS.
pub struct ErrorRecoveryManager {
    config: RecoveryConfig,
    permission_checker: PermissionChecker,
    circuit_breakers: Vec<(String, CircuitBreakerState)>,
    last_permission_check: Option<i64>,
}

/// System health status information.
#[derive(Debug, Clone)]
pub struct HealthStatus {
    /// Whether all required permissions are granted
    pub permissions_granted: bool,
    /// Names of operations with active circuit breakers
    pub active_circuit_breakers: Vec<String>,
    /// Last time permissions were checked, in milliseconds since the Unix epoch
    pub last_permission_check: Option<i64>,
}

impl ErrorRecoveryManager {
    /// The circuit breakers, by operation name, in the order first seen.
    pub closed spec fn breakers(&self) -> Seq<(Seq<char>, CircuitBreakerState)> {
        self.circuit_breakers@.map_values(|e: (String, CircuitBreakerState)| (e.0@, e.1))
    }

    /// The breaker of an operation.
    pub open spec fn breaker(&self, name: Seq<char>) -> Option<CircuitBreakerState> {
        entry_of(self.breakers(), name)
    }

    /// The manager's invariant: one breaker per operation name.
    pub closed spec fn wf(&self) -> bool {
        keys_unique(self.breakers())
    }

    /// The configuration.
    pub closed spec fn config_view(&self) -> RecoveryConfig {
        self.config
    }

    /// The permission checker.
    pub closed spec fn checker(&self) -> PermissionChecker {
        self.permission_checker
    }

    /// The time of the last permission check.
    pub closed spec fn last_check_view(&self) -> Option<i64> {
        self.last_permission_check
    }

    /// Whether two managers agree on everything but their breakers.
    pub open spec fn same_settings(&self, other: &Self) -> bool {
        &&& self.config_view() == other.config_view()
        &&& self.checker() == other.checker()
        &&& self.last_check_view() == other.last_check_view()
    }

    /// Whether the breaker of `name` changed as `f` says and the others not at all.
    pub open spec fn only_breaker_changed(&self, old: &Self, name: Seq<char>, b: Option<CircuitBreakerState>) -> bool {
        &&& self.breaker(name) == b
        &&& forall|n: Seq<char>| n != name ==> #[trigger] self.breaker(n) == old.breaker(n)
    }

    /// Create a new error recovery manager with no breakers.
    pub fn new(config: RecoveryConfig, permission_checker: PermissionChecker) -> (m: Self)
        ensures
            m.wf(),
            m.config_view() == config,
            m.checker() == permission_checker,
            m.breakers().len() == 0,
            m.last_check_view() is None,
    {
        let m = ErrorRecoveryManager {
            config,
            permission_checker,
            circuit_breakers: Vec::new(),
            last_permission_check: None,
        };
        assert(m.breakers() =~= Seq::<(Seq<char>, CircuitBreakerState)>::empty());
        m
    }

    /// The configuration.
    pub fn config(&self) -> (c: RecoveryConfig)
        ensures
            c == self.config_view(),
    {
        self.config
    }

    /// The permission checker.
    pub fn permission_checker(&self) -> (c: &PermissionChecker)
        ensures
            *c == self.checker(),
    {
        &self.permission_checker
    }

    fn breaker_index(&self, name: &str) -> (r: Option<usize>)
        requires
            self.wf(),
        ensures
            match r {
                Some(i) => i < self.breakers().len() && self.breakers()[i as int].0 == name@
                    && self.breaker(name@) == Some(self.breakers()[i as int].1),
                None => self.breaker(name@) is None && forall|j: int|
                    0 <= j < self.breakers().len() ==> (#[trigger] self.breakers()[j]).0 != name@,
            },
    {
        let mut i: usize = 0;
        while i < self.circuit_breakers.len()
            invariant
                i <= self.circuit_breakers@.len(),
                self.breakers().len() == self.circuit_breakers@.len(),
                keys_unique(self.breakers()),
                forall|j: int| 0 <= j < i ==> (#[trigger] self.breakers()[j]).0 != name@,
            decreases self.circuit_breakers.len() - i,
        {
            assert(self.breakers()[i as int] == (self.circuit_breakers@[i as int].0@, self.circuit_breakers@[i as int].1));
            if str_equal(self.circuit_breakers[i].0.as_str(), name) {
                proof {
                    lemma_entry_at(self.breakers(), i as int);
                }
                return Some(i);
            }
            i = i + 1;
        }
        proof {
            lemma_entry_absent(self.breakers(), name@);
        }
        None
    }

    /// The breaker of an operation.
    pub fn breaker_state(&self, name: &str) -> (r: Option<CircuitBreakerState>)
        requires
            self.wf(),
        ensures
            r == self.breaker(name@),
    {
        match self.breaker_index(name) {
            Some(i) => Some(self.circuit_breakers[i].1),
            None => None,
        }
    }

    fn put_breaker(&mut self, name: &str, state: CircuitBreakerState)
        requires
            old(self).wf(),
        ensures
            final(self).wf(),
            final(self).same_settings(old(self)),
            final(self).only_breaker_changed(old(self), name@, Some(state)),
    {
        let ghost t0 = self.breakers();
        match self.breaker_index(name) {
            Some(i) => {
                let key = self.circuit_breakers[i].0.clone();
                self.circuit_breakers.set(i, (key, state));
                proof {
                    assert(self.breakers() =~= t0.update(i as int, (name@, state)));
                    lemma_entry_set(t0, i as int, (name@, state));
                }
            },
            None => {
                self.circuit_breakers.push((owned(name), state));
                proof {
                    assert(self.breakers() =~= t0.push((name@, state)));
                    lemma_entry_push(t0, (name@, state));
                }
            },
        }
    }

    /// Whether the circuit of an operation blocks requests at `now`.
    pub fn is_circuit_open(&self, operation_name: &str, now: i64) -> (b: bool)
        requires
            self.wf(),
        ensures
            b == blocks_at(self.breaker(operation_name@), now, self.config_view().circuit_breaker_recovery_time),
    {
        match self.breaker_state(operation_name) {
            Some(s) => {
                if s.state == CircuitState::Open {
                    match s.last_failure {
                        Some(t) => {
                            let age: i128 = if now >= t { now as i128 - t as i128 } else { 0 };
                            age < self.config.circuit_breaker_recovery_time as i128
                        },
                        None => false,
                    }
                } else {
                    false
                }
            },
            None => false,
        }
    }

    /// Records a failure of an operation at `now`.
    pub fn record_failure(&mut self, operation_name: &str, now: i64)
        requires
            old(self).wf(),
            breaker_room(old(self).breaker(operation_name@)),
        ensures
            final(self).wf(),
            final(self).same_settings(old(self)),
            final(self).only_breaker_changed(
                old(self),
                operation_name@,
                Some(after_failure(old(self).breaker(operation_name@), now, old(self).config_view().circuit_breaker_threshold)),
            ),
    {
        let s = match self.breaker_state(operation_name) {
            Some(s) => s,
            None => CircuitBreakerState { failures: 0, last_failure: None, state: CircuitState::Closed },
        };
        let failures = s.failures + 1;
        let state = if failures >= self.config.circuit_breaker_threshold {
            CircuitState::Open
        } else {
            s.state
        };
        self.put_breaker(operation_name, CircuitBreakerState { failures, last_failure: Some(now), state });
    }

    /// Opens the circuit of an operation until `until`.
    pub fn open_circuit_breaker(&mut self, operation_name: &str, until: i64)
        requires
            old(self).wf(),
        ensures
            final(self).wf(),
            final(self).same_settings(old(self)),
            final(self).only_breaker_changed(
                old(self),
                operation_name@,
                Some(after_open(old(self).breaker(operation_name@), until)),
            ),
    {
        let s = match self.breaker_state(operation_name) {
            Some(s) => s,
            None => CircuitBreakerState { failures: 0, last_failure: None, state: CircuitState::Closed },
        };
        self.put_breaker(
            operation_name,
            CircuitBreakerState { failures: s.failures, last_failure: Some(until), state: CircuitState::Open },
        );
    }

    /// Clears the circuit of an operation after a success, if it had failures.
    pub fn reset_circuit_breaker(&mut self, operation_name: &str)
        requires
            old(self).wf(),
        ensures
            final(self).wf(),
            final(self).same_settings(old(self)),
            final(self).only_breaker_changed(old(self), operation_name@, after_success(old(self).breaker(operation_name@))),
    {
        match self.breaker_state(operation_name) {
            Some(s) => {
                if s.failures > 0 {
                    self.put_breaker(
                        operation_name,
                        CircuitBreakerState { failures: 0, last_failure: None, state: CircuitState::Closed },
                    );
                }
            },
            None => {},
        }
    }

    /// The names of the operations whose circuit is not closed.
    pub fn active_breakers(&self) -> (r: Vec<String>)
        ensures
            string_views(r@) == active_names(self.breakers()),
    {
        let mut r: Vec<String> = Vec::new();
        let mut i: usize = 0;
        while i < self.circuit_breakers.len()
            invariant
                i <= self.circuit_breakers@.len(),
                self.breakers().len() == self.circuit_breakers@.len(),
                string_views(r@) == active_names(self.breakers().take(i as int)),
            decreases self.circuit_breakers.len() - i,
        {
            let ghost t = self.breakers().take(i + 1);
            assert(t.drop_last() =~= self.breakers().take(i as int));
            assert(t.last() == (self.circuit_breakers@[i as int].0@, self.circuit_breakers@[i as int].1));
            let ghost r0 = r@;
            if self.circuit_breakers[i].1.state != CircuitState::Closed {
                r.push(self.circuit_breakers[i].0.clone());
                assert(string_views(r@) =~= string_views(r0).push(self.circuit_breakers@[i as int].0@));
            }
            i = i + 1;
        }
        assert(self.breakers().take(i as int) =~= self.breakers());
        r
    }

    /// The strategy for a recoverable error at an attempt, at time `now`.
    pub fn determine_recovery_strategy(&self, error: &RecoverableError, attempt: usize, now: i64) -> (s: RecoveryStrategy)
        requires
            strategy_uses_backoff(self.config_view(), *error, attempt as nat) ==> attempt < 32,
            now + self.config_view().circuit_breaker_recovery_time <= i64::MAX,
        ensures
            is_strategy_for(s, self.config_view(), *error, attempt as nat, now),
    {
        match error {
            RecoverableError::PermissionDenied(p) => {
                let v = vec![*p];
                assert(v@ == seq![*p]);
                RecoveryStrategy::RequestPermissions { permissions: v }
            },
            RecoverableError::ApiUnavailable | RecoverableError::CommunicationFailure => {
                if attempt >= self.config.circuit_breaker_threshold {
                    RecoveryStrategy::CircuitBreaker {
                        until: (now as i128 + self.config.circuit_breaker_recovery_time as i128) as i64,
                    }
                } else {
                    RecoveryStrategy::RetryWithBackoff {
                        attempts: attempt,
                        delay: calculate_backoff_delay(&self.config, attempt),
                    }
                }
            },
            RecoverableError::WindowNotFound(_) => RecoveryStrategy::WaitAndRetry { wait_time: 200 },
            RecoverableError::WorkspaceOperationFailed => RecoveryStrategy::RetryWithBackoff {
                attempts: attempt,
                delay: calculate_backoff_delay(&self.config, attempt),
            },
            RecoverableError::SystemOverloaded => RecoveryStrategy::WaitAndRetry { wait_time: 1000 },
        }
    }

    /// Starts recovering and retrying an operation at `now`: refused while
    /// the operation's circuit blocks requests, else a run at its first
    /// attempt. The run then goes on with `resume` and `on_outcome`, which
    /// say what to do next, until it succeeds or fails.
    pub fn recover_and_retry(&self, operation_name: &str, now: i64) -> (r: Result<RetryRun, TilleRSError>)
        requires
            self.wf(),
        ensures
            blocks_at(self.breaker(operation_name@), now, self.config_view().circuit_breaker_recovery_time)
                ==> (r matches Err(TilleRSError::MacOSAPIError(m)) && m@ == "Circuit breaker open for "@
                + operation_name@),
            !blocks_at(self.breaker(operation_name@), now, self.config_view().circuit_breaker_recovery_time)
                ==> (r matches Ok(run) && run.operation@ == operation_name@ && run.attempt == 0
                && run.last_error is None),
    {
        if self.is_circuit_open(operation_name, now) {
            let mut m = owned("Circuit breaker open for ");
            push_str(&mut m, operation_name);
            return Err(TilleRSError::MacOSAPIError(m));
        }
        Ok(RetryRun { operation: owned(operation_name), attempt: 0, last_error: None })
    }

    /// The next action of a run that may attempt again: attempt while
    /// attempts are left, else give up with the last error.
    pub fn resume(&self, run: &mut RetryRun) -> (a: RetryAction)
        ensures
            final(run).operation == old(run).operation,
            final(run).attempt == old(run).attempt,
            resumed(self.config_view(), *old(run), *final(run), a),
    {
        if run.attempt <= self.config.max_retries {
            RetryAction::Attempt
        } else {
            RetryAction::Fail { error: take_last_error(run) }
        }
    }

    fn fail_attempt(&mut self, run: &mut RetryRun, now: i64) -> (a: RetryAction)
        requires
            old(self).wf(),
            old(run).attempt < usize::MAX,
            old(run).attempt + 1 <= old(self).config_view().max_retries ==> old(run).attempt + 1 < 32,
            breaker_room(old(self).breaker(old(run).operation@)),
        ensures
            failure_step(*old(self), *final(self), *old(run), *final(run), a, now),
            carried_error(*final(run), a) == old(run).last_error || old(run).last_error is None,
    {
        self.record_failure(run.operation.as_str(), now);
        run.attempt = run.attempt + 1;
        if run.attempt <= self.config.max_retries {
            RetryAction::Sleep { millis: calculate_backoff_delay(&self.config, run.attempt) }
        } else {
            RetryAction::Fail { error: take_last_error(run) }
        }
    }

    /// Takes the outcome of an attempt at `now` and answers with the next
    /// action: on success the circuit is cleared; a timeout, an error that
    /// is not recoverable or a strategy that cannot be followed counts as a
    /// failure of the circuit and waits with backoff (or gives up once the
    /// attempts are spent); otherwise the error's strategy is followed.
    pub fn on_outcome(&mut self, run: &mut RetryRun, outcome: AttemptOutcome, now: i64) -> (a: RetryAction)
        requires
            old(self).wf(),
            old(run).attempt < usize::MAX,
            (outcome matches AttemptOutcome::Failed(e) && classify_operation_spec(e) matches Some(rec)
                && strategy_uses_backoff(old(self).config_view(), rec, old(run).attempt as nat)) ==> old(run).attempt < 32,
            old(run).attempt + 1 <= old(self).config_view().max_retries ==> old(run).attempt + 1 < 32,
            breaker_room(old(self).breaker(old(run).operation@)),
            now + old(self).config_view().circuit_breaker_recovery_time <= i64::MAX,
        ensures
            final(self).wf(),
            outcome_step(*old(self), *final(self), *old(run), *final(run), outcome, a, now),
    {
        match outcome {
            AttemptOutcome::Succeeded => {
                self.reset_circuit_breaker(run.operation.as_str());
                RetryAction::Succeed
            },
            AttemptOutcome::TimedOut => {
                let mut m = owned("Operation ");
                push_str(&mut m, run.operation.as_str());
                push_str(&mut m, " timed out");
                run.last_error = Some(OperationError::Known(TilleRSError::MacOSAPIError(m)));
                self.fail_attempt(run, now)
            },
            AttemptOutcome::Failed(e) => {
                let recoverable = classify_operation_error(&e);
                run.last_error = Some(e);
                match recoverable {
                    None => self.fail_attempt(run, now),
                    Some(rec) => {
                        let strategy = self.determine_recovery_strategy(&rec, run.attempt, now);
                        match strategy {
                            RecoveryStrategy::RetryWithBackoff { delay, .. } => {
                                if run.attempt < self.config.max_retries {
                                    run.attempt = run.attempt + 1;
                                    RetryAction::Sleep { millis: delay }
                                } else {
                                    self.fail_attempt(run, now)
                                }
                            },
                            RecoveryStrategy::RequestPermissions { permissions } => {
                                if self.config.auto_permission_recovery {
                                    RetryAction::RequestPermissions { permissions }
                                } else {
                                    self.fail_attempt(run, now)
                                }
                            },
                            RecoveryStrategy::WaitAndRetry { wait_time } => {
                                run.attempt = run.attempt + 1;
                                RetryAction::Sleep { millis: wait_time }
                            },
                            RecoveryStrategy::CircuitBreaker { until } => {
                                self.open_circuit_breaker(run.operation.as_str(), until);
                                let mut m = owned("Circuit breaker activated for ");
                                push_str(&mut m, run.operation.as_str());
                                RetryAction::Fail {
                                    error: OperationError::Known(TilleRSError::MacOSAPIError(m)),
                                }
                            },
                            RecoveryStrategy::NoRecovery => RetryAction::Fail { error: take_last_error(run) },
                        }
                    },
                }
            },
        }
    }

    /// Takes the result of requesting permissions at `now`: on success the
    /// next attempt follows (or the run gives up once attempts are spent);
    /// on failure the attempt counts as failed.
    pub fn on_permissions_requested(&mut self, run: &mut RetryRun, requested: bool, now: i64) -> (a: RetryAction)
        requires
            old(self).wf(),
            old(run).last_error is Some,
            old(run).attempt < usize::MAX,
            old(run).attempt + 1 <= old(self).config_view().max_retries ==> old(run).attempt + 1 < 32,
            breaker_room(old(self).breaker(old(run).operation@)),
        ensures
            final(self).wf(),
            carried_error(*final(run), a) == old(run).last_error,
            requested ==> *final(self) == *old(self) && final(run).attempt == old(run).attempt + 1
                && final(run).operation == old(run).operation && if old(run).attempt + 1
                <= old(self).config_view().max_retries {
                a is Attempt
            } else {
                a is Fail && final(run).last_error is None
            },
            !requested ==> failure_step(*old(self), *final(self), *old(run), *final(run), a, now),
    {
        if requested {
            run.attempt = run.attempt + 1;
            if run.attempt <= self.config.max_retries {
                RetryAction::Attempt
            } else {
                RetryAction::Fail { error: take_last_error(run) }
            }
        } else {
            self.fail_attempt(run, now)
        }
    }
}

impl ErrorRecoveryManager {
    /// Whether a permission check is due at `now`: none was made yet, or the
    /// check interval has passed since the last one.
    pub fn permission_check_due(&self, now: i64) -> (b: bool)
        ensures
            b == match self.last_check_view() {
                None => true,
                Some(t) => elapsed_since(now, t) >= self.config_view().permission_check_interval,
            },
    {
        match self.last_permission_check {
            None => true,
            Some(t) => {
                let age: i128 = if now >= t { now as i128 - t as i128 } else { 0 };
                age >= self.config.permission_check_interval as i128
            },
        }
    }

    /// Starts a permission check at `now` if one is due, recording its time;
    /// answers whether the check is to be made.
    pub fn begin_permission_check(&mut self, now: i64) -> (due: bool)
        requires
            old(self).wf(),
        ensures
            final(self).wf(),
            due == match old(self).last_check_view() {
                None => true,
                Some(t) => elapsed_since(now, t) >= old(self).config_view().permission_check_interval,
            },
            final(self).last_check_view() == if due { Some(now) } else { old(self).last_check_view() },
            final(self).breakers() == old(self).breakers(),
            final(self).config_view() == old(self).config_view(),
            final(self).checker() == old(self).checker(),
    {
        let due = self.permission_check_due(now);
        if due {
            self.last_permission_check = Some(now);
        }
        due
    }

    /// Whether to try recovering permissions after a check found them `granted` or not.
    pub fn should_recover_permissions(&self, granted: bool) -> (b: bool)
        ensures
            b == (!granted && self.config_view().auto_permission_recovery),
    {
        !granted && self.config.auto_permission_recovery
    }

    /// Records a permission status checked at `now` in the checker's cache.
    pub fn record_permission_status(
        &mut self,
        permission: PermissionType,
        status: crate::permissions::PermissionStatus,
        now: i64,
    )
        requires
            old(self).wf(),
            old(self).checker().wf(),
        ensures
            final(self).wf(),
            final(self).checker().wf(),
            final(self).breakers() == old(self).breakers(),
            final(self).config_view() == old(self).config_view(),
            final(self).last_check_view() == old(self).last_check_view(),
            final(self).checker().config_view() == old(self).checker().config_view(),
            crate::permissions::cache_entry(final(self).checker().cache(), permission) == Some((status, now)),
            forall|q: PermissionType| q != permission ==> crate::permissions::cache_entry(
                final(self).checker().cache(),
                q,
            ) == crate::permissions::cache_entry(old(self).checker().cache(), q),
    {
        self.permission_checker.record_status(permission, status, now);
    }

    /// The current health: whether permissions are granted, as the last
    /// check found, the operations whose circuit is not closed, and the time
    /// of the last permission check.
    pub fn get_health_status(&self, permissions_granted: bool) -> (h: HealthStatus)
        ensures
            h.permissions_granted == permissions_granted,
            string_views(h.active_circuit_breakers@) == active_names(self.breakers()),
            h.last_permission_check == self.last_check_view(),
    {
        HealthStatus {
            permissions_granted,
            active_circuit_breakers: self.active_breakers(),
            last_permission_check: self.last_permission_check,
        }
    }

    /// The instructions for each missing required permission of a summary, in order.
    pub fn get_permission_recovery_instructions(&self, summary: &PermissionSummary) -> (r: Vec<String>)
        ensures
            string_views(r@) == missing_in(summary.statuses@, summary.required_permissions@).map_values(
                |p: PermissionType| permission_instructions(p),
            ),
    {
        let missing = summary.missing_required_permissions();
        let mut r: Vec<String> = Vec::new();
        let mut i: usize = 0;
        while i < missing.len()
            invariant
                i <= missing@.len(),
                r@.len() == i,
                string_views(r@) == missing@.take(i as int).map_values(|p: PermissionType| permission_instructions(p)),
            decreases missing.len() - i,
        {
            let ghost r0 = r@;
            let text = self.permission_checker.get_permission_instructions(&missing[i]);
            r.push(text);
            proof {
                let want = missing@.take(i + 1).map_values(|p: PermissionType| permission_instructions(p));
                assert forall|k: int| 0 <= k < i + 1 implies #[trigger] string_views(r@)[k] == want[k] by {
                    if k < i {
                        assert(r@[k] == r0[k]);
                        assert(missing@.take(i + 1)[k] == missing@.take(i as int)[k]);
                        assert(string_views(r0)[k] == missing@.take(i as int).map_values(
                            |p: PermissionType| permission_instructions(p),
                        )[k]);
                    }
                }
                assert(string_views(r@) =~= want);
            }
            i = i + 1;
        }
        assert(missing@.take(i as int) =~= missing@);
        r
    }
}

/// Strings joined with a separator.
pub open spec fn join(parts: Seq<Seq<char>>, sep: Seq<char>) -> Seq<char>
    decreases parts.len(),
{
    if parts.len() == 0 {
        Seq::empty()
    } else if parts.len() == 1 {
        parts[0]
    } else {
        join(parts.drop_last(), sep) + sep + parts.last()
    }
}

/// Joins strings with a separator.
pub fn join_strings(parts: &Vec<String>, sep: &str) -> (r: String)
    ensures
        r@ == join(string_views(parts@), sep@),
{
    let mut r = String::new();
    let mut i: usize = 0;
    assert(string_views(parts@.take(0)) =~= Seq::<Seq<char>>::empty());
    while i < parts.len()
        invariant
            i <= parts@.len(),
            r@ == join(string_views(parts@.take(i as int)), sep@),
        decreases parts.len() - i,
    {
        let ghost before = string_views(parts@.take(i as int));
        let ghost after = string_views(parts@.take(i + 1));
        assert(after.drop_last() =~= before);
        if i > 0 {
            push_str(&mut r, sep);
        } else {
            assert(r@ =~= Seq::<char>::empty());
        }
        push_str(&mut r, parts[i].as_str());
        i = i + 1;
        assert(r@ =~= join(string_views(parts@.take(i as int)), sep@));
    }
    assert(parts@.take(i as int) =~= parts@);
    r
}

/// The description of a health status.
pub open spec fn health_description(h: HealthStatus) -> Seq<char> {
    let names = string_views(h.active_circuit_breakers@);
    if h.permissions_granted && names.len() == 0 {
        "System healthy - all permissions granted, no circuit breakers active"@
    } else {
        let issues = (if !h.permissions_granted {
            seq!["Missing required permissions"@]
        } else {
            Seq::empty()
        }) + (if names.len() != 0 {
            seq!["Circuit breakers active: "@ + join(names, ", "@)]
        } else {
            Seq::empty()
        });
        if issues.len() == 0 {
            "System health degraded"@
        } else {
            "System issues: "@ + join(issues, ", "@)
        }
    }
}

impl HealthStatus {
    /// Whether the system is healthy: permissions granted and no circuit open.
    pub fn is_healthy(&self) -> (b: bool)
        ensures
            b == (self.permissions_granted && self.active_circuit_breakers@.len() == 0),
    {
        self.permissions_granted && self.active_circuit_breakers.len() == 0
    }

    /// A human-readable description of the system status.
    pub fn description(&self) -> (r: String)
        ensures
            r@ == health_description(*self),
    {
        if self.is_healthy() {
            return owned("System healthy - all permissions granted, no circuit breakers active");
        }
        let mut issues: Vec<String> = Vec::new();
        if !self.permissions_granted {
            issues.push(owned("Missing required permissions"));
        }
        if self.active_circuit_breakers.len() != 0 {
            let mut m = owned("Circuit breakers active: ");
            let joined = join_strings(&self.active_circuit_breakers, ", ");
            push_str(&mut m, joined.as_str());
            issues.push(m);
        }
        let ghost names = string_views(self.active_circuit_breakers@);
        let ghost expected = (if !self.permissions_granted {
            seq!["Missing required permissions"@]
        } else {
            Seq::empty()
        }) + (if names.len() != 0 {
            seq!["Circuit breakers active: "@ + join(names, ", "@)]
        } else {
            Seq::empty()
        });
        assert(string_views(issues@) =~= expected);
        if issues.len() == 0 {
            owned("System health degraded")
        } else {
            let mut m = owned("System issues: ");
            let joined = join_strings(&issues, ", ");
            push_str(&mut m, joined.as_str());
            m
        }
    }
}

/// Takes the last error out of a run, or makes the error of a run that
/// ends without one.
fn take_last_error(run: &mut RetryRun) -> (e: OperationError)
    ensures
        final(run).operation == old(run).operation,
        final(run).attempt == old(run).attempt,
        final(run).last_error is None,
        match old(run).last_error {
            Some(x) => e == x,
            None => is_exhausted_error(e, old(run).operation@),
        },
{
    match run.last_error.take() {
        Some(x) => x,
        None => {
            let mut m = owned("Operation ");
            push_str(&mut m, run.operation.as_str());
            push_str(&mut m, " failed after all retries");
            OperationError::Known(TilleRSError::MacOSAPIError(m))
        },
    }
}

/// Whether an error is the one a run that ends without an error gives up with.
pub open spec fn is_exhausted_error(e: OperationError, name: Seq<char>) -> bool {
    e matches OperationError::Known(TilleRSError::MacOSAPIError(m)) && m@ == "Operation "@ + name
        + " failed after all retries"@
}

/// A run resumed: attempt while attempts are left, else give up with the
/// last error, or with the error of a run that ends without one.
pub open spec fn resumed(c: RecoveryConfig, r0: RetryRun, r1: RetryRun, a: RetryAction) -> bool {
    if r0.attempt <= c.max_retries {
        a is Attempt && r1.last_error == r0.last_error
    } else {
        &&& r1.last_error is None
        &&& a is Fail
        &&& match r0.last_error {
            Some(e) => a == RetryAction::Fail { error: e },
            None => a matches RetryAction::Fail { error } && is_exhausted_error(error, r0.operation@),
        }
    }
}

/// A failed attempt: the circuit counts the failure at `now`, the attempt
/// advances, and the run waits with backoff while attempts are left, else
/// gives up. Which error the run carries on is stated beside it.
pub open spec fn failure_step(
    m0: ErrorRecoveryManager,
    m1: ErrorRecoveryManager,
    r0: RetryRun,
    r1: RetryRun,
    a: RetryAction,
    now: i64,
) -> bool {
    let name = r0.operation@;
    let c = m0.config_view();
    &&& m1.wf()
    &&& m1.same_settings(&m0)
    &&& m1.only_breaker_changed(&m0, name, Some(after_failure(m0.breaker(name), now, c.circuit_breaker_threshold)))
    &&& r1.operation == r0.operation
    &&& r1.attempt == r0.attempt + 1
    &&& if r0.attempt + 1 <= c.max_retries {
        a == RetryAction::Sleep { millis: backoff(c, (r0.attempt + 1) as nat) }
    } else {
        a is Fail && r1.last_error is None
    }
}

/// A strategy that retries after a backoff delay, while attempts are left.
pub open spec fn backoff_step(
    m0: ErrorRecoveryManager,
    m1: ErrorRecoveryManager,
    r0: RetryRun,
    r1: RetryRun,
    e: OperationError,
    a: RetryAction,
    now: i64,
) -> bool {
    let c = m0.config_view();
    if r0.attempt < c.max_retries {
        &&& a == RetryAction::Sleep { millis: backoff(c, r0.attempt as nat) }
        &&& r1 == RetryRun { attempt: (r0.attempt + 1) as usize, last_error: Some(e), ..r0 }
        &&& m1 == m0
    } else {
        failure_step(m0, m1, r0, r1, a, now) && carried_error(r1, a) == Some(e)
    }
}

/// A strategy that waits, then retries.
pub open spec fn wait_step(
    m0: ErrorRecoveryManager,
    m1: ErrorRecoveryManager,
    r0: RetryRun,
    r1: RetryRun,
    e: OperationError,
    a: RetryAction,
    wait: u64,
) -> bool {
    &&& a == RetryAction::Sleep { millis: wait }
    &&& r1 == RetryRun { attempt: (r0.attempt + 1) as usize, last_error: Some(e), ..r0 }
    &&& m1 == m0
}

/// The step a run takes on an attempt's outcome.
pub open spec fn outcome_step(
    m0: ErrorRecoveryManager,
    m1: ErrorRecoveryManager,
    r0: RetryRun,
    r1: RetryRun,
    outcome: AttemptOutcome,
    a: RetryAction,
    now: i64,
) -> bool {
    let name = r0.operation@;
    let c = m0.config_view();
    match outcome {
        AttemptOutcome::Succeeded => {
            &&& a is Succeed
            &&& r1 == r0
            &&& m1.same_settings(&m0)
            &&& m1.only_breaker_changed(&m0, name, after_success(m0.breaker(name)))
        },
        AttemptOutcome::TimedOut => {
            &&& failure_step(m0, m1, r0, r1, a, now)
            &&& carried_error(r1, a) matches Some(e) && is_timeout_error(e, name)
        },
        AttemptOutcome::Failed(e) => match classify_operation_spec(e) {
            None => failure_step(m0, m1, r0, r1, a, now) && carried_error(r1, a) == Some(e),
            Some(rec) => match rec {
                RecoverableError::PermissionDenied(p) => if c.auto_permission_recovery {
                    &&& a matches RetryAction::RequestPermissions { permissions } && permissions@ == seq![p]
                    &&& r1 == RetryRun { last_error: Some(e), ..r0 }
                    &&& m1 == m0
                } else {
                    failure_step(m0, m1, r0, r1, a, now) && carried_error(r1, a) == Some(e)
                },
                RecoverableError::ApiUnavailable | RecoverableError::CommunicationFailure => {
                    if r0.attempt >= c.circuit_breaker_threshold {
                        &&& m1.same_settings(&m0)
                        &&& m1.only_breaker_changed(
                            &m0,
                            name,
                            Some(after_open(m0.breaker(name), (now + c.circuit_breaker_recovery_time) as i64)),
                        )
                        &&& a matches RetryAction::Fail { error: OperationError::Known(TilleRSError::MacOSAPIError(m)) }
                            && m@ == "Circuit breaker activated for "@ + name
                        &&& r1 == RetryRun { last_error: Some(e), ..r0 }
                    } else {
                        backoff_step(m0, m1, r0, r1, e, a, now)
                    }
                },
                RecoverableError::WindowNotFound(_) => wait_step(m0, m1, r0, r1, e, a, 200),
                RecoverableError::WorkspaceOperationFailed => backoff_step(m0, m1, r0, r1, e, a, now),
                RecoverableError::SystemOverloaded => wait_step(m0, m1, r0, r1, e, a, 1000),
            },
        },
    }
}

/// The backoff delay never exceeds the maximum delay.
pub proof fn law_backoff_capped(c: RecoveryConfig, attempt: nat)
    ensures
        backoff(c, attempt) <= c.max_retry_delay,
{
}

/// Each further attempt doubles the backoff delay, up to the maximum delay.
pub proof fn law_backoff_doubles(c: RecoveryConfig, attempt: nat)
    ensures
        backoff(c, attempt + 1) == if 2 * backoff(c, attempt) < c.max_retry_delay {
            2 * backoff(c, attempt)
        } else {
            c.max_retry_delay as int
        },
{
    assert(pow2(attempt + 1) == 2 * pow2(attempt));
    assert(c.base_retry_delay * pow2(attempt + 1) == 2 * (c.base_retry_delay * pow2(attempt))) by (nonlinear_arith)
        requires
            pow2(attempt + 1) == 2 * pow2(attempt),
    ;
}

/// The backoff delay never shrinks as attempts go on.
pub proof fn law_backoff_monotone(c: RecoveryConfig, a: nat, b: nat)
    requires
        a <= b,
    ensures
        backoff(c, a) <= backoff(c, b),
    decreases b,
{
    if a < b {
        law_backoff_monotone(c, a, (b - 1) as nat);
        law_backoff_doubles(c, (b - 1) as nat);
    }
}

/// Once the failures reach the threshold the circuit is open, and it blocks
/// requests until the recovery time has passed since the last failure.
pub proof fn law_breaker_opens_at_threshold(
    b: Option<CircuitBreakerState>,
    now: i64,
    threshold: usize,
    recovery: u64,
    later: i64,
)
    requires
        or_fresh(b).failures + 1 >= threshold,
    ensures
        after_failure(b, now, threshold).state == CircuitState::Open,
        blocks_at(Some(after_failure(b, now, threshold)), later, recovery) == (elapsed_since(later, now)
            < recovery),
{
}

/// The breaker after failures at the given times, one after the other (as
/// the failed attempts of earlier runs record them).
pub open spec fn failures_recorded(b: Option<CircuitBreakerState>, times: Seq<i64>, threshold: usize) -> Option<
    CircuitBreakerState,
>
    decreases times.len(),
{
    if times.len() == 0 {
        b
    } else {
        Some(after_failure(failures_recorded(b, times.drop_last(), threshold), times.last(), threshold))
    }
}

proof fn lemma_failures_count(b: Option<CircuitBreakerState>, times: Seq<i64>, threshold: usize)
    requires
        or_fresh(b).failures + times.len() <= usize::MAX,
    ensures
        or_fresh(failures_recorded(b, times, threshold)).failures == or_fresh(b).failures + times.len(),
    decreases times.len(),
{
    if times.len() > 0 {
        lemma_failures_count(b, times.drop_last(), threshold);
    }
}

/// Across runs: once the failures recorded on an operation's breaker (by
/// any number of earlier runs) reach the threshold, the breaker is open and
/// blocks, so that a new run of the operation (`recover_and_retry`) is
/// refused, until the recovery time has passed since the last failure.
pub proof fn law_breaker_blocks_after_failed_runs(
    b: Option<CircuitBreakerState>,
    times: Seq<i64>,
    threshold: usize,
    recovery: u64,
    later: i64,
)
    requires
        times.len() > 0,
        or_fresh(b).failures + times.len() >= threshold,
        or_fresh(b).failures + times.len() <= usize::MAX,
    ensures
        or_fresh(failures_recorded(b, times, threshold)).failures == or_fresh(b).failures + times.len(),
        failures_recorded(b, times, threshold) matches Some(s) && s.state == CircuitState::Open && s.last_failure
            == Some(times.last()),
        blocks_at(failures_recorded(b, times, threshold), later, recovery) == (elapsed_since(later, times.last())
            < recovery),
{
    lemma_failures_count(b, times, threshold);
    lemma_failures_count(b, times.drop_last(), threshold);
}

/// Across runs: attempts on one operation that fail one after another, in
/// one run or spread over several, leave the operation's breaker exactly as
/// the failures recorded at their times say. Once those reach the threshold,
/// the breaker blocks, and a new run (`recover_and_retry`) is refused, until
/// the recovery time has passed since the last of them.
pub proof fn law_failed_attempts_open_the_breaker(
    ms: Seq<ErrorRecoveryManager>,
    steps: Seq<(RetryRun, RetryRun, RetryAction)>,
    times: Seq<i64>,
    op: Seq<char>,
    later: i64,
)
    requires
        ms.len() == times.len() + 1,
        steps.len() == times.len(),
        forall|k: int|
            0 <= k < times.len() ==> (#[trigger] steps[k]).0.operation@ == op && failure_step(
                ms[k],
                ms[k + 1],
                steps[k].0,
                steps[k].1,
                steps[k].2,
                times[k],
            ),
    ensures
        ms.last().config_view() == ms[0].config_view(),
        ms.last().breaker(op) == failures_recorded(
            ms[0].breaker(op),
            times,
            ms[0].config_view().circuit_breaker_threshold,
        ),
        times.len() > 0 && or_fresh(ms[0].breaker(op)).failures + times.len()
            >= ms[0].config_view().circuit_breaker_threshold && or_fresh(ms[0].breaker(op)).failures + times.len()
            <= usize::MAX ==> blocks_at(ms.last().breaker(op), later, ms[0].config_view().circuit_breaker_recovery_time)
            == (elapsed_since(later, times.last()) < ms[0].config_view().circuit_breaker_recovery_time),
    decreases times.len(),
{
    let n = times.len() as int;
    if n > 0 {
        let ms0 = ms.drop_last();
        let steps0 = steps.drop_last();
        let times0 = times.drop_last();
        assert forall|k: int| 0 <= k < times0.len() implies (#[trigger] steps0[k]).0.operation@ == op
            && failure_step(ms0[k], ms0[k + 1], steps0[k].0, steps0[k].1, steps0[k].2, times0[k]) by {
            assert(steps[k] == steps0[k]);
        }
        law_failed_attempts_open_the_breaker(ms0, steps0, times0, op, later);
        assert(ms0.last() == ms[n - 1]);
        assert(steps[n - 1].0.operation@ == op);
        assert(failure_step(ms[n - 1], ms[n], steps[n - 1].0, steps[n - 1].1, steps[n - 1].2, times[n - 1]));
        let c = ms[0].config_view();
        if n > 0 && or_fresh(ms[0].breaker(op)).failures + n >= c.circuit_breaker_threshold
            && or_fresh(ms[0].breaker(op)).failures + n <= usize::MAX {
            law_breaker_blocks_after_failed_runs(
                ms[0].breaker(op),
                times,
                c.circuit_breaker_threshold,
                c.circuit_breaker_recovery_time,
                later,
            );
        }
    }
}

/// A success clears a circuit that has counted failures: it no longer blocks.
pub proof fn law_success_clears_breaker(b: Option<CircuitBreakerState>, now: i64, recovery: u64)
    requires
        or_fresh(b).failures > 0,
    ensures
        after_success(b) == Some(fresh_breaker()),
        !blocks_at(after_success(b), now, recovery),
{
}

/// A run only attempts while attempts are left, and every wait before a
/// further attempt advances the attempt count: a run makes at most
/// `max_retries + 1` attempts.
pub proof fn law_retry_attempts_bounded(
    m0: ErrorRecoveryManager,
    m1: ErrorRecoveryManager,
    r0: RetryRun,
    r1: RetryRun,
    outcome: AttemptOutcome,
    a: RetryAction,
    now: i64,
)
    requires
        r0.attempt < usize::MAX,
    ensures
        resumed(m0.config_view(), r0, r1, a) && a is Attempt ==> r0.attempt <= m0.config_view().max_retries,
        outcome_step(m0, m1, r0, r1, outcome, a, now) && a is Sleep ==> r1.attempt == r0.attempt + 1,
        outcome_step(m0, m1, r0, r1, outcome, a, now) && a is RequestPermissions ==> r1.attempt == r0.attempt,
{
}

/// A health status is described as healthy exactly when it is healthy, and
/// otherwise lists its issues.
pub proof fn law_health_description(h: HealthStatus)
    ensures
        (h.permissions_granted && h.active_circuit_breakers@.len() == 0) ==> health_description(h)
            == "System healthy - all permissions granted, no circuit breakers active"@,
        !(h.permissions_granted && h.active_circuit_breakers@.len() == 0) ==> health_description(h)
            == "System issues: "@ + join(
            (if !h.permissions_granted {
                seq!["Missing required permissions"@]
            } else {
                Seq::empty()
            }) + (if h.active_circuit_breakers@.len() != 0 {
                seq!["Circuit breakers active: "@ + join(string_views(h.active_circuit_breakers@), ", "@)]
            } else {
                Seq::empty()
            }),
            ", "@,
        ),
{
}

} // verus!
