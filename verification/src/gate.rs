//! Request gate: enforces the provider's minimum inter-request interval
//! and a hard, cumulative error-count ceiling (the circuit breaker).
//! The ceiling is deliberately not a rolling window: successes never
//! reset it.

use vstd::prelude::*;
use crate::errors::SyncError;

verus! {

/// The hard ceiling on errors recorded in one run.
pub const MAX_ERRORS: u32 = 50;

/// Minimum spacing between outbound requests, in milliseconds.
pub const API_RATE_LIMIT_MS: u64 = 350;

/// Minimum time between API requests, in milliseconds.
pub fn min_request_interval() -> (r: u64)
    ensures
        r == API_RATE_LIMIT_MS,
{
    API_RATE_LIMIT_MS
}

/// How long a caller must still wait before the next request: the part
/// of the minimum interval that has not yet elapsed.
pub open spec fn spec_wait(min_interval: int, last: int, now: int) -> int {
    if now - last >= min_interval {
        0
    } else {
        min_interval - (now - last)
    }
}

/// One step of the circuit breaker: whether a newly recorded error is
/// accepted, and the error count afterwards.
pub open spec fn spec_record_error(count: nat, ceiling: nat) -> (nat, bool) {
    if count > ceiling {
        (count, false)
    } else {
        (count + 1, true)
    }
}

/// The error count after `n` recorded errors, starting from `count`.
pub open spec fn spec_count_after(count: nat, ceiling: nat, n: nat) -> nat
    decreases n,
{
    if n == 0 {
        count
    } else {
        spec_record_error(spec_count_after(count, ceiling, (n - 1) as nat), ceiling).0
    }
}

/// Process-local rate state: when the last request went out and how many
/// errors this run has recorded.
pub struct RequestGate {
    pub min_interval_ms: u64,
    pub max_errors: u32,
    pub last_request_at: u64,
    pub error_count: u32,
}

impl RequestGate {
    /// A fresh gate with no requests sent and no errors recorded.
    pub fn new(min_interval_ms: u64, max_errors: u32) -> (r: Self)
        ensures
            r.min_interval_ms == min_interval_ms,
            r.max_errors == max_errors,
            r.last_request_at == 0,
            r.error_count == 0,
    {
        Self { min_interval_ms, max_errors, last_request_at: 0, error_count: 0 }
    }

    /// A gate with the provider's published limits.
    pub fn with_defaults() -> (r: Self)
        ensures
            r.min_interval_ms == API_RATE_LIMIT_MS,
            r.max_errors == MAX_ERRORS,
            r.last_request_at == 0,
            r.error_count == 0,
    {
        Self::new(API_RATE_LIMIT_MS, MAX_ERRORS)
    }

    /// How long the caller must sleep before issuing the next outbound
    /// call, given the clock reading `now_ms`.
    pub fn allow(&self, now_ms: u64) -> (wait: u64)
        requires
            now_ms >= self.last_request_at,
        ensures
            wait == spec_wait(
                self.min_interval_ms as int,
                self.last_request_at as int,
                now_ms as int,
            ),
    {
        let elapsed = now_ms - self.last_request_at;
        if elapsed >= self.min_interval_ms {
            0
        } else {
            self.min_interval_ms - elapsed
        }
    }

    /// Note that a request went out at `now_ms`; callers do this after
    /// the call completes.
    pub fn note_request(&mut self, now_ms: u64)
        ensures
            final(self).last_request_at == now_ms,
            final(self).error_count == old(self).error_count,
            final(self).min_interval_ms == old(self).min_interval_ms,
            final(self).max_errors == old(self).max_errors,
    {
        self.last_request_at = now_ms;
    }

    /// A success changes nothing: the ceiling is cumulative for the
    /// whole run, deliberately not a rolling window.
    pub fn record_success(&mut self)
        ensures
            *final(self) == *old(self),
    {
    }

    /// Record one error against the ceiling. The first `ceiling + 1`
    /// errors of a run are accepted; every error after that reports the
    /// circuit open and leaves the count where it is.
    pub fn record_error(&mut self) -> (r: Result<(), SyncError>)
        requires
            old(self).max_errors < u32::MAX,
        ensures
            (final(self).error_count as nat, r is Ok) == spec_record_error(
                old(self).error_count as nat,
                old(self).max_errors as nat,
            ),
            r is Err ==> r->Err_0 is CircuitOpen && r->Err_0->CircuitOpen_0 == old(
                self,
            ).error_count,
            final(self).last_request_at == old(self).last_request_at,
            final(self).min_interval_ms == old(self).min_interval_ms,
            final(self).max_errors == old(self).max_errors,
    {
        if self.error_count > self.max_errors {
            Err(SyncError::CircuitOpen(self.error_count))
        } else {
            self.error_count = self.error_count + 1;
            Ok(())
        }
    }

    /// Has the circuit opened — will the next recorded error be refused?
    pub fn circuit_open(&self) -> (r: bool)
        ensures
            r == (self.error_count > self.max_errors),
    {
        self.error_count > self.max_errors
    }
}

/// Circuit breaker law: starting from a fresh gate, each of the first
/// `ceiling + 1` recorded errors is accepted (the count simply counts
/// them), and the very next error after those reports the circuit open.
pub proof fn lemma_circuit_breaker(ceiling: nat, n: nat)
    ensures
        n <= ceiling + 1 ==> spec_count_after(0, ceiling, n) == n,
        n <= ceiling + 1 ==> spec_record_error(spec_count_after(0, ceiling, n), ceiling).1 == (n
            <= ceiling),
        spec_record_error(spec_count_after(0, ceiling, ceiling + 1), ceiling).1 == false,
    decreases n,
{
    if n > 0 {
        lemma_circuit_breaker(ceiling, (n - 1) as nat);
    }
    if n != ceiling + 1 {
        lemma_circuit_breaker_trips(ceiling);
    }
}

/// The count reached after `ceiling + 1` accepted errors refuses the next.
proof fn lemma_circuit_breaker_trips(ceiling: nat)
    ensures
        spec_count_after(0, ceiling, ceiling + 1) == ceiling + 1,
        spec_record_error(ceiling + 1, ceiling).1 == false,
    decreases ceiling,
{
    lemma_count_after_linear(0, ceiling, ceiling + 1);
}

/// While the ceiling is not exceeded, each recorded error adds one.
proof fn lemma_count_after_linear(count: nat, ceiling: nat, n: nat)
    requires
        count + n <= ceiling + 1,
    ensures
        spec_count_after(count, ceiling, n) == count + n,
    decreases n,
{
    if n > 0 {
        lemma_count_after_linear(count, ceiling, (n - 1) as nat);
    }
}

} // verus!
