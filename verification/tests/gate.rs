use alpha_sync::errors::SyncError;
use alpha_sync::gate::{min_request_interval, RequestGate, API_RATE_LIMIT_MS, MAX_ERRORS};

#[test]
fn rate_gate_waits_out_the_remaining_interval() {
    let mut gate = RequestGate::new(350, MAX_ERRORS);
    gate.note_request(1000);
    let wait = gate.allow(1100);
    assert!(wait >= 250);
    assert_eq!(wait, 250);
}

#[test]
fn rate_gate_lets_spaced_requests_through() {
    let mut gate = RequestGate::with_defaults();
    gate.note_request(1000);
    assert_eq!(gate.allow(1000 + API_RATE_LIMIT_MS), 0);
    assert_eq!(gate.allow(5000), 0);
}

#[test]
fn circuit_breaker_trips_after_the_ceiling() {
    let ceiling = 3;
    let mut gate = RequestGate::new(350, ceiling);
    for _ in 0..ceiling + 1 {
        assert!(gate.record_error().is_ok());
    }
    match gate.record_error() {
        Err(SyncError::CircuitOpen(count)) => assert_eq!(count, ceiling + 1),
        other => panic!("expected the circuit to open, got {:?}", other.is_ok()),
    }
    assert!(gate.circuit_open());
}

#[test]
fn circuit_breaker_accepts_the_default_budget() {
    let mut gate = RequestGate::with_defaults();
    for i in 0..MAX_ERRORS + 1 {
        assert!(gate.record_error().is_ok(), "error {} within budget", i);
    }
    assert!(gate.record_error().is_err());
    assert!(gate.record_error().is_err());
}

#[test]
fn success_never_resets_the_ceiling() {
    let mut gate = RequestGate::new(350, 1);
    assert!(gate.record_error().is_ok());
    gate.record_success();
    assert!(gate.record_error().is_ok());
    gate.record_success();
    assert!(gate.record_error().is_err());
}

#[test]
fn default_interval_matches_the_published_rate_limit() {
    assert_eq!(min_request_interval(), 350);
    assert_eq!(API_RATE_LIMIT_MS, 350);
    assert_eq!(MAX_ERRORS, 50);
}
