use postgres_oidc_proxy::session::{AcquireStep, SessionGate};

#[test]
fn test_gate_capacity_two_three_acquires() {
    // With a capacity of two, the first two acquisitions are admitted
    // immediately and the third must wait until one of them releases.
    let mut gate = SessionGate::new(2);
    assert_eq!(gate.max_sessions(), 2);
    let first = gate.try_acquire();
    assert!(matches!(first, AcquireStep::OpenNew(0)));
    let second = gate.try_acquire();
    assert!(matches!(second, AcquireStep::OpenNew(1)));
    let third = gate.try_acquire();
    assert!(matches!(third, AcquireStep::Wait));
    assert_eq!(gate.leased_count(), 2);

    gate.release(0, true);
    let retry = gate.try_acquire();
    assert!(matches!(retry, AcquireStep::Reuse(0)));
    assert_eq!(gate.leased_count(), 2);
}

#[test]
fn test_waiting_consumes_no_permit() {
    let mut gate = SessionGate::new(1);
    let first = gate.try_acquire();
    assert!(matches!(first, AcquireStep::OpenNew(0)));
    for _ in 0..3 {
        assert!(matches!(gate.try_acquire(), AcquireStep::Wait));
    }
    assert_eq!(gate.leased_count(), 1);
    gate.release(0, true);
    assert_eq!(gate.leased_count(), 0);
    assert_eq!(gate.idle_count(), 1);
}

#[test]
fn test_release_unhealthy_not_reused() {
    let mut gate = SessionGate::new(2);
    let first = gate.try_acquire();
    assert!(matches!(first, AcquireStep::OpenNew(0)));
    // A broken connection is discarded on release: the next acquisition
    // opens a fresh one instead of reusing it.
    gate.release(0, false);
    assert_eq!(gate.idle_count(), 0);
    let next = gate.try_acquire();
    assert!(matches!(next, AcquireStep::OpenNew(1)));
}

#[test]
fn test_evict_idle_connection() {
    let mut gate = SessionGate::new(2);
    assert!(matches!(gate.try_acquire(), AcquireStep::OpenNew(0)));
    gate.release(0, true);
    assert_eq!(gate.idle_count(), 1);
    // The background driver of the idle connection failed: it is evicted
    // and the next acquisition opens a fresh connection.
    gate.evict_idle(0);
    assert_eq!(gate.idle_count(), 0);
    let next = gate.try_acquire();
    assert!(matches!(next, AcquireStep::OpenNew(1)));
}

#[test]
fn test_open_failed_returns_capacity() {
    let mut gate = SessionGate::new(1);
    assert!(matches!(gate.try_acquire(), AcquireStep::OpenNew(0)));
    // After a failed physical open the permit comes back, leaving capacity
    // intact.
    gate.open_failed();
    assert_eq!(gate.leased_count(), 0);
    let retry = gate.try_acquire();
    assert!(matches!(retry, AcquireStep::OpenNew(1)));
}
