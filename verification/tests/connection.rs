use actuator_bridge::connection::{
    step, time_since, Connection, ConnectionAction, ConnectionError, ConnectionEvent,
    ConnectionManager, ConnectionState, Ipv4Address, RetryPolicy,
};

fn policy() -> RetryPolicy {
    RetryPolicy { timeout: 20, max_attempts: 3, backoff_base: 2, backoff_cap: 5 }
}

fn lease() -> ConnectionEvent {
    ConnectionEvent::Joined(Ipv4Address(192, 168, 4, 2))
}

#[test]
fn default_policy_allows_twenty_time_units() {
    let p = RetryPolicy::default_policy();
    assert_eq!(p.timeout, 20);
    assert_eq!(p.max_attempts, 5);
    assert_eq!(p.backoff_base, 1);
    assert_eq!(p.backoff_cap, 60);
}

#[test]
fn manager_starts_disconnected() {
    let m = ConnectionManager::new(policy()).unwrap();
    assert_eq!(m.state(), ConnectionState::Disconnected);
    assert_eq!(m.policy(), policy());
    assert!(!m.is_connected());
    assert!(!m.is_halted());
    assert_eq!(
        m.connection(),
        Connection { state: ConnectionState::Disconnected, attempts: 0, failed_at: 0 }
    );
}

#[test]
fn policy_without_attempts_is_refused() {
    let p = RetryPolicy { max_attempts: 0, ..policy() };
    assert!(ConnectionManager::new(p).is_none());
}

#[test]
fn start_begins_first_attempt() {
    let mut m = ConnectionManager::new(policy()).unwrap();
    assert_eq!(m.start(100), ConnectionAction::Join);
    assert_eq!(m.state(), ConnectionState::Connecting { attempt: 1, started: 100 });
    // Starting again changes nothing.
    assert_eq!(m.start(105), ConnectionAction::Idle);
    assert_eq!(m.state(), ConnectionState::Connecting { attempt: 1, started: 100 });
}

#[test]
fn events_before_start_are_ignored() {
    let mut m = ConnectionManager::new(policy()).unwrap();
    assert_eq!(m.on_event(ConnectionEvent::Tick, 1000), ConnectionAction::Idle);
    assert_eq!(m.on_event(lease(), 1000), ConnectionAction::Idle);
    assert_eq!(m.on_event(ConnectionEvent::Rejected, 1000), ConnectionAction::Idle);
    assert_eq!(m.state(), ConnectionState::Disconnected);
}

#[test]
fn lease_connects() {
    let mut m = ConnectionManager::new(policy()).unwrap();
    m.start(0);
    assert_eq!(m.on_event(lease(), 3), ConnectionAction::Serve);
    assert_eq!(m.state(), ConnectionState::Connected { ip: Ipv4Address(192, 168, 4, 2) });
    assert!(m.is_connected());
    // Connected is terminal.
    assert_eq!(m.on_event(ConnectionEvent::Tick, 10_000), ConnectionAction::Idle);
    assert_eq!(m.on_event(ConnectionEvent::Rejected, 10_000), ConnectionAction::Idle);
    assert_eq!(m.on_event(ConnectionEvent::Start, 10_000), ConnectionAction::Idle);
    assert!(m.is_connected());
}

#[test]
fn unspecified_address_is_no_lease() {
    let mut m = ConnectionManager::new(policy()).unwrap();
    m.start(0);
    let none = ConnectionEvent::Joined(Ipv4Address(0, 0, 0, 0));
    assert!(Ipv4Address(0, 0, 0, 0).is_unspecified());
    assert!(!Ipv4Address(0, 0, 0, 1).is_unspecified());
    assert_eq!(m.on_event(none, 5), ConnectionAction::Idle);
    assert_eq!(m.state(), ConnectionState::Connecting { attempt: 1, started: 0 });
    assert_eq!(m.on_event(none, 21), ConnectionAction::Abandon);
    assert_eq!(m.state(), ConnectionState::Failed { reason: ConnectionError::Timeout });
}

#[test]
fn join_that_never_completes_times_out() {
    let mut m = ConnectionManager::new(policy()).unwrap();
    m.start(7);
    for now in 7..=27 {
        assert_eq!(m.on_event(ConnectionEvent::Tick, now), ConnectionAction::Idle);
        assert_eq!(m.state(), ConnectionState::Connecting { attempt: 1, started: 7 });
    }
    assert_eq!(m.on_event(ConnectionEvent::Tick, 28), ConnectionAction::Abandon);
    assert_eq!(m.state(), ConnectionState::Failed { reason: ConnectionError::Timeout });
}

#[test]
fn rejection_fails_the_attempt() {
    let mut m = ConnectionManager::new(policy()).unwrap();
    m.start(0);
    assert_eq!(m.on_event(ConnectionEvent::Rejected, 4), ConnectionAction::Idle);
    assert_eq!(m.state(), ConnectionState::Failed { reason: ConnectionError::JoinRejected });
    assert_eq!(
        m.connection(),
        Connection {
            state: ConnectionState::Failed { reason: ConnectionError::JoinRejected },
            attempts: 1,
            failed_at: 4
        }
    );
}

#[test]
fn backoff_doubles_up_to_the_cap() {
    let p = RetryPolicy { timeout: 20, max_attempts: 10, backoff_base: 3, backoff_cap: 20 };
    assert_eq!(p.backoff(1), 3);
    assert_eq!(p.backoff(2), 6);
    assert_eq!(p.backoff(3), 12);
    assert_eq!(p.backoff(4), 20);
    assert_eq!(p.backoff(5), 20);
    assert_eq!(p.backoff(u32::MAX), 20);
    assert_eq!(p.backoff(0), 3);
    let d = RetryPolicy::default_policy();
    assert_eq!(d.backoff(1), 1);
    assert_eq!(d.backoff(2), 2);
    assert_eq!(d.backoff(3), 4);
    assert_eq!(d.backoff(4), 8);
    assert_eq!(d.backoff(7), 60);
    let wide = RetryPolicy { backoff_base: u64::MAX / 2 + 1, backoff_cap: u64::MAX, ..p };
    assert_eq!(wide.backoff(1), u64::MAX / 2 + 1);
    assert_eq!(wide.backoff(2), u64::MAX);
    let none = RetryPolicy { backoff_base: 0, ..p };
    assert_eq!(none.backoff(9), 0);
    let flat = RetryPolicy { backoff_base: 30, backoff_cap: 20, ..p };
    assert_eq!(flat.backoff(1), 20);
}

#[test]
fn retry_waits_for_the_backoff() {
    let mut m = ConnectionManager::new(policy()).unwrap();
    m.start(0);
    m.on_event(ConnectionEvent::Rejected, 10);
    assert_eq!(m.on_event(ConnectionEvent::Tick, 11), ConnectionAction::Idle);
    assert_eq!(m.state(), ConnectionState::Failed { reason: ConnectionError::JoinRejected });
    assert_eq!(m.on_event(ConnectionEvent::Tick, 12), ConnectionAction::Join);
    assert_eq!(m.state(), ConnectionState::Connecting { attempt: 2, started: 12 });
    m.on_event(ConnectionEvent::Rejected, 13);
    // The second delay is twice the first.
    assert_eq!(m.on_event(ConnectionEvent::Tick, 16), ConnectionAction::Idle);
    assert_eq!(m.on_event(ConnectionEvent::Tick, 17), ConnectionAction::Join);
    assert_eq!(m.state(), ConnectionState::Connecting { attempt: 3, started: 17 });
}

#[test]
fn attempts_are_capped() {
    let mut m = ConnectionManager::new(policy()).unwrap();
    m.start(0);
    m.on_event(ConnectionEvent::Rejected, 0);
    assert_eq!(m.on_event(ConnectionEvent::Tick, 100), ConnectionAction::Join);
    m.on_event(ConnectionEvent::Rejected, 100);
    assert_eq!(m.on_event(ConnectionEvent::Tick, 200), ConnectionAction::Join);
    assert_eq!(m.on_event(ConnectionEvent::Tick, 221), ConnectionAction::Abandon);
    assert_eq!(m.state(), ConnectionState::Failed { reason: ConnectionError::Timeout });
    assert!(!m.is_halted());
    assert_eq!(m.on_event(ConnectionEvent::Tick, 300), ConnectionAction::Halt);
    assert_eq!(m.state(), ConnectionState::Failed { reason: ConnectionError::RetryCapExceeded });
    assert!(m.is_halted());
    // Failed for good: nothing brings it back.
    for event in [ConnectionEvent::Tick, ConnectionEvent::Start, lease(), ConnectionEvent::Rejected]
    {
        assert_eq!(m.on_event(event, 10_000), ConnectionAction::Halt);
        assert!(m.is_halted());
    }
    assert_eq!(m.connection().attempts, 3);
}

#[test]
fn late_lease_after_failure_is_ignored() {
    let mut m = ConnectionManager::new(policy()).unwrap();
    m.start(0);
    m.on_event(ConnectionEvent::Tick, 21);
    assert_eq!(m.on_event(lease(), 21), ConnectionAction::Idle);
    assert_eq!(m.state(), ConnectionState::Failed { reason: ConnectionError::Timeout });
}

#[test]
fn clock_that_runs_backwards_counts_as_no_time() {
    assert_eq!(time_since(10, 25), 15);
    assert_eq!(time_since(10, 10), 0);
    assert_eq!(time_since(10, 3), 0);
    let c = Connection {
        state: ConnectionState::Connecting { attempt: 1, started: 50 },
        attempts: 1,
        failed_at: 0,
    };
    let (next, action) = step(&policy(), c, ConnectionEvent::Tick, 0);
    assert_eq!(next, c);
    assert_eq!(action, ConnectionAction::Idle);
}

#[test]
fn step_is_a_function_of_its_arguments() {
    let c = Connection {
        state: ConnectionState::Connecting { attempt: 2, started: 5 },
        attempts: 2,
        failed_at: 1,
    };
    let (next, action) = step(&policy(), c, ConnectionEvent::Tick, 26);
    assert_eq!(
        next,
        Connection {
            state: ConnectionState::Failed { reason: ConnectionError::Timeout },
            attempts: 2,
            failed_at: 26
        }
    );
    assert_eq!(action, ConnectionAction::Abandon);
    assert_eq!(step(&policy(), c, ConnectionEvent::Tick, 26), (next, action));
}
