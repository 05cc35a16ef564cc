//! The connection manager: the state machine that joins the network,
//! gives up on an attempt that takes too long, and retries a bounded number
//! of times with a growing delay.
//!
//! The manager decides; the caller acts. Each call takes what happened and
//! the current time, and returns what to do next.

use vstd::prelude::*;

verus! {

/// An IPv4 address, octet by octet.
#[derive(Clone, Copy, Debug, PartialEq, Eq, Structural)]
pub struct Ipv4Address(pub u8, pub u8, pub u8, pub u8);

impl Ipv4Address {
    /// Whether this is `0.0.0.0`, the address of an interface without a lease.
    pub open spec fn unspecified(self) -> bool {
        self.0 == 0 && self.1 == 0 && self.2 == 0 && self.3 == 0
    }

    /// Tests whether this is `0.0.0.0`.
    pub fn is_unspecified(&self) -> (r: bool)
        ensures
            r == self.unspecified(),
    {
        self.0 == 0 && self.1 == 0 && self.2 == 0 && self.3 == 0
    }
}

/// Why the connection failed.
#[derive(Clone, Copy, Debug, PartialEq, Eq, Structural)]
pub enum ConnectionError {
    /// No lease came within the time allowed to an attempt.
    Timeout,
    /// The network refused the join request.
    JoinRejected,
    /// Every allowed attempt has failed. This is final.
    RetryCapExceeded,
}

/// Where the connection stands.
#[derive(Clone, Copy, Debug, PartialEq, Eq, Structural)]
pub enum ConnectionState {
    Disconnected,
    Connecting { attempt: u32, started: u64 },
    Connected { ip: Ipv4Address },
    Failed { reason: ConnectionError },
}

/// What the network layer or the clock reports.
#[derive(Clone, Copy, Debug, PartialEq, Eq, Structural)]
pub enum ConnectionEvent {
    /// The caller asks for the first join.
    Start,
    /// Time has passed and nothing else happened.
    Tick,
    /// The interface is associated and holds this address.
    Joined(Ipv4Address),
    /// The network refused the join request.
    Rejected,
}

/// What the caller has to do after a step.
#[derive(Clone, Copy, Debug, PartialEq, Eq, Structural)]
pub enum ConnectionAction {
    /// Nothing: wait for the next event.
    Idle,
    /// Send a join request.
    Join,
    /// Cancel the join request that is under way.
    Abandon,
    /// The network is up: start serving.
    Serve,
    /// The connection has failed for good: report it and stop.
    Halt,
}

/// How long an attempt may take and how failed attempts are retried.
#[derive(Clone, Copy, Debug, PartialEq, Eq, Structural)]
pub struct RetryPolicy {
    /// Time units that a join attempt may take.
    pub timeout: u64,
    /// Join attempts allowed in all.
    pub max_attempts: u32,
    /// Delay before the second attempt.
    pub backoff_base: u64,
    /// Longest delay before any attempt.
    pub backoff_cap: u64,
}

/// Time units that a join attempt may take by default.
pub const DEFAULT_TIMEOUT: u64 = 20;

/// Join attempts allowed by default.
pub const DEFAULT_MAX_ATTEMPTS: u32 = 5;

/// Default delay before the second attempt.
pub const DEFAULT_BACKOFF_BASE: u64 = 1;

/// Default longest delay before any attempt.
pub const DEFAULT_BACKOFF_CAP: u64 = 60;

impl RetryPolicy {
    /// A policy allows one attempt at least.
    pub open spec fn valid(self) -> bool {
        self.max_attempts >= 1
    }

    /// The default policy.
    pub open spec fn standard() -> RetryPolicy {
        RetryPolicy {
            timeout: DEFAULT_TIMEOUT,
            max_attempts: DEFAULT_MAX_ATTEMPTS,
            backoff_base: DEFAULT_BACKOFF_BASE,
            backoff_cap: DEFAULT_BACKOFF_CAP,
        }
    }

    /// The delay between the failure of attempt number `attempts` and the
    /// next attempt: the base delay doubled once for each earlier failure,
    /// and never more than the cap.
    pub open spec fn delay_after(self, attempts: u32) -> int {
        let grown = doubled(
            self.backoff_base as int,
            if attempts >= 1 {
                (attempts - 1) as nat
            } else {
                0
            },
        );
        if grown < self.backoff_cap {
            grown
        } else {
            self.backoff_cap as int
        }
    }

    /// The default policy: 20 time units for an attempt, 5 attempts, and
    /// delays of 1, 2, 4, 8 time units between them.
    pub fn default_policy() -> (p: RetryPolicy)
        ensures
            p == RetryPolicy::standard(),
            p.valid(),
    {
        RetryPolicy {
            timeout: DEFAULT_TIMEOUT,
            max_attempts: DEFAULT_MAX_ATTEMPTS,
            backoff_base: DEFAULT_BACKOFF_BASE,
            backoff_cap: DEFAULT_BACKOFF_CAP,
        }
    }

    /// Computes the delay before the attempt that follows attempt number
    /// `attempts`.
    pub fn backoff(&self, attempts: u32) -> (d: u64)
        ensures
            d == self.delay_after(attempts),
            d <= self.backoff_cap,
    {
        let cap: u64 = self.backoff_cap;
        let base: u64 = self.backoff_base;
        let ghost times: nat = if attempts >= 1 {
            (attempts - 1) as nat
        } else {
            0
        };
        if base == 0 {
            proof {
                lemma_doubled_zero(times);
            }
            return 0;
        }
        if base >= cap {
            proof {
                lemma_doubled_grows(base as int, 0, times);
            }
            return cap;
        }
        let mut d: u64 = base;
        let mut k: u32 = 1;
        while k < attempts && d < cap
            invariant
                base > 0,
                1 <= k,
                k <= attempts || (attempts == 0 && k == 1),
                d <= cap,
                d == if doubled(base as int, (k - 1) as nat) < cap {
                    doubled(base as int, (k - 1) as nat)
                } else {
                    cap as int
                },
            decreases attempts - k,
        {
            assert(doubled(base as int, k as nat) == 2 * doubled(base as int, (k - 1) as nat));
            d = if d > cap - d {
                cap
            } else {
                d + d
            };
            k += 1;
        }
        proof {
            if d >= cap && (k - 1) as nat <= times {
                lemma_doubled_grows(base as int, (k - 1) as nat, times);
            }
        }
        d
    }
}

/// `base` doubled `times` times.
pub open spec fn doubled(base: int, times: nat) -> int
    decreases times,
{
    if times == 0 {
        base
    } else {
        2 * doubled(base, (times - 1) as nat)
    }
}

/// Doubling nothing leaves nothing.
pub proof fn lemma_doubled_zero(times: nat)
    ensures
        doubled(0, times) == 0,
    decreases times,
{
    if times > 0 {
        lemma_doubled_zero((times - 1) as nat);
    }
}

/// Doubling a delay more often never makes it shorter.
pub proof fn lemma_doubled_grows(base: int, fewer: nat, more: nat)
    requires
        0 <= base,
        fewer <= more,
    ensures
        0 <= doubled(base, fewer) <= doubled(base, more),
    decreases more,
{
    if fewer == 0 {
        if more > 0 {
            lemma_doubled_grows(base, 0, (more - 1) as nat);
        }
    } else {
        lemma_doubled_grows(base, (fewer - 1) as nat, (more - 1) as nat);
    }
}

/// Time that has passed from `since` to `now`; none where the clock reads
/// earlier than `since`.
pub open spec fn elapsed(since: u64, now: u64) -> int {
    if now >= since {
        now - since
    } else {
        0
    }
}

/// The connection's state together with what retrying needs to know.
#[derive(Clone, Copy, Debug, PartialEq, Eq, Structural)]
pub struct Connection {
    pub state: ConnectionState,
    /// Join attempts made so far.
    pub attempts: u32,
    /// When the last attempt failed.
    pub failed_at: u64,
}

impl Connection {
    /// A connection that was never started.
    pub open spec fn initial() -> Connection {
        Connection { state: ConnectionState::Disconnected, attempts: 0, failed_at: 0 }
    }

    /// The attempts made are counted rightly and are within the policy's cap.
    pub open spec fn consistent(self, policy: RetryPolicy) -> bool {
        &&& policy.valid()
        &&& self.attempts <= policy.max_attempts
        &&& match self.state {
            ConnectionState::Disconnected => self.attempts == 0,
            ConnectionState::Connecting { attempt, .. } => attempt == self.attempts && attempt >= 1,
            ConnectionState::Connected { .. } => self.attempts >= 1,
            ConnectionState::Failed { .. } => self.attempts >= 1,
        }
    }

    /// Whether the network is up.
    pub open spec fn connected(self) -> bool {
        self.state is Connected
    }

    /// Whether the connection has failed for good.
    pub open spec fn halted(self) -> bool {
        self.state == (ConnectionState::Failed { reason: ConnectionError::RetryCapExceeded })
    }
}

/// Whether `event` reports a lease: the interface is associated and its
/// address is not `0.0.0.0`.
pub open spec fn brings_lease(event: ConnectionEvent) -> bool {
    event matches ConnectionEvent::Joined(ip) && !ip.unspecified()
}

/// One step of the connection state machine: the connection and the action
/// that follow when `event` arrives at time `now`.
pub open spec fn stepped(
    policy: RetryPolicy,
    c: Connection,
    event: ConnectionEvent,
    now: u64,
) -> (Connection, ConnectionAction) {
    match c.state {
        ConnectionState::Disconnected => if event == ConnectionEvent::Start {
            (
                Connection {
                    state: ConnectionState::Connecting { attempt: 1, started: now },
                    attempts: 1,
                    failed_at: c.failed_at,
                },
                ConnectionAction::Join,
            )
        } else {
            (c, ConnectionAction::Idle)
        },
        ConnectionState::Connecting { attempt, started } => match event {
            ConnectionEvent::Joined(ip) if !ip.unspecified() => (
                Connection { state: ConnectionState::Connected { ip }, ..c },
                ConnectionAction::Serve,
            ),
            ConnectionEvent::Rejected => (
                Connection {
                    state: ConnectionState::Failed { reason: ConnectionError::JoinRejected },
                    failed_at: now,
                    ..c
                },
                ConnectionAction::Idle,
            ),
            _ => if elapsed(started, now) > policy.timeout {
                (
                    Connection {
                        state: ConnectionState::Failed { reason: ConnectionError::Timeout },
                        failed_at: now,
                        ..c
                    },
                    ConnectionAction::Abandon,
                )
            } else {
                (c, ConnectionAction::Idle)
            },
        },
        ConnectionState::Connected { .. } => (c, ConnectionAction::Idle),
        ConnectionState::Failed { reason } => if reason == ConnectionError::RetryCapExceeded {
            (c, ConnectionAction::Halt)
        } else if c.attempts >= policy.max_attempts {
            (
                Connection {
                    state: ConnectionState::Failed { reason: ConnectionError::RetryCapExceeded },
                    ..c
                },
                ConnectionAction::Halt,
            )
        } else if elapsed(c.failed_at, now) >= policy.delay_after(c.attempts) {
            (
                Connection {
                    state: ConnectionState::Connecting {
                        attempt: (c.attempts + 1) as u32,
                        started: now,
                    },
                    attempts: (c.attempts + 1) as u32,
                    failed_at: c.failed_at,
                },
                ConnectionAction::Join,
            )
        } else {
            (c, ConnectionAction::Idle)
        },
    }
}

/// Computes the time that has passed from `since` to `now`.
pub fn time_since(since: u64, now: u64) -> (r: u64)
    ensures
        r == elapsed(since, now),
{
    if now >= since {
        now - since
    } else {
        0
    }
}

/// Takes one step of the state machine.
///
/// A connection that is consistent with the policy stays so.
pub fn step(policy: &RetryPolicy, c: Connection, event: ConnectionEvent, now: u64) -> (r: (
    Connection,
    ConnectionAction,
))
    ensures
        r == stepped(*policy, c, event, now),
        c.consistent(*policy) ==> r.0.consistent(*policy),
{
    match c.state {
        ConnectionState::Disconnected => match event {
            ConnectionEvent::Start => (
                Connection {
                    state: ConnectionState::Connecting { attempt: 1, started: now },
                    attempts: 1,
                    failed_at: c.failed_at,
                },
                ConnectionAction::Join,
            ),
            _ => (c, ConnectionAction::Idle),
        },
        ConnectionState::Connecting { attempt, started } => {
            let lease: Option<Ipv4Address> = match event {
                ConnectionEvent::Joined(ip) => if ip.is_unspecified() {
                    None
                } else {
                    Some(ip)
                },
                _ => None,
            };
            match lease {
                Some(ip) => (
                    Connection {
                        state: ConnectionState::Connected { ip },
                        attempts: c.attempts,
                        failed_at: c.failed_at,
                    },
                    ConnectionAction::Serve,
                ),
                None => match event {
                    ConnectionEvent::Rejected => (
                        Connection {
                            state: ConnectionState::Failed {
                                reason: ConnectionError::JoinRejected,
                            },
                            attempts: c.attempts,
                            failed_at: now,
                        },
                        ConnectionAction::Idle,
                    ),
                    _ => if time_since(started, now) > policy.timeout {
                        (
                            Connection {
                                state: ConnectionState::Failed { reason: ConnectionError::Timeout },
                                attempts: c.attempts,
                                failed_at: now,
                            },
                            ConnectionAction::Abandon,
                        )
                    } else {
                        (c, ConnectionAction::Idle)
                    },
                },
            }
        },
        ConnectionState::Connected { .. } => (c, ConnectionAction::Idle),
        ConnectionState::Failed { reason } => match reason {
            ConnectionError::RetryCapExceeded => (c, ConnectionAction::Halt),
            _ => if c.attempts >= policy.max_attempts {
                (
                    Connection {
                        state: ConnectionState::Failed {
                            reason: ConnectionError::RetryCapExceeded,
                        },
                        attempts: c.attempts,
                        failed_at: c.failed_at,
                    },
                    ConnectionAction::Halt,
                )
            } else if time_since(c.failed_at, now) >= policy.backoff(c.attempts) {
                let attempt: u32 = c.attempts + 1;
                (
                    Connection {
                        state: ConnectionState::Connecting { attempt, started: now },
                        attempts: attempt,
                        failed_at: c.failed_at,
                    },
                    ConnectionAction::Join,
                )
            } else {
                (c, ConnectionAction::Idle)
            },
        },
    }
}

/// The owner of the connection state.
pub struct ConnectionManager {
    policy: RetryPolicy,
    connection: Connection,
}

impl View for ConnectionManager {
    type V = Connection;

    closed spec fn view(&self) -> Connection {
        self.connection
    }
}

impl ConnectionManager {
    #[verifier::type_invariant]
    spec fn counted_rightly(&self) -> bool {
        self.connection.consistent(self.policy)
    }

    /// The policy that the manager was made with.
    pub closed spec fn spec_policy(&self) -> RetryPolicy {
        self.policy
    }

    /// A manager that was never started. A policy that allows no attempt is
    /// refused.
    pub fn new(policy: RetryPolicy) -> (r: Option<ConnectionManager>)
        ensures
            r is Some == policy.valid(),
            r matches Some(m) ==> m@ == Connection::initial() && m.spec_policy() == policy,
    {
        if policy.max_attempts >= 1 {
            Some(
                ConnectionManager {
                    policy,
                    connection: Connection {
                        state: ConnectionState::Disconnected,
                        attempts: 0,
                        failed_at: 0,
                    },
                },
            )
        } else {
            None
        }
    }

    /// The policy that the manager was made with.
    pub fn policy(&self) -> (p: RetryPolicy)
        ensures
            p == self.spec_policy(),
            p.valid(),
    {
        proof {
            use_type_invariant(self);
        }
        self.policy
    }

    /// The current state.
    pub fn state(&self) -> (s: ConnectionState)
        ensures
            s == self@.state,
    {
        self.connection.state
    }

    /// The connection together with its retry bookkeeping. It is always
    /// consistent with the policy.
    pub fn connection(&self) -> (c: Connection)
        ensures
            c == self@,
            c.consistent(self.spec_policy()),
    {
        proof {
            use_type_invariant(self);
        }
        self.connection
    }

    /// Whether the network is up, so that serving may start.
    pub fn is_connected(&self) -> (r: bool)
        ensures
            r == self@.connected(),
    {
        match self.connection.state {
            ConnectionState::Connected { .. } => true,
            _ => false,
        }
    }

    /// Whether the connection has failed for good.
    pub fn is_halted(&self) -> (r: bool)
        ensures
            r == self@.halted(),
    {
        match self.connection.state {
            ConnectionState::Failed { reason: ConnectionError::RetryCapExceeded } => true,
            _ => false,
        }
    }

    /// Feeds one event to the state machine and returns what to do next.
    pub fn on_event(&mut self, event: ConnectionEvent, now: u64) -> (action: ConnectionAction)
        ensures
            (final(self)@, action) == stepped(old(self).spec_policy(), old(self)@, event, now),
            final(self).spec_policy() == old(self).spec_policy(),
    {
        proof {
            use_type_invariant(&*self);
        }
        let (next, action) = step(&self.policy, self.connection, event, now);
        self.connection = next;
        action
    }

    /// Asks for the first join. Starting twice changes nothing.
    pub fn start(&mut self, now: u64) -> (action: ConnectionAction)
        ensures
            (final(self)@, action) == stepped(
                old(self).spec_policy(),
                old(self)@,
                ConnectionEvent::Start,
                now,
            ),
            final(self).spec_policy() == old(self).spec_policy(),
    {
        self.on_event(ConnectionEvent::Start, now)
    }
}

} // verus!
