//! The persistent-connection state machine.
//!
//! The driver performs the transport work and reports what happened as a
//! `ConnectionEvent`; `Connection::step` decides the next state and the
//! `ConnectionAction` to perform.
use vstd::prelude::*;

verus! {

/// Where the connection stands.
#[derive(Debug, Clone, Copy, PartialEq, Eq, Structural)]
pub enum ConnectionState {
    Connecting,
    Authenticating,
    Open,
    Degraded,
    Reconnecting,
    Closed,
}

/// What the driver observed.
#[derive(Debug, Clone, Copy, PartialEq, Eq, Structural)]
pub enum ConnectionEvent {
    /// The transport handshake succeeded.
    Connected,
    /// The handshake failed or did not finish in time.
    ConnectFailed,
    /// The venue acknowledged the session credential.
    AuthAccepted,
    /// The venue refused the credential, or did not answer in time.
    AuthRejected,
    /// The open transport failed, or a heartbeat was missed.
    TransportLost,
    /// The reconnect delay is over.
    DelayElapsed,
    /// The owner shuts the session down.
    Shutdown,
    /// A frame arrived on the open transport.
    FrameReceived,
    /// One iteration of the dispatch loop passed without a frame.
    Idle,
}

/// What the driver has to do next.
#[derive(Debug, Clone, Copy, PartialEq, Eq, Structural)]
pub enum ConnectionAction {
    Nothing,
    /// Open the transport to the candidate endpoint with this index.
    Connect(usize),
    /// Send the session credential.
    Authenticate,
    /// Re-issue the commands of every live subscription.
    Resubscribe,
    /// Resolve in-flight requests by the reconnect policy, then wait this
    /// many milliseconds before connecting again.
    ConnectionLost(u64),
    /// Wait this many milliseconds before connecting again.
    Backoff(u64),
    /// The attempt budget is spent: the session fails.
    GiveUp,
    /// Close the transport; fail pending requests and end every feed.
    Close,
}

/// The state machine with its attempt budget.
#[derive(Debug, Clone, Copy, PartialEq, Eq, Structural)]
pub struct Connection {
    pub state: ConnectionState,
    /// Consecutive failed attempts since the last successful authentication.
    pub failures: u32,
    /// Index of the candidate endpoint to try next.
    pub endpoint: usize,
    /// Number of candidate endpoints (at least one).
    pub endpoints: usize,
    /// Consecutive failed attempts after which the session fails for good,
    /// and consecutive idle iterations after which an open connection is
    /// taken for lost.
    pub max_failures: u32,
    /// Consecutive idle iterations of the open connection.
    pub idle: u32,
    /// Delay before reconnecting, in milliseconds.
    pub reconnect_ms: u64,
}

/// The endpoint after `i` among `n`, in round-robin order.
pub open spec fn next_endpoint(i: usize, n: usize) -> usize {
    if i + 1 >= n { 0 } else { (i + 1) as usize }
}

/// The connection after a failed attempt: it backs off and moves on to the
/// next endpoint, or gives up when the budget is spent.
pub open spec fn after_failure(c: Connection) -> (Connection, ConnectionAction) {
    if c.failures + 1 >= c.max_failures {
        (Connection { state: ConnectionState::Closed, failures: (c.failures + 1) as u32, ..c }, ConnectionAction::GiveUp)
    } else {
        (
            Connection {
                state: ConnectionState::Reconnecting,
                failures: (c.failures + 1) as u32,
                endpoint: next_endpoint(c.endpoint, c.endpoints),
                ..c
            },
            ConnectionAction::Backoff(c.reconnect_ms),
        )
    }
}

/// The transition function of the connection.
pub open spec fn transition(c: Connection, e: ConnectionEvent) -> (Connection, ConnectionAction) {
    if c.state == ConnectionState::Closed {
        (c, ConnectionAction::Nothing)
    } else if e == ConnectionEvent::Shutdown {
        (Connection { state: ConnectionState::Closed, ..c }, ConnectionAction::Close)
    } else {
        match (c.state, e) {
            (ConnectionState::Connecting, ConnectionEvent::Connected) =>
                (Connection { state: ConnectionState::Authenticating, ..c }, ConnectionAction::Authenticate),
            (ConnectionState::Connecting, ConnectionEvent::ConnectFailed) => after_failure(c),
            (ConnectionState::Authenticating, ConnectionEvent::AuthAccepted) =>
                (Connection { state: ConnectionState::Open, failures: 0, idle: 0, ..c }, ConnectionAction::Resubscribe),
            (ConnectionState::Open, ConnectionEvent::FrameReceived) =>
                (Connection { idle: 0, ..c }, ConnectionAction::Nothing),
            (ConnectionState::Open, ConnectionEvent::Idle) => if c.idle + 1 >= c.max_failures {
                (Connection { state: ConnectionState::Degraded, idle: 0, ..c }, ConnectionAction::ConnectionLost(c.reconnect_ms))
            } else {
                (Connection { idle: (c.idle + 1) as u32, ..c }, ConnectionAction::Nothing)
            },
            (ConnectionState::Authenticating, ConnectionEvent::AuthRejected) => after_failure(c),
            (ConnectionState::Authenticating, ConnectionEvent::TransportLost) => after_failure(c),
            (ConnectionState::Open, ConnectionEvent::TransportLost) =>
                (Connection { state: ConnectionState::Degraded, ..c }, ConnectionAction::ConnectionLost(c.reconnect_ms)),
            (ConnectionState::Degraded, ConnectionEvent::DelayElapsed) =>
                (Connection { state: ConnectionState::Connecting, ..c }, ConnectionAction::Connect(c.endpoint)),
            (ConnectionState::Reconnecting, ConnectionEvent::DelayElapsed) =>
                (Connection { state: ConnectionState::Connecting, ..c }, ConnectionAction::Connect(c.endpoint)),
            _ => (c, ConnectionAction::Nothing),
        }
    }
}

impl Connection {
    /// The budget is positive, the endpoint index is in range, and an open
    /// connection has never spent its budget.
    pub open spec fn wf(&self) -> bool {
        &&& self.max_failures > 0
        &&& self.endpoints > 0
        &&& self.endpoint < self.endpoints
        &&& self.state != ConnectionState::Closed ==> self.failures < self.max_failures
        &&& self.idle < self.max_failures
    }

    /// A connection about to try its first endpoint. `endpoints` of zero
    /// means the one default endpoint, and a budget of zero allows one attempt.
    pub fn new(endpoints: usize, max_failures: u32, reconnect_ms: u64) -> (r: (Connection, ConnectionAction))
        ensures
            r.0.wf(),
            r.0.state == ConnectionState::Connecting,
            r.0.failures == 0,
            r.0.idle == 0,
            r.0.endpoint == 0,
            r.0.endpoints == (if endpoints == 0 { 1 } else { endpoints }),
            r.0.max_failures == (if max_failures == 0 { 1 } else { max_failures }),
            r.0.reconnect_ms == reconnect_ms,
            r.1 == ConnectionAction::Connect(0),
    {
        let c = Connection {
            state: ConnectionState::Connecting,
            failures: 0,
            idle: 0,
            endpoint: 0,
            endpoints: if endpoints == 0 { 1 } else { endpoints },
            max_failures: if max_failures == 0 { 1 } else { max_failures },
            reconnect_ms,
        };
        (c, ConnectionAction::Connect(0))
    }

    fn fail_attempt(&mut self) -> (action: ConnectionAction)
        requires
            old(self).wf(),
            old(self).state != ConnectionState::Closed,
        ensures
            (*final(self), action) == after_failure(*old(self)),
            final(self).wf(),
    {
        self.failures = self.failures + 1;
        if self.failures >= self.max_failures {
            self.state = ConnectionState::Closed;
            ConnectionAction::GiveUp
        } else {
            self.state = ConnectionState::Reconnecting;
            self.endpoint = if self.endpoint + 1 >= self.endpoints { 0 } else { self.endpoint + 1 };
            ConnectionAction::Backoff(self.reconnect_ms)
        }
    }

    /// Takes one observed event and returns what to do.
    pub fn step(&mut self, event: ConnectionEvent) -> (action: ConnectionAction)
        requires
            old(self).wf(),
        ensures
            (*final(self), action) == transition(*old(self), event),
            final(self).wf(),
    {
        if self.state == ConnectionState::Closed {
            return ConnectionAction::Nothing;
        }
        if event == ConnectionEvent::Shutdown {
            self.state = ConnectionState::Closed;
            return ConnectionAction::Close;
        }
        match (self.state, event) {
            (ConnectionState::Connecting, ConnectionEvent::Connected) => {
                self.state = ConnectionState::Authenticating;
                ConnectionAction::Authenticate
            },
            (ConnectionState::Connecting, ConnectionEvent::ConnectFailed) => self.fail_attempt(),
            (ConnectionState::Authenticating, ConnectionEvent::AuthAccepted) => {
                self.state = ConnectionState::Open;
                self.failures = 0;
                self.idle = 0;
                ConnectionAction::Resubscribe
            },
            (ConnectionState::Open, ConnectionEvent::FrameReceived) => {
                self.idle = 0;
                ConnectionAction::Nothing
            },
            (ConnectionState::Open, ConnectionEvent::Idle) => {
                if self.idle + 1 >= self.max_failures {
                    self.state = ConnectionState::Degraded;
                    self.idle = 0;
                    ConnectionAction::ConnectionLost(self.reconnect_ms)
                } else {
                    self.idle = self.idle + 1;
                    ConnectionAction::Nothing
                }
            },
            (ConnectionState::Authenticating, ConnectionEvent::AuthRejected) => self.fail_attempt(),
            (ConnectionState::Authenticating, ConnectionEvent::TransportLost) => self.fail_attempt(),
            (ConnectionState::Open, ConnectionEvent::TransportLost) => {
                self.state = ConnectionState::Degraded;
                ConnectionAction::ConnectionLost(self.reconnect_ms)
            },
            (ConnectionState::Degraded, ConnectionEvent::DelayElapsed) => {
                self.state = ConnectionState::Connecting;
                ConnectionAction::Connect(self.endpoint)
            },
            (ConnectionState::Reconnecting, ConnectionEvent::DelayElapsed) => {
                self.state = ConnectionState::Connecting;
                ConnectionAction::Connect(self.endpoint)
            },
            _ => ConnectionAction::Nothing,
        }
    }

    /// Whether the session can still carry traffic now.
    pub fn is_open(&self) -> (r: bool)
        ensures
            r == (self.state == ConnectionState::Open),
    {
        self.state == ConnectionState::Open
    }
}

/// The loop guard: an open connection that goes `max_failures` iterations
/// in a row without a frame is taken for lost, never later.
pub proof fn idle_open_connection_is_dropped(c: Connection)
    requires
        c.wf(),
        c.state == ConnectionState::Open,
        c.idle + 1 == c.max_failures,
    ensures
        transition(c, ConnectionEvent::Idle) == (
            Connection { state: ConnectionState::Degraded, idle: 0, ..c },
            ConnectionAction::ConnectionLost(c.reconnect_ms),
        ),
{
}

/// Once closed, a connection stays closed and does nothing, whatever happens.
pub proof fn closed_is_terminal(c: Connection, e: ConnectionEvent)
    requires
        c.state == ConnectionState::Closed,
    ensures
        transition(c, e) == (c, ConnectionAction::Nothing),
{
}

/// A failed attempt either leaves budget for another or ends the session:
/// the number of consecutive failures of a live connection never passes the budget.
pub proof fn failures_are_bounded(c: Connection, e: ConnectionEvent)
    requires
        c.wf(),
        c.state != ConnectionState::Closed,
    ensures
        transition(c, e).0.wf(),
        transition(c, e).0.failures <= c.max_failures,
{
}

} // verus!
