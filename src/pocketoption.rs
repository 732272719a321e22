//! The session facade: one handle per authenticated session.
//!
//! It owns the connection state machine, the pending correlated sends, the
//! subscriptions and the queue of messages to write. A driver performs the
//! transport work: it writes what `take_outbox` hands out, offers every
//! inbound frame to `on_frame`, advances the clock with `on_tick`, and
//! reports connection events to `handle`.
use vstd::prelude::*;
use crate::config::{all_parse, first_bad, parsed_endpoint, to_millis, secs_to_ms, ConfigError, PyConfig, SessionConfig};
use crate::connection::{transition, Connection, ConnectionAction, ConnectionEvent, ConnectionState};
use crate::correlator::{after_close, after_loss, answered, deadline_after, open_messages, resent, ticked, PendingRequest, ReconnectPolicy, RequestError, TickAction};
use crate::subscription::{cancelled, expired_at, live_commands, offered, SubscribeError, SubscriptionRegistry, SubscriptionView};
use crate::stream::{exhausted_message, next_stream, polled, Feed, FeedView, StreamNext, StreamStop};
use crate::validator::{Frame, RawValidator};

verus! {

/// Why a session operation was refused.
#[derive(Debug, Clone, PartialEq, Eq)]
pub enum SessionError {
    /// The session has been shut down, or gave up reconnecting.
    Closed,
    /// The configuration was refused.
    Config(ConfigError),
    /// Groups of zero frames cannot be formed.
    InvalidChunkSize,
    /// No correlated send or subscription has this id.
    UnknownId,
}

/// One session with the venue.
pub struct RawPocketOption {
    ssid: String,
    config: SessionConfig,
    policy: ReconnectPolicy,
    connection: Connection,
    requests: Vec<PendingRequest>,
    subscriptions: SubscriptionRegistry,
    outbox: Vec<String>,
}

/// The tunables that a session takes from `config`, or the defaults:
/// attempt and loop budget, poll interval (ms), reconnect delay (s),
/// connection timeout (s) and request timeout (s).
pub open spec fn config_values(config: Option<PyConfig>) -> (u32, u64, u64, u64, u64) {
    match config {
        Some(c) => (c.max_allowed_loops, c.sleep_interval, c.reconnect_time,
            c.connection_initialization_timeout_secs, c.timeout_secs),
        None => (100, 100, 5, 30, 30),
    }
}

/// The candidate endpoints of `config`, none without one.
pub open spec fn config_urls(config: Option<PyConfig>) -> Seq<String> {
    match config {
        Some(c) => c.urls@,
        None => seq![],
    }
}

impl RawPocketOption {
    /// The parts stay consistent: the connection and the registry keep their
    /// own invariants.
    pub open spec fn wf(&self) -> bool {
        &&& self.connection().wf()
        &&& self.subscriptions().wf()
    }

    pub closed spec fn connection(&self) -> Connection {
        self.connection
    }

    pub closed spec fn subscriptions(&self) -> SubscriptionRegistry {
        self.subscriptions
    }

    pub closed spec fn requests(&self) -> Seq<PendingRequest> {
        self.requests@
    }

    pub closed spec fn outbox(&self) -> Seq<String> {
        self.outbox@
    }

    pub closed spec fn ssid_view(&self) -> Seq<char> {
        self.ssid@
    }

    pub closed spec fn policy(&self) -> ReconnectPolicy {
        self.policy
    }

    pub closed spec fn timeout_ms(&self) -> u64 {
        secs_to_ms(self.config.timeout_s)
    }

    pub closed spec fn sleep_interval_ms(&self) -> u64 {
        self.config.sleep_interval_ms
    }

    pub closed spec fn init_timeout_ms(&self) -> u64 {
        secs_to_ms(self.config.connection_init_timeout_s)
    }

    /// The candidate endpoints, serialized, in the order they are tried.
    pub closed spec fn urls(&self) -> Seq<String> {
        self.config.urls@
    }

    /// Whether the session has been shut down or has given up.
    pub open spec fn is_closed(&self) -> bool {
        self.connection().state == ConnectionState::Closed
    }

    /// A fresh session built from the tunables `v` (as `config_values`
    /// orders them) and the candidate endpoints `candidates`.
    pub open spec fn fresh_from(&self, v: (u32, u64, u64, u64, u64), candidates: Seq<String>) -> bool {
        &&& self.wf()
        &&& self.policy() == ReconnectPolicy::Resend
        &&& self.connection().state == ConnectionState::Connecting
        &&& self.connection().failures == 0
        &&& self.connection().idle == 0
        &&& self.connection().endpoint == 0
        &&& self.connection().endpoints == (if candidates.len() == 0 { 1 } else { candidates.len() })
        &&& self.connection().max_failures == (if v.0 == 0 { 1 } else { v.0 })
        &&& self.sleep_interval_ms() == v.1
        &&& self.connection().reconnect_ms == secs_to_ms(v.2)
        &&& self.init_timeout_ms() == secs_to_ms(v.3)
        &&& self.timeout_ms() == secs_to_ms(v.4)
        &&& self.urls().len() == candidates.len()
        &&& forall|i: int| 0 <= i < candidates.len() ==> #[trigger] self.urls()[i]@
            == parsed_endpoint(candidates[i]@)->Some_0
        &&& self.requests().len() == 0
        &&& self.subscriptions()@.len() == 0
        &&& self.outbox().len() == 0
    }

    fn start(ssid: String, config: SessionConfig) -> (r: RawPocketOption)
        ensures
            r.wf(),
            r.ssid_view() == ssid@,
            r.policy() == ReconnectPolicy::Resend,
            r.timeout_ms() == secs_to_ms(config.timeout_s),
            r.sleep_interval_ms() == config.sleep_interval_ms,
            r.init_timeout_ms() == secs_to_ms(config.connection_init_timeout_s),
            r.urls() == config.urls@,
            r.connection().state == ConnectionState::Connecting,
            r.connection().failures == 0,
            r.connection().idle == 0,
            r.connection().endpoint == 0,
            r.connection().endpoints == (if config.urls@.len() == 0 { 1 } else { config.urls@.len() }),
            r.connection().max_failures == (if config.max_allowed_loops == 0 { 1 } else { config.max_allowed_loops }),
            r.connection().reconnect_ms == secs_to_ms(config.reconnect_time_s),
            r.requests().len() == 0,
            r.subscriptions()@.len() == 0,
            r.outbox().len() == 0,
    {
        let (connection, _) = Connection::new(config.urls.len(), config.max_allowed_loops, to_millis(config.reconnect_time_s));
        RawPocketOption {
            ssid,
            config,
            policy: ReconnectPolicy::Resend,
            connection,
            requests: Vec::new(),
            subscriptions: SubscriptionRegistry::new(),
            outbox: Vec::new(),
        }
    }

    fn from_config(ssid: String, c: PyConfig) -> (r: Result<RawPocketOption, SessionError>)
        ensures
            all_parse(c.urls@) ==> r is Ok && r->Ok_0.ssid_view() == ssid@
                && r->Ok_0.fresh_from(config_values(Some(c)), c.urls@),
            !all_parse(c.urls@) ==> exists|k: int| first_bad(c.urls@, k)
                && r == Err::<RawPocketOption, SessionError>(SessionError::Config(ConfigError::InvalidUrl(c.urls@[k]))),
    {
        match c.build() {
            Ok(built) => Ok(RawPocketOption::start(ssid, built)),
            Err(e) => Err(SessionError::Config(e)),
        }
    }

    /// A session for the credential `ssid`, with `config` or the defaults.
    /// In-flight requests are re-sent after a reconnect. Fails, naming it,
    /// on the first endpoint of the configuration that is not an absolute URL.
    pub fn new(ssid: String, config: Option<PyConfig>) -> (r: Result<RawPocketOption, SessionError>)
        ensures
            all_parse(config_urls(config)) ==> r is Ok && r->Ok_0.ssid_view() == ssid@
                && r->Ok_0.fresh_from(config_values(config), config_urls(config)),
            !all_parse(config_urls(config)) ==> exists|k: int| first_bad(config_urls(config), k)
                && r == Err::<RawPocketOption, SessionError>(SessionError::Config(
                    ConfigError::InvalidUrl(config_urls(config)[k]),
                )),
    {
        match config {
            Some(c) => RawPocketOption::from_config(ssid, c),
            None => {
                let d = PyConfig::new();
                proof {
                    assert(d.urls@ =~= config_urls(config));
                }
                RawPocketOption::from_config(ssid, d)
            },
        }
    }

    /// A session for `ssid` that tries `url` first, then the endpoints of
    /// `config`, with the tunables of `config` or the defaults. Fails, naming
    /// it, on the first of these endpoints that is not an absolute URL.
    pub fn new_with_url(ssid: String, url: String, config: Option<PyConfig>) -> (r: Result<RawPocketOption, SessionError>)
        ensures
            all_parse(seq![url] + config_urls(config)) ==> r is Ok && r->Ok_0.ssid_view() == ssid@
                && r->Ok_0.fresh_from(config_values(config), seq![url] + config_urls(config)),
            !all_parse(seq![url] + config_urls(config)) ==> exists|k: int| first_bad(seq![url] + config_urls(config), k)
                && r == Err::<RawPocketOption, SessionError>(SessionError::Config(
                    ConfigError::InvalidUrl((seq![url] + config_urls(config))[k]),
                )),
    {
        let mut c = match config {
            Some(c) => c,
            None => PyConfig::new(),
        };
        let ghost rest = c.urls@;
        proof {
            assert(rest =~= config_urls(config));
        }
        let mut urls: Vec<String> = Vec::new();
        urls.push(url);
        std::mem::swap(&mut urls, &mut c.urls);
        c.urls.append(&mut urls);
        proof {
            assert(c.urls@ =~= seq![url] + config_urls(config));
        }
        RawPocketOption::from_config(ssid, c)
    }

    /// The poll interval of the driver, in milliseconds.
    pub fn sleep_interval(&self) -> (r: u64)
        ensures
            r == self.sleep_interval_ms(),
    {
        self.config.sleep_interval_ms
    }

    /// The bound on one connection attempt, in milliseconds.
    pub fn connection_init_timeout(&self) -> (r: u64)
        ensures
            r == self.init_timeout_ms(),
    {
        to_millis(self.config.connection_init_timeout_s)
    }

    /// The candidate endpoint with index `i`.
    pub fn endpoint_url(&self, i: usize) -> (r: Option<&String>)
        ensures
            i < self.urls().len() ==> r == Some(&self.urls()[i as int]),
            i >= self.urls().len() ==> r is None,
    {
        if i < self.config.urls.len() {
            Some(&self.config.urls[i])
        } else {
            None
        }
    }
}

/// Offers `frame` to every request.
fn answer_all(rs: &mut Vec<PendingRequest>, frame: &Frame)
    ensures
        final(rs)@.len() == old(rs)@.len(),
        forall|i: int| 0 <= i < old(rs)@.len() ==> #[trigger] final(rs)@[i] == answered(old(rs)@[i], *frame),
{
    let ghost start = rs@;
    let n = rs.len();
    let mut i: usize = 0;
    while i < n
        invariant
            n == rs@.len(),
            n == start.len(),
            i <= n,
            forall|k: int| 0 <= k < i ==> #[trigger] rs@[k] == answered(start[k], *frame),
            forall|k: int| i <= k < n ==> #[trigger] rs@[k] == start[k],
        decreases n - i,
    {
        rs[i].on_frame(frame);
        i = i + 1;
    }
}

/// Advances every request to `now`, and queues on `out` the messages to re-send.
fn tick_all(rs: &mut Vec<PendingRequest>, now: u64, out: &mut Vec<String>)
    ensures
        final(rs)@.len() == old(rs)@.len(),
        forall|i: int| 0 <= i < old(rs)@.len() ==> #[trigger] final(rs)@[i] == ticked(old(rs)@[i], now),
        final(out)@ == old(out)@ + resent(old(rs)@, now),
{
    let ghost start = rs@;
    let ghost out0 = out@;
    let n = rs.len();
    let mut i: usize = 0;
    while i < n
        invariant
            n == rs@.len(),
            n == start.len(),
            i <= n,
            forall|k: int| 0 <= k < i ==> #[trigger] rs@[k] == ticked(start[k], now),
            forall|k: int| i <= k < n ==> #[trigger] rs@[k] == start[k],
            out@ == out0 + resent(start.subrange(0, i as int), now),
        decreases n - i,
    {
        proof {
            assert(start.subrange(0, i + 1).drop_last() =~= start.subrange(0, i as int));
            assert(start.subrange(0, i + 1).last() == start[i as int]);
        }
        match rs[i].on_tick(now) {
            TickAction::Resend(m) => {
                out.push(m);
                proof {
                    assert(out@ =~= out0 + resent(start.subrange(0, i + 1), now));
                }
            },
            _ => {
                assert(out@ =~= out0 + resent(start.subrange(0, i + 1), now));
            },
        }
        i = i + 1;
    }
    assert(start.subrange(0, n as int) =~= start);
}

/// Applies the reconnect policy to every request, and queues on `out` the
/// messages of those that stay open when the policy is to re-send.
fn lose_all(rs: &mut Vec<PendingRequest>, policy: ReconnectPolicy, out: &mut Vec<String>)
    ensures
        final(rs)@.len() == old(rs)@.len(),
        forall|i: int| 0 <= i < old(rs)@.len() ==> #[trigger] final(rs)@[i] == after_loss(old(rs)@[i], policy),
        policy == ReconnectPolicy::Resend ==> final(out)@ == old(out)@ + open_messages(old(rs)@),
        policy == ReconnectPolicy::FailFast ==> final(out)@ == old(out)@,
{
    let ghost start = rs@;
    let ghost out0 = out@;
    let n = rs.len();
    let mut i: usize = 0;
    while i < n
        invariant
            n == rs@.len(),
            n == start.len(),
            i <= n,
            forall|k: int| 0 <= k < i ==> #[trigger] rs@[k] == after_loss(start[k], policy),
            forall|k: int| i <= k < n ==> #[trigger] rs@[k] == start[k],
            policy == ReconnectPolicy::Resend ==> out@ == out0 + open_messages(start.subrange(0, i as int)),
            policy == ReconnectPolicy::FailFast ==> out@ == out0,
        decreases n - i,
    {
        proof {
            assert(start.subrange(0, i + 1).drop_last() =~= start.subrange(0, i as int));
            assert(start.subrange(0, i + 1).last() == start[i as int]);
        }
        match rs[i].on_connection_lost(policy) {
            Some(m) => {
                out.push(m);
            },
            None => {},
        }
        proof {
            if policy == ReconnectPolicy::Resend {
                assert(out@ =~= out0 + open_messages(start.subrange(0, i + 1)));
            }
        }
        i = i + 1;
    }
    assert(start.subrange(0, n as int) =~= start);
}

/// Fails every open request with `Closed`.
fn close_requests(rs: &mut Vec<PendingRequest>)
    ensures
        final(rs)@.len() == old(rs)@.len(),
        forall|i: int| 0 <= i < old(rs)@.len() ==> #[trigger] final(rs)@[i] == after_close(old(rs)@[i]),
{
    let ghost start = rs@;
    let n = rs.len();
    let mut i: usize = 0;
    while i < n
        invariant
            n == rs@.len(),
            n == start.len(),
            i <= n,
            forall|k: int| 0 <= k < i ==> #[trigger] rs@[k] == after_close(start[k]),
            forall|k: int| i <= k < n ==> #[trigger] rs@[k] == start[k],
        decreases n - i,
    {
        rs[i].on_close();
        i = i + 1;
    }
}

impl RawPocketOption {
    /// Queues `message` to be written as it is. Refused once the session is closed.
    pub fn send_raw_message(&mut self, message: String) -> (r: Result<(), SessionError>)
        requires
            old(self).wf(),
        ensures
            final(self).wf(),
            old(self).is_closed() ==> r == Err::<(), SessionError>(SessionError::Closed) && *final(self) == *old(self),
            !old(self).is_closed() ==> r is Ok && final(self).outbox() == old(self).outbox().push(message)
                && final(self).requests() == old(self).requests()
                && final(self).subscriptions()@ == old(self).subscriptions()@
                && final(self).connection() == old(self).connection(),
    {
        if self.connection.state == ConnectionState::Closed {
            return Err(SessionError::Closed);
        }
        self.outbox.push(message);
        Ok(())
    }

    /// Sends `message` and waits, from `now_ms`, for the first inbound frame
    /// that `validator` accepts: at most `timeout_ms` per attempt, with
    /// `retries` re-sends. Returns the id under which the outcome is kept.
    pub fn send_and_wait(
        &mut self,
        message: String,
        validator: RawValidator,
        timeout_ms: u64,
        retries: u32,
        now_ms: u64,
    ) -> (r: Result<usize, SessionError>)
        requires
            old(self).wf(),
        ensures
            final(self).wf(),
            old(self).is_closed() ==> r == Err::<usize, SessionError>(SessionError::Closed) && *final(self) == *old(self),
            !old(self).is_closed() ==> r is Ok && r->Ok_0 == old(self).requests().len()
                && final(self).requests() == old(self).requests().push(PendingRequest {
                    message,
                    validator,
                    timeout_ms,
                    deadline_ms: deadline_after(now_ms, timeout_ms),
                    retries_left: retries,
                    outcome: None,
                })
                && final(self).outbox() == old(self).outbox().push(message)
                && final(self).subscriptions()@ == old(self).subscriptions()@
                && final(self).connection() == old(self).connection(),
    {
        if self.connection.state == ConnectionState::Closed {
            return Err(SessionError::Closed);
        }
        let id = self.requests.len();
        self.outbox.push(message.clone());
        self.requests.push(PendingRequest::new(message, validator, timeout_ms, retries, now_ms));
        Ok(id)
    }

    /// `send_and_wait` with the configured timeout and no retry.
    pub fn create_raw_order(&mut self, message: String, validator: RawValidator, now_ms: u64) -> (r: Result<usize, SessionError>)
        requires
            old(self).wf(),
        ensures
            final(self).wf(),
            old(self).is_closed() ==> r == Err::<usize, SessionError>(SessionError::Closed) && *final(self) == *old(self),
            !old(self).is_closed() ==> r is Ok && r->Ok_0 == old(self).requests().len()
                && final(self).requests() == old(self).requests().push(PendingRequest {
                    message,
                    validator,
                    timeout_ms: old(self).timeout_ms(),
                    deadline_ms: deadline_after(now_ms, old(self).timeout_ms()),
                    retries_left: 0,
                    outcome: None,
                })
                && final(self).outbox() == old(self).outbox().push(message)
                && final(self).subscriptions()@ == old(self).subscriptions()@
                && final(self).connection() == old(self).connection(),
    {
        let t = to_millis(self.config.timeout_s);
        self.send_and_wait(message, validator, t, 0, now_ms)
    }

    /// `send_and_wait` with the given timeout and no retry.
    pub fn create_raw_order_with_timeout(
        &mut self,
        message: String,
        validator: RawValidator,
        timeout_ms: u64,
        now_ms: u64,
    ) -> (r: Result<usize, SessionError>)
        requires
            old(self).wf(),
        ensures
            final(self).wf(),
            old(self).is_closed() ==> r == Err::<usize, SessionError>(SessionError::Closed) && *final(self) == *old(self),
            !old(self).is_closed() ==> r is Ok && r->Ok_0 == old(self).requests().len()
                && final(self).requests() == old(self).requests().push(PendingRequest {
                    message,
                    validator,
                    timeout_ms,
                    deadline_ms: deadline_after(now_ms, timeout_ms),
                    retries_left: 0,
                    outcome: None,
                })
                && final(self).outbox() == old(self).outbox().push(message)
                && final(self).subscriptions()@ == old(self).subscriptions()@
                && final(self).connection() == old(self).connection(),
    {
        self.send_and_wait(message, validator, timeout_ms, 0, now_ms)
    }

    /// `send_and_wait` with the given timeout and retry budget.
    pub fn create_raw_order_with_timeout_and_retry(
        &mut self,
        message: String,
        validator: RawValidator,
        timeout_ms: u64,
        retries: u32,
        now_ms: u64,
    ) -> (r: Result<usize, SessionError>)
        requires
            old(self).wf(),
        ensures
            final(self).wf(),
            old(self).is_closed() ==> r == Err::<usize, SessionError>(SessionError::Closed) && *final(self) == *old(self),
            !old(self).is_closed() ==> r is Ok && r->Ok_0 == old(self).requests().len()
                && final(self).requests() == old(self).requests().push(PendingRequest {
                    message,
                    validator,
                    timeout_ms,
                    deadline_ms: deadline_after(now_ms, timeout_ms),
                    retries_left: retries,
                    outcome: None,
                })
                && final(self).outbox() == old(self).outbox().push(message)
                && final(self).subscriptions()@ == old(self).subscriptions()@
                && final(self).connection() == old(self).connection(),
    {
        self.send_and_wait(message, validator, timeout_ms, retries, now_ms)
    }

    /// The outcome of correlated send `id`: `None` while it waits.
    pub fn order_result(&self, id: usize) -> (r: Result<Option<Result<String, RequestError>>, SessionError>)
        ensures
            id >= self.requests().len() ==> r == Err::<Option<Result<String, RequestError>>, SessionError>(SessionError::UnknownId),
            id < self.requests().len() ==> r == Ok::<Option<Result<String, RequestError>>, SessionError>(self.requests()[id as int].outcome),
    {
        if id >= self.requests.len() {
            return Err(SessionError::UnknownId);
        }
        match &self.requests[id].outcome {
            None => Ok(None),
            Some(Ok(s)) => Ok(Some(Ok(s.clone()))),
            Some(Err(e)) => Ok(Some(Err(*e))),
        }
    }

    fn register(
        &mut self,
        filter: RawValidator,
        chunk_size: usize,
        expires_ms: Option<u64>,
        command: String,
    ) -> (r: Result<usize, SessionError>)
        requires
            old(self).wf(),
        ensures
            final(self).wf(),
            old(self).is_closed() ==> r == Err::<usize, SessionError>(SessionError::Closed) && *final(self) == *old(self),
            !old(self).is_closed() && chunk_size == 0 ==> r == Err::<usize, SessionError>(SessionError::InvalidChunkSize)
                && *final(self) == *old(self),
            !old(self).is_closed() && chunk_size > 0 ==> r is Ok && r->Ok_0 == old(self).subscriptions()@.len()
                && final(self).subscriptions()@ == old(self).subscriptions()@.push(SubscriptionView {
                    filter,
                    chunk_size: chunk_size as nat,
                    expires_ms,
                    command: Some(command),
                    cancelled: false,
                    pending: seq![],
                    ready: seq![],
                })
                && final(self).outbox() == old(self).outbox().push(command)
                && final(self).requests() == old(self).requests()
                && final(self).connection() == old(self).connection(),
    {
        if self.connection.state == ConnectionState::Closed {
            return Err(SessionError::Closed);
        }
        if chunk_size == 0 {
            return Err(SessionError::InvalidChunkSize);
        }
        let sent = command.clone();
        match self.subscriptions.subscribe(filter, chunk_size, expires_ms, Some(command)) {
            Ok(id) => {
                self.outbox.push(sent);
                Ok(id)
            },
            Err(SubscribeError::InvalidChunkSize) => Err(SessionError::InvalidChunkSize),
        }
    }

    /// Sends `message` and feeds back every later frame that `validator`
    /// accepts, until cancelled or, with a timeout, until `timeout_ms` after
    /// `now_ms`. The message is sent again after each reconnect.
    pub fn create_raw_iterator(
        &mut self,
        message: String,
        validator: RawValidator,
        timeout_ms: Option<u64>,
        now_ms: u64,
    ) -> (r: Result<usize, SessionError>)
        requires
            old(self).wf(),
        ensures
            final(self).wf(),
            old(self).is_closed() ==> r == Err::<usize, SessionError>(SessionError::Closed) && *final(self) == *old(self),
            !old(self).is_closed() ==> r is Ok && r->Ok_0 == old(self).subscriptions()@.len()
                && final(self).subscriptions()@ == old(self).subscriptions()@.push(SubscriptionView {
                    filter: validator,
                    chunk_size: 1,
                    expires_ms: match timeout_ms {
                        Some(t) => Some(deadline_after(now_ms, t)),
                        None => None,
                    },
                    command: Some(message),
                    cancelled: false,
                    pending: seq![],
                    ready: seq![],
                })
                && final(self).outbox() == old(self).outbox().push(message)
                && final(self).requests() == old(self).requests()
                && final(self).connection() == old(self).connection(),
    {
        let expires = match timeout_ms {
            Some(t) => Some(now_ms.saturating_add(t)),
            None => None,
        };
        self.register(validator, 1, expires, message)
    }

    /// Subscribes to the quotes of `symbol`: `command` registers the feed
    /// upstream, and every frame that mentions `symbol` is fed back.
    pub fn subscribe_symbol(&mut self, symbol: String, command: String) -> (r: Result<usize, SessionError>)
        requires
            old(self).wf(),
        ensures
            final(self).wf(),
            old(self).is_closed() ==> r == Err::<usize, SessionError>(SessionError::Closed) && *final(self) == *old(self),
            !old(self).is_closed() ==> r is Ok && r->Ok_0 == old(self).subscriptions()@.len()
                && final(self).subscriptions()@ == old(self).subscriptions()@.push(SubscriptionView {
                    filter: RawValidator::Contains(symbol),
                    chunk_size: 1,
                    expires_ms: None,
                    command: Some(command),
                    cancelled: false,
                    pending: seq![],
                    ready: seq![],
                })
                && final(self).outbox() == old(self).outbox().push(command)
                && final(self).requests() == old(self).requests()
                && final(self).connection() == old(self).connection(),
    {
        self.register(RawValidator::new_contains(symbol), 1, None, command)
    }

    /// As `subscribe_symbol`, with the frames handed out `chunck_size` at a time.
    pub fn subscribe_symbol_chuncked(&mut self, symbol: String, command: String, chunck_size: usize) -> (r: Result<usize, SessionError>)
        requires
            old(self).wf(),
        ensures
            final(self).wf(),
            old(self).is_closed() ==> r == Err::<usize, SessionError>(SessionError::Closed) && *final(self) == *old(self),
            !old(self).is_closed() && chunck_size == 0 ==> r == Err::<usize, SessionError>(SessionError::InvalidChunkSize)
                && *final(self) == *old(self),
            !old(self).is_closed() && chunck_size > 0 ==> r is Ok && r->Ok_0 == old(self).subscriptions()@.len()
                && final(self).subscriptions()@ == old(self).subscriptions()@.push(SubscriptionView {
                    filter: RawValidator::Contains(symbol),
                    chunk_size: chunck_size as nat,
                    expires_ms: None,
                    command: Some(command),
                    cancelled: false,
                    pending: seq![],
                    ready: seq![],
                })
                && final(self).outbox() == old(self).outbox().push(command)
                && final(self).requests() == old(self).requests()
                && final(self).connection() == old(self).connection(),
    {
        self.register(RawValidator::new_contains(symbol), chunck_size, None, command)
    }

    /// As `subscribe_symbol`, ending `duration_ms` after `now_ms`.
    pub fn subscribe_symbol_timed(
        &mut self,
        symbol: String,
        command: String,
        duration_ms: u64,
        now_ms: u64,
    ) -> (r: Result<usize, SessionError>)
        requires
            old(self).wf(),
        ensures
            final(self).wf(),
            old(self).is_closed() ==> r == Err::<usize, SessionError>(SessionError::Closed) && *final(self) == *old(self),
            !old(self).is_closed() ==> r is Ok && r->Ok_0 == old(self).subscriptions()@.len()
                && final(self).subscriptions()@ == old(self).subscriptions()@.push(SubscriptionView {
                    filter: RawValidator::Contains(symbol),
                    chunk_size: 1,
                    expires_ms: Some(deadline_after(now_ms, duration_ms)),
                    command: Some(command),
                    cancelled: false,
                    pending: seq![],
                    ready: seq![],
                })
                && final(self).outbox() == old(self).outbox().push(command)
                && final(self).requests() == old(self).requests()
                && final(self).connection() == old(self).connection(),
    {
        let expires = now_ms.saturating_add(duration_ms);
        self.register(RawValidator::new_contains(symbol), 1, Some(expires), command)
    }

    /// Takes the oldest complete group of subscription `id`, if any.
    pub fn next_group(&mut self, id: usize) -> (r: Option<Vec<String>>)
        requires
            old(self).wf(),
        ensures
            final(self).wf(),
            id >= old(self).subscriptions()@.len() || old(self).subscriptions()@[id as int].ready.len() == 0
                ==> r is None && final(self).subscriptions()@ == old(self).subscriptions()@,
            id < old(self).subscriptions()@.len() && old(self).subscriptions()@[id as int].ready.len() > 0
                ==> r is Some && r->Some_0@ == old(self).subscriptions()@[id as int].ready[0]
                && final(self).subscriptions()@ == old(self).subscriptions()@.update(id as int, SubscriptionView {
                    ready: old(self).subscriptions()@[id as int].ready.drop_first(),
                    ..old(self).subscriptions()@[id as int]
                }),
            final(self).requests() == old(self).requests(),
            final(self).outbox() == old(self).outbox(),
            final(self).connection() == old(self).connection(),
    {
        self.subscriptions.next_group(id)
    }

    /// Whether the feed of subscription `id` has ended.
    pub fn is_finished(&self, id: usize) -> (r: bool)
        ensures
            id >= self.subscriptions()@.len() ==> r,
            id < self.subscriptions()@.len() ==> r == (self.subscriptions()@[id as int].cancelled
                && self.subscriptions()@[id as int].ready.len() == 0),
    {
        self.subscriptions.is_finished(id)
    }

    /// Cancels subscription `id`; returns whether anything changed. A second
    /// cancellation changes nothing.
    pub fn cancel(&mut self, id: usize) -> (changed: bool)
        requires
            old(self).wf(),
        ensures
            final(self).wf(),
            id >= old(self).subscriptions()@.len() ==> !changed && final(self).subscriptions()@ == old(self).subscriptions()@,
            id < old(self).subscriptions()@.len() ==> changed == !old(self).subscriptions()@[id as int].cancelled
                && final(self).subscriptions()@ == old(self).subscriptions()@.update(id as int,
                    cancelled(old(self).subscriptions()@[id as int])),
            final(self).requests() == old(self).requests(),
            final(self).outbox() == old(self).outbox(),
            final(self).connection() == old(self).connection(),
    {
        self.subscriptions.cancel(id)
    }

    /// Hands out the queued messages, oldest first, and empties the queue.
    pub fn take_outbox(&mut self) -> (r: Vec<String>)
        requires
            old(self).wf(),
        ensures
            final(self).wf(),
            r@ == old(self).outbox(),
            final(self).outbox().len() == 0,
            final(self).requests() == old(self).requests(),
            final(self).subscriptions()@ == old(self).subscriptions()@,
            final(self).connection() == old(self).connection(),
    {
        let mut out: Vec<String> = Vec::new();
        std::mem::swap(&mut out, &mut self.outbox);
        out
    }

    /// The session credential, sent when the connection asks to authenticate.
    pub fn credential(&self) -> (r: &String)
        ensures
            r@ == self.ssid_view(),
    {
        &self.ssid
    }

    /// Where the connection stands.
    pub fn state(&self) -> (r: ConnectionState)
        ensures
            r == self.connection().state,
    {
        self.connection.state
    }

    /// Offers one inbound frame to every correlated send and every subscription.
    pub fn on_frame(&mut self, frame: &Frame)
        requires
            old(self).wf(),
        ensures
            final(self).wf(),
            final(self).requests().len() == old(self).requests().len(),
            forall|i: int| 0 <= i < old(self).requests().len()
                ==> #[trigger] final(self).requests()[i] == answered(old(self).requests()[i], *frame),
            final(self).subscriptions()@.len() == old(self).subscriptions()@.len(),
            forall|i: int| 0 <= i < old(self).subscriptions()@.len()
                ==> #[trigger] final(self).subscriptions()@[i] == offered(old(self).subscriptions()@[i], *frame),
            final(self).outbox() == old(self).outbox(),
            final(self).connection() == old(self).connection(),
    {
        answer_all(&mut self.requests, frame);
        self.subscriptions.dispatch(frame);
    }

    /// Advances the clock: requests past their deadline are re-sent or time
    /// out, and subscriptions past their expiry end.
    pub fn on_tick(&mut self, now_ms: u64)
        requires
            old(self).wf(),
        ensures
            final(self).wf(),
            final(self).requests().len() == old(self).requests().len(),
            forall|i: int| 0 <= i < old(self).requests().len()
                ==> #[trigger] final(self).requests()[i] == ticked(old(self).requests()[i], now_ms),
            final(self).outbox() == old(self).outbox() + resent(old(self).requests(), now_ms),
            final(self).subscriptions()@.len() == old(self).subscriptions()@.len(),
            forall|i: int| 0 <= i < old(self).subscriptions()@.len() ==> #[trigger] final(self).subscriptions()@[i]
                == expired_at(old(self).subscriptions()@[i], now_ms),
            final(self).connection() == old(self).connection(),
    {
        tick_all(&mut self.requests, now_ms, &mut self.outbox);
        self.subscriptions.on_tick(now_ms);
    }

    /// Takes one connection event and returns what the driver has to do.
    /// When the connection drops, in-flight requests follow the session's
    /// policy; once authenticated again, the live subscriptions' commands are
    /// queued; on shutdown or giving up, every request fails and every feed ends.
    pub fn handle(&mut self, event: ConnectionEvent) -> (action: ConnectionAction)
        requires
            old(self).wf(),
        ensures
            final(self).wf(),
            (final(self).connection(), action) == transition(old(self).connection(), event),
            action is ConnectionLost ==> ({
                &&& final(self).requests().len() == old(self).requests().len()
                &&& forall|i: int| 0 <= i < old(self).requests().len()
                    ==> #[trigger] final(self).requests()[i] == after_loss(old(self).requests()[i], old(self).policy())
                &&& old(self).policy() == ReconnectPolicy::Resend
                    ==> final(self).outbox() == old(self).outbox() + open_messages(old(self).requests())
                &&& final(self).subscriptions()@ == old(self).subscriptions()@
            }),
            action == ConnectionAction::Resubscribe ==> final(self).outbox()
                == old(self).outbox() + live_commands(old(self).subscriptions()@)
                && final(self).requests() == old(self).requests()
                && final(self).subscriptions()@ == old(self).subscriptions()@,
            action == ConnectionAction::Close || action == ConnectionAction::GiveUp ==> ({
                &&& final(self).requests().len() == old(self).requests().len()
                &&& forall|i: int| 0 <= i < old(self).requests().len()
                    ==> #[trigger] final(self).requests()[i] == after_close(old(self).requests()[i])
                &&& final(self).subscriptions()@.len() == old(self).subscriptions()@.len()
                &&& forall|i: int| 0 <= i < old(self).subscriptions()@.len()
                    ==> #[trigger] final(self).subscriptions()@[i].cancelled
            }),
            !(action is ConnectionLost) && action != ConnectionAction::Resubscribe && action != ConnectionAction::Close
                && action != ConnectionAction::GiveUp ==> final(self).requests() == old(self).requests()
                && final(self).outbox() == old(self).outbox()
                && final(self).subscriptions()@ == old(self).subscriptions()@,
    {
        let action = self.connection.step(event);
        match action {
            ConnectionAction::ConnectionLost(_) => {
                lose_all(&mut self.requests, self.policy, &mut self.outbox);
            },
            ConnectionAction::Resubscribe => {
                let mut cmds = self.subscriptions.resubscribe_commands();
                let ghost before = self.outbox@;
                let ghost added = cmds@;
                self.outbox.append(&mut cmds);
                assert(self.outbox@ =~= before + added);
            },
            ConnectionAction::Close | ConnectionAction::GiveUp => {
                close_requests(&mut self.requests);
                self.subscriptions.close_all();
            },
            _ => {},
        }
        action
    }
}

/// The items of a feed for the texts `s`, in order.
pub open spec fn oks(s: Seq<String>) -> Seq<Result<String, String>> {
    s.map_values(|x: String| Ok::<String, String>(x))
}

/// The texts that subscription `id` holds in complete groups, in order.
pub open spec fn ready_texts(subs: Seq<SubscriptionView>, id: usize) -> Seq<String> {
    if id < subs.len() {
        subs[id as int].ready.flatten()
    } else {
        seq![]
    }
}

/// Whether the feed of subscription `id` has no more to give once its
/// complete groups are taken.
pub open spec fn ends_after_ready(subs: Seq<SubscriptionView>, id: usize) -> bool {
    id >= subs.len() || subs[id as int].cancelled
}

/// The host's iterator over the feed of one subscription of a session.
pub struct RawStreamIterator {
    id: usize,
    feed: Feed,
}

impl RawStreamIterator {
    pub closed spec fn id(&self) -> usize {
        self.id
    }

    pub closed spec fn feed(&self) -> FeedView {
        self.feed@
    }

    /// An iterator over subscription `id`, with nothing taken yet.
    pub fn new(id: usize) -> (r: RawStreamIterator)
        ensures
            r.id() == id,
            r.feed() == (FeedView { buffered: seq![], closed: false, terminated: false }),
    {
        RawStreamIterator { id, feed: Feed::new() }
    }

    fn push_all(&mut self, g: &Vec<String>)
        ensures
            final(self).id() == old(self).id(),
            old(self).feed().closed ==> final(self).feed() == old(self).feed(),
            !old(self).feed().closed ==> final(self).feed() == (FeedView {
                buffered: old(self).feed().buffered + oks(g@),
                ..old(self).feed()
            }),
    {
        let ghost b0 = self.feed@.buffered;
        let mut i: usize = 0;
        while i < g.len()
            invariant
                i <= g@.len(),
                self.id == old(self).id,
                self.feed@.closed == old(self).feed@.closed,
                self.feed@.terminated == old(self).feed@.terminated,
                old(self).feed@.closed ==> self.feed@ == old(self).feed@,
                !old(self).feed@.closed ==> self.feed@.buffered == b0 + oks(g@.subrange(0, i as int)),
            decreases g@.len() - i,
        {
            self.feed.push(Ok(g[i].clone()));
            proof {
                assert(oks(g@.subrange(0, i + 1)) =~= oks(g@.subrange(0, i as int)).push(Ok::<String, String>(g@[i as int])));
            }
            i = i + 1;
        }
        assert(g@.subrange(0, g@.len() as int) =~= g@);
    }

    /// Moves every complete group of the subscription into the feed, text by
    /// text and in order, and closes the feed when the subscription has ended.
    pub fn pump(&mut self, session: &mut RawPocketOption)
        requires
            old(session).wf(),
        ensures
            final(session).wf(),
            final(self).id() == old(self).id(),
            final(session).requests() == old(session).requests(),
            final(session).outbox() == old(session).outbox(),
            final(session).connection() == old(session).connection(),
            old(self).feed().closed ==> final(self).feed().buffered == old(self).feed().buffered,
            !old(self).feed().closed ==> final(self).feed().buffered
                == old(self).feed().buffered + oks(ready_texts(old(session).subscriptions()@, old(self).id())),
            final(self).feed().closed == (old(self).feed().closed
                || ends_after_ready(old(session).subscriptions()@, old(self).id())),
            final(self).feed().terminated == old(self).feed().terminated,
    {
        let ghost subs0 = session.subscriptions()@;
        let ghost b0 = self.feed@.buffered;
        let ghost r0 = if self.id < subs0.len() { subs0[self.id as int].ready } else { seq![] };
        let ghost mut k: int = 0;
        proof {
            assert(r0.subrange(0, r0.len() as int) =~= r0);
            assert(b0 + oks(r0.subrange(0, 0).flatten()) =~= b0);
        }
        loop
            invariant
                session.wf(),
                self.id == old(self).id,
                session.requests() == old(session).requests(),
                session.outbox() == old(session).outbox(),
                session.connection() == old(session).connection(),
                session.subscriptions()@.len() == subs0.len(),
                0 <= k <= r0.len(),
                r0 == (if self.id < subs0.len() { subs0[self.id as int].ready } else { seq![] }),
                b0 == old(self).feed@.buffered,
                subs0 == old(session).subscriptions()@,
                self.id < subs0.len() ==> session.subscriptions()@[self.id as int]
                    == (SubscriptionView { ready: r0.subrange(k, r0.len() as int), ..subs0[self.id as int] }),
                self.feed@.closed == old(self).feed@.closed,
                self.feed@.terminated == old(self).feed@.terminated,
                old(self).feed@.closed ==> self.feed@.buffered == b0,
                !old(self).feed@.closed ==> self.feed@.buffered == b0 + oks(r0.subrange(0, k).flatten()),
            ensures
                session.wf(),
                self.id == old(self).id,
                session.requests() == old(session).requests(),
                session.outbox() == old(session).outbox(),
                session.connection() == old(session).connection(),
                session.subscriptions()@.len() == subs0.len(),
                self.id < subs0.len() ==> session.subscriptions()@[self.id as int]
                    == (SubscriptionView { ready: seq![], ..subs0[self.id as int] }),
                self.feed@.closed == old(self).feed@.closed,
                self.feed@.terminated == old(self).feed@.terminated,
                old(self).feed@.closed ==> self.feed@.buffered == b0,
                !old(self).feed@.closed ==> self.feed@.buffered == b0 + oks(ready_texts(subs0, self.id)),
            decreases r0.len() - k,
        {
            let ghost before = session.subscriptions()@;
            match session.next_group(self.id) {
                Some(g) => {
                    proof {
                        assert(r0.subrange(k, r0.len() as int).drop_first() =~= r0.subrange(k + 1, r0.len() as int));
                        assert(r0.subrange(0, k + 1) =~= r0.subrange(0, k).push(r0[k]));
                        r0.subrange(0, k).lemma_flatten_push(r0[k]);
                    }
                    self.push_all(&g);
                    proof {
                        assert(oks(r0.subrange(0, k).flatten() + r0[k]) =~= oks(r0.subrange(0, k).flatten()) + oks(r0[k]));
                        k = k + 1;
                    }
                },
                None => {
                    proof {
                        if self.id < subs0.len() {
                            assert(before[self.id as int].ready == r0.subrange(k, r0.len() as int));
                            assert(before[self.id as int].ready.len() == 0);
                        } else {
                            assert(r0 =~= seq![]);
                        }
                        assert(r0.subrange(k, r0.len() as int).len() == 0);
                        assert(r0.subrange(0, k) =~= r0);
                        assert(r0.subrange(k, r0.len() as int) =~= seq![]);
                        if self.id >= subs0.len() {
                            assert(r0.subrange(0, k).flatten() =~= seq![]);
                            assert(oks(r0.subrange(0, k).flatten()) =~= seq![]);
                            assert(ready_texts(subs0, self.id) =~= seq![]);
                            assert(b0 + oks(r0.subrange(0, k).flatten()) =~= b0 + oks(ready_texts(subs0, self.id)));
                        }
                    }
                    break;
                },
            }
        }
        if session.is_finished(self.id) {
            self.feed.close();
        }
    }

    /// One step of iteration: `None` while nothing is buffered and the feed
    /// is still open; otherwise the next text, or the stop that ends the
    /// iteration (the feed's error, or its end).
    pub fn next(&mut self, sync: bool) -> (r: Option<Result<String, StreamStop>>)
        ensures
            final(self).id() == old(self).id(),
            (final(self).feed(), polled(old(self).feed()).1) == polled(old(self).feed()),
            match polled(old(self).feed()).1 {
                StreamNext::Pending => r is None,
                StreamNext::Item(x) => r == Some(Ok::<String, StreamStop>(x)),
                StreamNext::Failed(e) => r is Some && r->Some_0 is Err && r->Some_0->Err_0.sync == sync
                    && r->Some_0->Err_0.message == e,
                StreamNext::Exhausted => r is Some && r->Some_0 is Err && r->Some_0->Err_0.sync == sync
                    && r->Some_0->Err_0.message@ == exhausted_message(),
            },
    {
        match self.feed.poll() {
            StreamNext::Pending => None,
            StreamNext::Item(x) => Some(next_stream(Some(Ok(x)), sync)),
            StreamNext::Failed(e) => Some(next_stream(Some(Err(e)), sync)),
            StreamNext::Exhausted => Some(next_stream(None, sync)),
        }
    }
}

} // verus!
