//! Correlation of one outbound message with its eventual inbound response.
//!
//! A `PendingRequest` is driven from outside: every inbound frame is handed
//! to `on_frame`, the clock to `on_tick`, and connection events to
//! `on_connection_lost` and `on_close`. The request settles at most once.
use vstd::prelude::*;
use crate::validator::{validates, Frame, RawValidator};

verus! {

/// Why a correlated send did not produce a response.
#[derive(Debug, Clone, Copy, PartialEq, Eq, Structural)]
pub enum RequestError {
    /// No matching frame arrived before the last deadline.
    Timeout,
    /// The connection dropped and the policy was to fail.
    ConnectionLost,
    /// The session was shut down.
    Closed,
}

/// What happens to requests that are in flight when the connection drops.
#[derive(Debug, Clone, Copy, PartialEq, Eq, Structural)]
pub enum ReconnectPolicy {
    /// The message is sent again on the new connection; the request stays open.
    Resend,
    /// The request fails with `RequestError::ConnectionLost`.
    FailFast,
}

/// What the driver has to do after a clock tick.
#[derive(Debug, Clone, PartialEq, Eq)]
pub enum TickAction {
    /// Nothing yet.
    Wait,
    /// Send this message again; a new deadline is armed.
    Resend(String),
    /// The request has just failed with a timeout.
    Expired,
}

/// `now + span`, or the largest instant when that does not fit.
pub open spec fn deadline_after(now: u64, span: u64) -> u64 {
    if now + span > u64::MAX {
        u64::MAX
    } else {
        (now + span) as u64
    }
}

fn add_span(now: u64, span: u64) -> (r: u64)
    ensures
        r == deadline_after(now, span),
{
    now.saturating_add(span)
}

/// One outbound message waiting for the first inbound frame that its
/// validator accepts. Instants are in milliseconds.
pub struct PendingRequest {
    pub message: String,
    pub validator: RawValidator,
    pub timeout_ms: u64,
    pub deadline_ms: u64,
    pub retries_left: u32,
    pub outcome: Option<Result<String, RequestError>>,
}

/// Whether `v` accepts `f`.
pub open spec fn accepts(v: RawValidator, f: Frame) -> bool {
    validates(v, f.text@, f.verdicts@)
}

/// `k` is the index of the first frame of `frames` that `v` accepts.
pub open spec fn first_accepted(v: RawValidator, frames: Seq<Frame>, k: int) -> bool {
    0 <= k < frames.len() && accepts(v, frames[k]) && forall|j: int|
        0 <= j < k ==> !accepts(v, #[trigger] frames[j])
}

/// A request after `f` was offered to it.
pub open spec fn answered(r: PendingRequest, f: Frame) -> PendingRequest {
    if r.outcome is None && accepts(r.validator, f) {
        PendingRequest { outcome: Some(Ok(f.text)), ..r }
    } else {
        r
    }
}

/// A request after the clock reached `now`.
pub open spec fn ticked(r: PendingRequest, now: u64) -> PendingRequest {
    if r.outcome is Some || now < r.deadline_ms {
        r
    } else if r.retries_left > 0 {
        PendingRequest {
            retries_left: (r.retries_left - 1) as u32,
            deadline_ms: deadline_after(now, r.timeout_ms),
            ..r
        }
    } else {
        PendingRequest { outcome: Some(Err(RequestError::Timeout)), ..r }
    }
}

/// Whether the clock reaching `now` makes `r` send its message again.
pub open spec fn resends_at(r: PendingRequest, now: u64) -> bool {
    r.outcome is None && now >= r.deadline_ms && r.retries_left > 0
}

/// The messages re-sent when the clock reaches `now`, in request order.
pub open spec fn resent(rs: Seq<PendingRequest>, now: u64) -> Seq<String>
    decreases rs.len(),
{
    if rs.len() == 0 {
        seq![]
    } else if resends_at(rs.last(), now) {
        resent(rs.drop_last(), now).push(rs.last().message)
    } else {
        resent(rs.drop_last(), now)
    }
}

/// A request after the connection dropped under `policy`.
pub open spec fn after_loss(r: PendingRequest, policy: ReconnectPolicy) -> PendingRequest {
    if r.outcome is None && policy == ReconnectPolicy::FailFast {
        PendingRequest { outcome: Some(Err(RequestError::ConnectionLost)), ..r }
    } else {
        r
    }
}

/// The messages to send again after the connection dropped, in request order.
pub open spec fn open_messages(rs: Seq<PendingRequest>) -> Seq<String>
    decreases rs.len(),
{
    if rs.len() == 0 {
        seq![]
    } else if rs.last().outcome is None {
        open_messages(rs.drop_last()).push(rs.last().message)
    } else {
        open_messages(rs.drop_last())
    }
}

/// A request after the session shut down.
pub open spec fn after_close(r: PendingRequest) -> PendingRequest {
    if r.outcome is None {
        PendingRequest { outcome: Some(Err(RequestError::Closed)), ..r }
    } else {
        r
    }
}

impl PendingRequest {
    /// A request for `message`, sent at `now_ms`, that waits `timeout_ms`
    /// for a response and re-sends at most `retries` times.
    pub fn new(message: String, validator: RawValidator, timeout_ms: u64, retries: u32, now_ms: u64) -> (r: PendingRequest)
        ensures
            r.message == message,
            r.validator == validator,
            r.timeout_ms == timeout_ms,
            r.deadline_ms == deadline_after(now_ms, timeout_ms),
            r.retries_left == retries,
            r.outcome is None,
    {
        PendingRequest {
            message,
            validator,
            timeout_ms,
            deadline_ms: add_span(now_ms, timeout_ms),
            retries_left: retries,
            outcome: None,
        }
    }

    /// Whether the request has settled.
    pub fn is_done(&self) -> (r: bool)
        ensures
            r == self.outcome is Some,
    {
        self.outcome.is_some()
    }

    /// Offers one inbound frame. It settles the request when the request is
    /// still open and its validator accepts the frame; otherwise nothing changes.
    pub fn on_frame(&mut self, frame: &Frame) -> (matched: bool)
        ensures
            matched == (old(self).outcome is None && accepts(old(self).validator, *frame)),
            *final(self) == answered(*old(self), *frame),
            matched ==> final(self).outcome == Some(Ok::<String, RequestError>(frame.text)),
            !matched ==> final(self).outcome == old(self).outcome,
            final(self).message == old(self).message,
            final(self).validator == old(self).validator,
            final(self).timeout_ms == old(self).timeout_ms,
            final(self).deadline_ms == old(self).deadline_ms,
            final(self).retries_left == old(self).retries_left,
    {
        if self.outcome.is_some() {
            return false;
        }
        if self.validator.validate(frame) {
            self.outcome = Some(Ok(frame.text.clone()));
            true
        } else {
            false
        }
    }

    /// Offers the inbound frames in order of arrival. The first accepted
    /// frame settles an open request; no later frame changes it.
    pub fn feed(&mut self, frames: &Vec<Frame>)
        ensures
            old(self).outcome is Some ==> final(self).outcome == old(self).outcome,
            old(self).outcome is None ==> (
                forall|k: int| 0 <= k < frames@.len() ==> !accepts(old(self).validator, #[trigger] frames@[k])
            ) ==> final(self).outcome is None,
            old(self).outcome is None ==> forall|k: int|
                #[trigger] first_accepted(old(self).validator, frames@, k)
                ==> final(self).outcome == Some(Ok::<String, RequestError>(frames@[k].text)),
            final(self).validator == old(self).validator,
            final(self).message == old(self).message,
            final(self).deadline_ms == old(self).deadline_ms,
            final(self).retries_left == old(self).retries_left,
    {
        let ghost start = *self;
        let mut i: usize = 0;
        while i < frames.len()
            invariant
                i <= frames@.len(),
                self.validator == start.validator,
                self.message == start.message,
                self.deadline_ms == start.deadline_ms,
                self.retries_left == start.retries_left,
                start.outcome is Some ==> self.outcome == start.outcome,
                start.outcome is None ==> (self.outcome is None <==> forall|j: int|
                    0 <= j < i ==> !accepts(start.validator, #[trigger] frames@[j])),
                start.outcome is None ==> forall|k: int|
                    #[trigger] first_accepted(start.validator, frames@, k) && k < i
                    ==> self.outcome == Some(Ok::<String, RequestError>(frames@[k].text)),
            decreases frames@.len() - i,
        {
            let matched = self.on_frame(&frames[i]);
            proof {
                if start.outcome is None {
                    assert forall|k: int|
                        #[trigger] first_accepted(start.validator, frames@, k) && k < i + 1
                        implies self.outcome == Some(Ok::<String, RequestError>(frames@[k].text)) by {
                        if k == i {
                            assert(matched);
                        } else {
                            assert(!accepts(start.validator, frames@[i as int]) || k < i);
                        }
                    }
                }
            }
            i = i + 1;
        }
    }

    /// Advances the clock to `now_ms`. An open request whose deadline has
    /// come is re-sent while retries are left, and fails with a timeout
    /// after the last one.
    pub fn on_tick(&mut self, now_ms: u64) -> (action: TickAction)
        ensures
            *final(self) == ticked(*old(self), now_ms),
            (action is Resend) == resends_at(*old(self), now_ms),
            old(self).outcome is Some || now_ms < old(self).deadline_ms ==> (
                action == TickAction::Wait && *final(self) == *old(self)
            ),
            old(self).outcome is None && now_ms >= old(self).deadline_ms && old(self).retries_left > 0 ==> (
                action == TickAction::Resend(old(self).message)
                && final(self).retries_left == old(self).retries_left - 1
                && final(self).deadline_ms == deadline_after(now_ms, old(self).timeout_ms)
                && final(self).outcome is None
            ),
            old(self).outcome is None && now_ms >= old(self).deadline_ms && old(self).retries_left == 0 ==> (
                action == TickAction::Expired
                && final(self).outcome == Some(Err::<String, RequestError>(RequestError::Timeout))
                && final(self).retries_left == 0
                && final(self).deadline_ms == old(self).deadline_ms
            ),
            final(self).message == old(self).message,
            final(self).validator == old(self).validator,
            final(self).timeout_ms == old(self).timeout_ms,
    {
        if self.outcome.is_some() || now_ms < self.deadline_ms {
            return TickAction::Wait;
        }
        if self.retries_left > 0 {
            self.retries_left = self.retries_left - 1;
            self.deadline_ms = add_span(now_ms, self.timeout_ms);
            TickAction::Resend(self.message.clone())
        } else {
            self.outcome = Some(Err(RequestError::Timeout));
            TickAction::Expired
        }
    }

    /// The connection dropped. Under `Resend` an open request hands back its
    /// message to be sent again on the new connection and keeps waiting;
    /// under `FailFast` it fails. A settled request is left alone.
    pub fn on_connection_lost(&mut self, policy: ReconnectPolicy) -> (resend: Option<String>)
        ensures
            old(self).outcome is Some ==> resend is None && *final(self) == *old(self),
            old(self).outcome is None && policy == ReconnectPolicy::Resend ==> (
                resend == Some(old(self).message) && *final(self) == *old(self)
            ),
            old(self).outcome is None && policy == ReconnectPolicy::FailFast ==> (
                resend is None
                && final(self).outcome == Some(Err::<String, RequestError>(RequestError::ConnectionLost))
            ),
            final(self).message == old(self).message,
            final(self).validator == old(self).validator,
            final(self).timeout_ms == old(self).timeout_ms,
            final(self).deadline_ms == old(self).deadline_ms,
            final(self).retries_left == old(self).retries_left,
    {
        if self.outcome.is_some() {
            return None;
        }
        match policy {
            ReconnectPolicy::Resend => Some(self.message.clone()),
            ReconnectPolicy::FailFast => {
                self.outcome = Some(Err(RequestError::ConnectionLost));
                None
            },
        }
    }

    /// The session shut down: an open request fails with `Closed`.
    pub fn on_close(&mut self)
        ensures
            old(self).outcome is Some ==> *final(self) == *old(self),
            old(self).outcome is None ==> final(self).outcome == Some(Err::<String, RequestError>(RequestError::Closed)),
            final(self).message == old(self).message,
            final(self).validator == old(self).validator,
            final(self).timeout_ms == old(self).timeout_ms,
            final(self).deadline_ms == old(self).deadline_ms,
            final(self).retries_left == old(self).retries_left,
    {
        if self.outcome.is_none() {
            self.outcome = Some(Err(RequestError::Closed));
        }
    }
}


/// A request with no retry left, waiting for a deadline `t` after `start`,
/// times out at a tick exactly when the clock has reached `start + t`: not
/// before, and at the first tick from then on.
pub proof fn timeout_without_retries(r: PendingRequest, start: u64, t: u64, now: u64)
    requires
        r.outcome is None,
        r.retries_left == 0,
        r.deadline_ms == deadline_after(start, t),
        start + t <= u64::MAX,
    ensures
        ticked(r, now).outcome == Some(Err::<String, RequestError>(RequestError::Timeout)) <==> now >= start + t,
        now < start + t ==> ticked(r, now) == r,
{
}

/// A request after the frames `frames` were offered to it, in order.
pub open spec fn answered_all(r: PendingRequest, frames: Seq<Frame>) -> PendingRequest
    decreases frames.len(),
{
    if frames.len() == 0 {
        r
    } else {
        answered(answered_all(r, frames.drop_last()), frames.last())
    }
}

/// Frames that the validator rejects leave an open request as it is.
pub proof fn rejected_frames_change_nothing(r: PendingRequest, frames: Seq<Frame>)
    requires
        r.outcome is None,
        forall|i: int| 0 <= i < frames.len() ==> !accepts(r.validator, #[trigger] frames[i]),
    ensures
        answered_all(r, frames) == r,
    decreases frames.len(),
{
    if frames.len() > 0 {
        rejected_frames_change_nothing(r, frames.drop_last());
        assert(!accepts(r.validator, frames[frames.len() - 1]));
    }
}

/// Whatever frames arrive, an open request is settled by the first one that
/// its validator accepts, however many rejected frames come before it, and
/// no later frame settles it again or replaces its response.
pub proof fn first_match_settles(r: PendingRequest, frames: Seq<Frame>, k: int)
    requires
        r.outcome is None,
        first_accepted(r.validator, frames, k),
    ensures
        answered_all(r, frames).outcome == Some(Ok::<String, RequestError>(frames[k].text)),
        answered_all(r, frames).validator == r.validator,
    decreases frames.len(),
{
    let prefix = frames.drop_last();
    if k == frames.len() - 1 {
        assert forall|i: int| 0 <= i < prefix.len() implies !accepts(r.validator, #[trigger] prefix[i]) by {
            assert(prefix[i] == frames[i]);
        }
        rejected_frames_change_nothing(r, prefix);
    } else {
        assert forall|j: int| 0 <= j < k implies !accepts(r.validator, #[trigger] prefix[j]) by {
            assert(prefix[j] == frames[j]);
            assert(!accepts(r.validator, frames[j]));
        }
        assert(prefix[k] == frames[k]);
        assert(first_accepted(r.validator, prefix, k));
        first_match_settles(r, prefix, k);
    }
}

} // verus!
