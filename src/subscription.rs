//! Long-lived filtered feeds over the inbound frames.
//!
//! Every subscription sees every inbound frame (fan-out): the registry
//! offers each frame to all of them, and each keeps its own copy of the
//! frames that its filter accepts, grouped `chunk_size` at a time. A group
//! that is still incomplete when the subscription ends is dropped.
use vstd::prelude::*;
use crate::correlator::accepts;
use crate::validator::{Frame, RawValidator};

verus! {

/// What a subscription holds, as plain values.
pub struct SubscriptionView {
    pub filter: RawValidator,
    pub chunk_size: nat,
    pub expires_ms: Option<u64>,
    pub command: Option<String>,
    pub cancelled: bool,
    /// Accepted texts of the group being filled.
    pub pending: Seq<String>,
    /// Complete groups, oldest first, not yet taken by the consumer.
    pub ready: Seq<Seq<String>>,
}

/// A subscription after `f` was offered to it.
pub open spec fn offered(s: SubscriptionView, f: Frame) -> SubscriptionView {
    if s.cancelled || !accepts(s.filter, f) {
        s
    } else if s.pending.len() + 1 == s.chunk_size {
        SubscriptionView { pending: seq![], ready: s.ready.push(s.pending.push(f.text)), ..s }
    } else {
        SubscriptionView { pending: s.pending.push(f.text), ..s }
    }
}

/// A subscription after it was cancelled. The groups already complete stay
/// available; the incomplete one is dropped.
pub open spec fn cancelled(s: SubscriptionView) -> SubscriptionView {
    if s.cancelled {
        s
    } else {
        SubscriptionView { cancelled: true, pending: seq![], ..s }
    }
}

/// A subscription after the clock reached `now`: a live one whose expiry
/// has come is cancelled.
pub open spec fn expired_at(s: SubscriptionView, now: u64) -> SubscriptionView {
    if !s.cancelled && s.expires_ms is Some && now >= s.expires_ms->Some_0 {
        cancelled(s)
    } else {
        s
    }
}

/// Every complete group holds exactly `chunk_size` texts, and the group being
/// filled fewer.
pub open spec fn view_wf(s: SubscriptionView) -> bool {
    &&& s.chunk_size > 0
    &&& s.pending.len() < s.chunk_size
    &&& forall|i: int| 0 <= i < s.ready.len() ==> (#[trigger] s.ready[i]).len() == s.chunk_size
}

/// One registration against the inbound frames.
pub struct Subscription {
    filter: RawValidator,
    chunk_size: usize,
    expires_ms: Option<u64>,
    command: Option<String>,
    cancelled: bool,
    pending: Vec<String>,
    ready: Vec<Vec<String>>,
}

impl View for Subscription {
    type V = SubscriptionView;

    closed spec fn view(&self) -> SubscriptionView {
        SubscriptionView {
            filter: self.filter,
            chunk_size: self.chunk_size as nat,
            expires_ms: self.expires_ms,
            command: self.command,
            cancelled: self.cancelled,
            pending: self.pending@,
            ready: self.ready@.map_values(|g: Vec<String>| g@),
        }
    }
}

impl Subscription {
    /// A live subscription with no frame received yet. `command` is the
    /// message that registers it upstream, re-issued after a reconnect.
    /// Groups of zero frames are refused.
    pub fn new(filter: RawValidator, chunk_size: usize, expires_ms: Option<u64>, command: Option<String>) -> (r: Result<Subscription, SubscribeError>)
        ensures
            chunk_size == 0 ==> r is Err && r->Err_0 == SubscribeError::InvalidChunkSize,
            chunk_size > 0 ==> r is Ok && r->Ok_0@ == (SubscriptionView {
                filter,
                chunk_size: chunk_size as nat,
                expires_ms,
                command,
                cancelled: false,
                pending: seq![],
                ready: seq![],
            }) && view_wf(r->Ok_0@),
    {
        if chunk_size == 0 {
            return Err(SubscribeError::InvalidChunkSize);
        }
        let r = Subscription {
            filter,
            chunk_size,
            expires_ms,
            command,
            cancelled: false,
            pending: Vec::new(),
            ready: Vec::new(),
        };
        proof {
            assert(r.ready@.map_values(|g: Vec<String>| g@) =~= seq![]);
        }
        Ok(r)
    }

    /// Offers one inbound frame; returns whether the subscription took it.
    pub fn offer(&mut self, frame: &Frame) -> (taken: bool)
        requires
            view_wf(old(self)@),
        ensures
            final(self)@ == offered(old(self)@, *frame),
            taken == (!old(self)@.cancelled && accepts(old(self)@.filter, *frame)),
            view_wf(final(self)@),
    {
        if self.cancelled || !self.filter.validate(frame) {
            return false;
        }
        let ghost old_ready = self.ready@;
        self.pending.push(frame.text.clone());
        if self.pending.len() == self.chunk_size {
            let mut group: Vec<String> = Vec::new();
            std::mem::swap(&mut group, &mut self.pending);
            self.ready.push(group);
            proof {
                assert(self.ready@.map_values(|g: Vec<String>| g@)
                    =~= old_ready.map_values(|g: Vec<String>| g@).push(group@));
            }
        }
        true
    }

    /// Takes the oldest complete group, if there is one.
    pub fn next_group(&mut self) -> (r: Option<Vec<String>>)
        requires
            view_wf(old(self)@),
        ensures
            old(self)@.ready.len() == 0 ==> r is None && final(self)@ == old(self)@,
            old(self)@.ready.len() > 0 ==> r is Some && r->Some_0@ == old(self)@.ready[0]
                && final(self)@ == (SubscriptionView { ready: old(self)@.ready.drop_first(), ..old(self)@ }),
            view_wf(final(self)@),
    {
        if self.ready.len() == 0 {
            return None;
        }
        let ghost old_ready = self.ready@;
        let g = self.ready.remove(0);
        proof {
            assert(self.ready@.map_values(|g: Vec<String>| g@)
                =~= old_ready.map_values(|g: Vec<String>| g@).drop_first());
        }
        Some(g)
    }

    /// Stops further delivery. Returns whether this call changed anything:
    /// a second cancellation is a no-op.
    pub fn cancel(&mut self) -> (changed: bool)
        requires
            view_wf(old(self)@),
        ensures
            final(self)@ == cancelled(old(self)@),
            changed == !old(self)@.cancelled,
            view_wf(final(self)@),
    {
        if self.cancelled {
            return false;
        }
        self.cancelled = true;
        self.pending = Vec::new();
        true
    }

    /// Advances the clock: a subscription whose expiry has come is cancelled.
    pub fn on_tick(&mut self, now_ms: u64) -> (expired: bool)
        requires
            view_wf(old(self)@),
        ensures
            expired == (!old(self)@.cancelled && old(self)@.expires_ms is Some
                && now_ms >= old(self)@.expires_ms->Some_0),
            expired ==> final(self)@ == cancelled(old(self)@),
            !expired ==> final(self)@ == old(self)@,
            view_wf(final(self)@),
    {
        match self.expires_ms {
            Some(t) => {
                if !self.cancelled && now_ms >= t {
                    self.cancel()
                } else {
                    false
                }
            },
            None => false,
        }
    }

    /// Whether the feed has ended: cancelled, and every complete group taken.
    pub fn is_finished(&self) -> (r: bool)
        ensures
            r == (self@.cancelled && self@.ready.len() == 0),
    {
        self.cancelled && self.ready.len() == 0
    }

    /// Whether the subscription still receives frames.
    pub fn is_live(&self) -> (r: bool)
        ensures
            r == !self@.cancelled,
    {
        !self.cancelled
    }
}

/// Cancelling twice leaves the subscription as cancelling once does.
pub proof fn cancel_is_idempotent(s: SubscriptionView)
    ensures
        cancelled(cancelled(s)) == cancelled(s),
{
}

/// Taking a frame keeps every complete group at exactly `chunk_size` texts;
/// a group is completed by the frame that brings it to that size.
pub proof fn groups_are_exact(s: SubscriptionView, f: Frame)
    requires
        view_wf(s),
    ensures
        view_wf(offered(s, f)),
        forall|i: int| 0 <= i < offered(s, f).ready.len() ==> (#[trigger] offered(s, f).ready[i]).len() == s.chunk_size,
        offered(s, f).ready.len() > s.ready.len() ==> offered(s, f).ready.last() == s.pending.push(f.text)
            && offered(s, f).pending.len() == 0,
{
}

/// Every text that the subscription has taken and not yet handed out, in
/// order of arrival: the complete groups, then the group being filled.
pub open spec fn held(s: SubscriptionView) -> Seq<String> {
    s.ready.flatten() + s.pending
}

/// A live subscription takes each frame that its filter accepts, after
/// everything it already holds, and ignores each other frame.
pub proof fn offer_appends(s: SubscriptionView, f: Frame)
    ensures
        !s.cancelled && accepts(s.filter, f) ==> held(offered(s, f)) == held(s).push(f.text),
        s.cancelled || !accepts(s.filter, f) ==> offered(s, f) == s,
{
    if !s.cancelled && accepts(s.filter, f) {
        if s.pending.len() + 1 == s.chunk_size {
            s.ready.lemma_flatten_push(s.pending.push(f.text));
            assert(held(offered(s, f)) =~= held(s).push(f.text));
        } else {
            assert(held(offered(s, f)) =~= held(s).push(f.text));
        }
    }
}

/// Two live subscriptions with the same filter each take their own copy of
/// every frame that the filter accepts: neither takes it from the other.
pub proof fn fan_out(a: SubscriptionView, b: SubscriptionView, f: Frame)
    requires
        a.filter == b.filter,
        !a.cancelled,
        !b.cancelled,
        accepts(a.filter, f),
    ensures
        held(offered(a, f)) == held(a).push(f.text),
        held(offered(b, f)) == held(b).push(f.text),
{
    offer_appends(a, f);
    offer_appends(b, f);
}

/// Why a subscription could not be registered.
#[derive(Debug, Clone, Copy, PartialEq, Eq, Structural)]
pub enum SubscribeError {
    /// Groups of zero frames cannot be formed.
    InvalidChunkSize,
}

/// The upstream commands of the live subscriptions among `subs`, in order.
pub open spec fn live_commands(subs: Seq<SubscriptionView>) -> Seq<String>
    decreases subs.len(),
{
    if subs.len() == 0 {
        seq![]
    } else {
        let rest = live_commands(subs.drop_last());
        let s = subs.last();
        if !s.cancelled && s.command is Some {
            rest.push(s.command->Some_0)
        } else {
            rest
        }
    }
}

/// All subscriptions of one session, each known by its index.
pub struct SubscriptionRegistry {
    subs: Vec<Subscription>,
}

impl View for SubscriptionRegistry {
    type V = Seq<SubscriptionView>;

    closed spec fn view(&self) -> Seq<SubscriptionView> {
        self.subs@.map_values(|s: Subscription| s@)
    }
}

impl SubscriptionRegistry {
    /// Every subscription keeps its groups well formed.
    pub open spec fn wf(&self) -> bool {
        forall|i: int| 0 <= i < self@.len() ==> view_wf(#[trigger] self@[i])
    }

    /// A registry with no subscription.
    pub fn new() -> (r: SubscriptionRegistry)
        ensures
            r@.len() == 0,
            r.wf(),
    {
        let r = SubscriptionRegistry { subs: Vec::new() };
        proof {
            assert(r@ =~= seq![]);
        }
        r
    }

    /// The number of subscriptions ever registered.
    pub fn len(&self) -> (r: usize)
        ensures
            r == self@.len(),
    {
        self.subs.len()
    }

    /// Registers a live subscription and returns its index.
    pub fn subscribe(
        &mut self,
        filter: RawValidator,
        chunk_size: usize,
        expires_ms: Option<u64>,
        command: Option<String>,
    ) -> (r: Result<usize, SubscribeError>)
        requires
            old(self).wf(),
        ensures
            final(self).wf(),
            chunk_size == 0 ==> r == Err::<usize, SubscribeError>(SubscribeError::InvalidChunkSize)
                && final(self)@ == old(self)@,
            chunk_size > 0 ==> r is Ok && r->Ok_0 == old(self)@.len()
                && final(self)@ == old(self)@.push(SubscriptionView {
                    filter,
                    chunk_size: chunk_size as nat,
                    expires_ms,
                    command,
                    cancelled: false,
                    pending: seq![],
                    ready: seq![],
                }),
    {
        let s = match Subscription::new(filter, chunk_size, expires_ms, command) {
            Ok(s) => s,
            Err(e) => {
                return Err(e);
            },
        };
        let id = self.subs.len();
        let ghost old_subs = self.subs@;
        let ghost old_view = self@;
        self.subs.push(s);
        proof {
            assert(self@ =~= old_subs.map_values(|s: Subscription| s@).push(s@));
            assert forall|i: int| 0 <= i < self@.len() implies view_wf(#[trigger] self@[i]) by {
                if i < old_view.len() {
                    assert(self@[i] == old_view[i]);
                }
            }
        }
        Ok(id)
    }

    /// Offers one inbound frame to every subscription.
    pub fn dispatch(&mut self, frame: &Frame)
        requires
            old(self).wf(),
        ensures
            final(self).wf(),
            final(self)@.len() == old(self)@.len(),
            forall|i: int| 0 <= i < old(self)@.len() ==> #[trigger] final(self)@[i] == offered(old(self)@[i], *frame),
    {
        let ghost start = self@;
        let n = self.subs.len();
        let mut i: usize = 0;
        while i < n
            invariant
                n == self@.len(),
                n == start.len(),
                i <= n,
                self.wf(),
                forall|k: int| 0 <= k < i ==> #[trigger] self@[k] == offered(start[k], *frame),
                forall|k: int| i <= k < n ==> #[trigger] self@[k] == start[k],
            decreases n - i,
        {
            let ghost before = self.subs@;
            assert(view_wf(self@[i as int]));
            self.subs[i].offer(frame);
            proof {
                assert forall|k: int| 0 <= k < n implies #[trigger] self@[k] == (if k == i {
                    offered(start[k], *frame)
                } else {
                    before.map_values(|s: Subscription| s@)[k]
                }) by {}
            }
            i = i + 1;
        }
    }

    /// Cancels subscription `id`. Returns whether anything changed: an
    /// unknown id, or one already cancelled, leaves the registry as it is.
    pub fn cancel(&mut self, id: usize) -> (changed: bool)
        requires
            old(self).wf(),
        ensures
            final(self).wf(),
            id >= old(self)@.len() ==> !changed && final(self)@ == old(self)@,
            id < old(self)@.len() ==> changed == !old(self)@[id as int].cancelled
                && final(self)@ == old(self)@.update(id as int, cancelled(old(self)@[id as int])),
    {
        if id >= self.subs.len() {
            return false;
        }
        let ghost before = self.subs@;
        assert(view_wf(self@[id as int]));
        let changed = self.subs[id].cancel();
        proof {
            assert(self@ =~= before.map_values(|s: Subscription| s@).update(id as int, cancelled(before[id as int]@)));
        }
        changed
    }

    /// Takes the oldest complete group of subscription `id`, if any.
    pub fn next_group(&mut self, id: usize) -> (r: Option<Vec<String>>)
        requires
            old(self).wf(),
        ensures
            final(self).wf(),
            id >= old(self)@.len() || old(self)@[id as int].ready.len() == 0 ==> r is None
                && final(self)@ == old(self)@,
            id < old(self)@.len() && old(self)@[id as int].ready.len() > 0 ==> r is Some
                && r->Some_0@ == old(self)@[id as int].ready[0]
                && final(self)@ == old(self)@.update(id as int, SubscriptionView {
                    ready: old(self)@[id as int].ready.drop_first(),
                    ..old(self)@[id as int]
                }),
    {
        if id >= self.subs.len() {
            return None;
        }
        let ghost before = self.subs@;
        assert(view_wf(self@[id as int]));
        let r = self.subs[id].next_group();
        proof {
            if r is None {
                assert(self@ =~= before.map_values(|s: Subscription| s@));
            } else {
                assert(self@ =~= before.map_values(|s: Subscription| s@).update(id as int, self.subs@[id as int]@));
            }
        }
        r
    }

    /// Whether the feed of subscription `id` has ended (an unknown id has).
    pub fn is_finished(&self, id: usize) -> (r: bool)
        ensures
            id >= self@.len() ==> r,
            id < self@.len() ==> r == (self@[id as int].cancelled && self@[id as int].ready.len() == 0),
    {
        if id >= self.subs.len() {
            return true;
        }
        self.subs[id].is_finished()
    }

    /// The commands to send after a reconnect so that upstream feeds every
    /// live subscription again. The registry itself is unchanged: each
    /// subscription keeps its index, its groups and its filter.
    pub fn resubscribe_commands(&self) -> (r: Vec<String>)
        ensures
            r@ == live_commands(self@),
    {
        let mut r: Vec<String> = Vec::new();
        let mut i: usize = 0;
        while i < self.subs.len()
            invariant
                i <= self@.len(),
                r@ == live_commands(self@.subrange(0, i as int)),
            decreases self@.len() - i,
        {
            let s = &self.subs[i];
            proof {
                assert(self@.subrange(0, i + 1).drop_last() =~= self@.subrange(0, i as int));
                assert(self@.subrange(0, i + 1).last() == s@);
            }
            if !s.cancelled {
                match &s.command {
                    Some(c) => {
                        r.push(c.clone());
                    },
                    None => {},
                }
            }
            i = i + 1;
        }
        assert(self@.subrange(0, self@.len() as int) =~= self@);
        r
    }

    /// Advances the clock: every live subscription whose expiry has come is
    /// cancelled, and its feed ends once its complete groups are taken.
    pub fn on_tick(&mut self, now_ms: u64)
        requires
            old(self).wf(),
        ensures
            final(self).wf(),
            final(self)@.len() == old(self)@.len(),
            forall|i: int| 0 <= i < old(self)@.len() ==> #[trigger] final(self)@[i] == expired_at(old(self)@[i], now_ms),
    {
        let ghost start = self@;
        let n = self.subs.len();
        let mut i: usize = 0;
        while i < n
            invariant
                n == self@.len(),
                n == start.len(),
                i <= n,
                self.wf(),
                forall|k: int| 0 <= k < i ==> #[trigger] self@[k] == (if !start[k].cancelled
                    && start[k].expires_ms is Some && now_ms >= start[k].expires_ms->Some_0 {
                    cancelled(start[k])
                } else {
                    start[k]
                }),
                forall|k: int| i <= k < n ==> #[trigger] self@[k] == start[k],
            decreases n - i,
        {
            let ghost before = self.subs@;
            assert(view_wf(self@[i as int]));
            self.subs[i].on_tick(now_ms);
            proof {
                assert forall|k: int| 0 <= k < n && k != i implies #[trigger] self@[k]
                    == before.map_values(|s: Subscription| s@)[k] by {}
            }
            i = i + 1;
        }
    }

    /// Session shutdown: every subscription is cancelled.
    pub fn close_all(&mut self)
        requires
            old(self).wf(),
        ensures
            final(self).wf(),
            final(self)@.len() == old(self)@.len(),
            forall|i: int| 0 <= i < old(self)@.len() ==> #[trigger] final(self)@[i] == cancelled(old(self)@[i]),
    {
        let ghost start = self@;
        let n = self.subs.len();
        let mut i: usize = 0;
        while i < n
            invariant
                n == self@.len(),
                n == start.len(),
                i <= n,
                self.wf(),
                forall|k: int| 0 <= k < i ==> #[trigger] self@[k] == cancelled(start[k]),
                forall|k: int| i <= k < n ==> #[trigger] self@[k] == start[k],
            decreases n - i,
        {
            let ghost before = self.subs@;
            assert(view_wf(self@[i as int]));
            self.subs[i].cancel();
            proof {
                assert forall|k: int| 0 <= k < n && k != i implies #[trigger] self@[k]
                    == before.map_values(|s: Subscription| s@)[k] by {}
            }
            i = i + 1;
        }
    }
}

/// A reconnect re-issues the upstream command of every live subscription,
/// so it goes on receiving frames without a new subscribe call.
pub proof fn reconnect_resubscribes(subs: Seq<SubscriptionView>, i: int)
    requires
        0 <= i < subs.len(),
        !subs[i].cancelled,
        subs[i].command is Some,
    ensures
        live_commands(subs).contains(subs[i].command->Some_0),
    decreases subs.len(),
{
    let rest = live_commands(subs.drop_last());
    if i == subs.len() - 1 {
        assert(live_commands(subs).last() == subs[i].command->Some_0);
        assert(live_commands(subs)[live_commands(subs).len() - 1] == subs[i].command->Some_0);
    } else {
        assert(subs.drop_last()[i] == subs[i]);
        reconnect_resubscribes(subs.drop_last(), i);
        let j = choose|j: int| 0 <= j < rest.len() && rest[j] == subs[i].command->Some_0;
        assert(live_commands(subs)[j] == rest[j]);
    }
}

/// A subscription after the frames `frames` were offered to it, in order.
pub open spec fn offered_all(s: SubscriptionView, frames: Seq<Frame>) -> SubscriptionView
    decreases frames.len(),
{
    if frames.len() == 0 {
        s
    } else {
        offered(offered_all(s, frames.drop_last()), frames.last())
    }
}

/// The texts of the frames of `frames` that `v` accepts, in order.
pub open spec fn accepted_texts(v: RawValidator, frames: Seq<Frame>) -> Seq<String>
    decreases frames.len(),
{
    if frames.len() == 0 {
        seq![]
    } else if accepts(v, frames.last()) {
        accepted_texts(v, frames.drop_last()).push(frames.last().text)
    } else {
        accepted_texts(v, frames.drop_last())
    }
}

/// Over any run of frames, a live subscription takes, in arrival order,
/// exactly the frames that its filter accepts, skipping and repeating none,
/// and every complete group holds exactly `chunk_size` of them.
pub proof fn takes_every_accepted_frame(s: SubscriptionView, frames: Seq<Frame>)
    requires
        view_wf(s),
        !s.cancelled,
    ensures
        held(offered_all(s, frames)) == held(s) + accepted_texts(s.filter, frames),
        view_wf(offered_all(s, frames)),
        offered_all(s, frames).filter == s.filter,
        !offered_all(s, frames).cancelled,
        offered_all(s, frames).chunk_size == s.chunk_size,
    decreases frames.len(),
{
    if frames.len() == 0 {
        assert(held(s) + accepted_texts(s.filter, frames) =~= held(s));
    } else {
        let prefix = frames.drop_last();
        takes_every_accepted_frame(s, prefix);
        let mid = offered_all(s, prefix);
        offer_appends(mid, frames.last());
        groups_are_exact(mid, frames.last());
        if accepts(s.filter, frames.last()) {
            assert(held(s) + accepted_texts(s.filter, frames)
                =~= (held(s) + accepted_texts(s.filter, prefix)).push(frames.last().text));
        }
    }
}

/// Fan-out over any run of frames: two live subscriptions with the same
/// filter each take every accepted frame, in order; neither takes one from
/// the other.
pub proof fn fan_out_over_frames(a: SubscriptionView, b: SubscriptionView, frames: Seq<Frame>)
    requires
        view_wf(a),
        view_wf(b),
        a.filter == b.filter,
        !a.cancelled,
        !b.cancelled,
    ensures
        held(offered_all(a, frames)) == held(a) + accepted_texts(a.filter, frames),
        held(offered_all(b, frames)) == held(b) + accepted_texts(a.filter, frames),
{
    takes_every_accepted_frame(a, frames);
    takes_every_accepted_frame(b, frames);
}

} // verus!
