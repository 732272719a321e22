//! The consumer's view of a feed: a fused sequence of fallible items.
//!
//! The producer appends items and eventually closes the feed; the consumer
//! polls. An in-stream error or the end of the feed stops the consumer for
//! good: every later poll reports the end again.
use vstd::prelude::*;
use std::collections::VecDeque;

verus! {

/// The outcome of one poll.
#[derive(Debug, Clone, PartialEq, Eq)]
pub enum StreamNext {
    /// The next item.
    Item(String),
    /// Nothing yet; the feed is still open.
    Pending,
    /// The feed has ended.
    Exhausted,
    /// The feed failed with this message; it has ended.
    Failed(String),
}

/// Why an iteration over a feed stopped, as the host's iteration protocol
/// expects it: from a blocking (`sync`) or a suspending consumer, with a message.
#[derive(Debug, Clone, PartialEq, Eq)]
pub struct StreamStop {
    pub sync: bool,
    pub message: String,
}

/// The message given when a feed ends without an error.
pub open spec fn exhausted_message() -> Seq<char> {
    "Stream exhausted"@
}

/// Maps one polled item of a feed (`None` once it has ended) onto the result
/// that the consumer sees.
pub fn next_stream(item: Option<Result<String, String>>, sync: bool) -> (r: Result<String, StreamStop>)
    ensures
        match item {
            Some(Ok(x)) => r == Ok::<String, StreamStop>(x),
            Some(Err(e)) => r is Err && r->Err_0.sync == sync && r->Err_0.message == e,
            None => r is Err && r->Err_0.sync == sync && r->Err_0.message@ == exhausted_message(),
        },
{
    match item {
        Some(Ok(x)) => Ok(x),
        Some(Err(e)) => Err(StreamStop { sync, message: e }),
        None => Err(StreamStop { sync, message: "Stream exhausted".to_owned() }),
    }
}

/// A feed as plain values.
pub struct FeedView {
    pub buffered: Seq<Result<String, String>>,
    pub closed: bool,
    pub terminated: bool,
}

/// One feed, buffered between its producer and its single consumer.
pub struct Feed {
    buffered: VecDeque<Result<String, String>>,
    closed: bool,
    terminated: bool,
}

impl View for Feed {
    type V = FeedView;

    closed spec fn view(&self) -> FeedView {
        FeedView { buffered: self.buffered@, closed: self.closed, terminated: self.terminated }
    }
}

/// The feed and the outcome after one poll.
pub open spec fn polled(f: FeedView) -> (FeedView, StreamNext) {
    if f.terminated {
        (f, StreamNext::Exhausted)
    } else if f.buffered.len() > 0 {
        match f.buffered[0] {
            Ok(x) => (FeedView { buffered: f.buffered.drop_first(), ..f }, StreamNext::Item(x)),
            Err(e) => (FeedView { buffered: f.buffered.drop_first(), terminated: true, ..f }, StreamNext::Failed(e)),
        }
    } else if f.closed {
        (FeedView { terminated: true, ..f }, StreamNext::Exhausted)
    } else {
        (f, StreamNext::Pending)
    }
}

impl Feed {
    /// An open feed with nothing buffered.
    pub fn new() -> (r: Feed)
        ensures
            r@ == (FeedView { buffered: seq![], closed: false, terminated: false }),
    {
        Feed { buffered: VecDeque::new(), closed: false, terminated: false }
    }

    /// The producer appends an item; nothing is appended after `close`.
    pub fn push(&mut self, item: Result<String, String>)
        ensures
            old(self)@.closed ==> final(self)@ == old(self)@,
            !old(self)@.closed ==> final(self)@ == (FeedView { buffered: old(self)@.buffered.push(item), ..old(self)@ }),
    {
        if !self.closed {
            self.buffered.push_back(item);
        }
    }

    /// The producer ends the feed; buffered items stay to be polled.
    pub fn close(&mut self)
        ensures
            final(self)@ == (FeedView { closed: true, ..old(self)@ }),
    {
        self.closed = true;
    }

    /// The consumer polls once.
    pub fn poll(&mut self) -> (r: StreamNext)
        ensures
            (final(self)@, r) == polled(old(self)@),
    {
        if self.terminated {
            return StreamNext::Exhausted;
        }
        match self.buffered.pop_front() {
            Some(Ok(x)) => StreamNext::Item(x),
            Some(Err(e)) => {
                self.terminated = true;
                StreamNext::Failed(e)
            },
            None => {
                if self.closed {
                    self.terminated = true;
                    StreamNext::Exhausted
                } else {
                    StreamNext::Pending
                }
            },
        }
    }
}

/// A feed that has reported its end or an error never yields again: every
/// later poll reports the end and changes nothing.
pub proof fn feed_is_fused(f: FeedView)
    ensures
        polled(f).1 is Exhausted || polled(f).1 is Failed ==> polled(polled(f).0) == (polled(f).0, StreamNext::Exhausted),
{
}

} // verus!
