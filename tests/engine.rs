use binary_options_core::connection::{Connection, ConnectionAction, ConnectionEvent, ConnectionState};
use binary_options_core::correlator::{PendingRequest, ReconnectPolicy, RequestError, TickAction};
use binary_options_core::stream::{next_stream, Feed, StreamNext, StreamStop};
use binary_options_core::subscription::{SubscribeError, Subscription, SubscriptionRegistry};
use binary_options_core::validator::{Frame, RawValidator};

fn frame(s: &str) -> Frame {
    Frame::new(s.to_string())
}

fn request(timeout: u64, retries: u32, now: u64) -> PendingRequest {
    PendingRequest::new(
        "ping".to_string(),
        RawValidator::starts_with("pong".to_string()),
        timeout,
        retries,
        now,
    )
}

#[test]
fn first_matching_frame_wins() {
    let mut r = request(1000, 0, 0);
    let frames = vec![frame("noise"), frame("more noise"), frame("pong 1"), frame("pong 2")];
    r.feed(&frames);
    assert_eq!(r.outcome, Some(Ok("pong 1".to_string())));
    assert!(!r.on_frame(&frame("pong 3")));
    assert_eq!(r.outcome, Some(Ok("pong 1".to_string())));
}

#[test]
fn no_match_leaves_request_open() {
    let mut r = request(1000, 0, 0);
    r.feed(&vec![frame("a"), frame("b")]);
    assert_eq!(r.outcome, None);
    assert!(!r.is_done());
}

#[test]
fn timeout_without_retries_fires_at_deadline() {
    let mut r = request(500, 0, 1000);
    assert_eq!(r.deadline_ms, 1500);
    assert_eq!(r.on_tick(1499), TickAction::Wait);
    assert_eq!(r.outcome, None);
    assert_eq!(r.on_tick(1500), TickAction::Expired);
    assert_eq!(r.outcome, Some(Err(RequestError::Timeout)));
    assert_eq!(r.on_tick(5000), TickAction::Wait);
    assert!(!r.on_frame(&frame("pong")));
}

#[test]
fn retries_resend_then_expire() {
    let mut r = request(100, 2, 0);
    assert_eq!(r.on_tick(100), TickAction::Resend("ping".to_string()));
    assert_eq!(r.deadline_ms, 200);
    assert_eq!(r.retries_left, 1);
    assert_eq!(r.on_tick(250), TickAction::Resend("ping".to_string()));
    assert_eq!(r.deadline_ms, 350);
    assert_eq!(r.on_tick(349), TickAction::Wait);
    assert_eq!(r.on_tick(350), TickAction::Expired);
    assert_eq!(r.outcome, Some(Err(RequestError::Timeout)));
}

#[test]
fn deadline_saturates() {
    let r = request(10, 0, u64::MAX - 3);
    assert_eq!(r.deadline_ms, u64::MAX);
}

#[test]
fn connection_loss_follows_policy() {
    let mut a = request(100, 0, 0);
    assert_eq!(a.on_connection_lost(ReconnectPolicy::Resend), Some("ping".to_string()));
    assert_eq!(a.outcome, None);
    let mut b = request(100, 0, 0);
    assert_eq!(b.on_connection_lost(ReconnectPolicy::FailFast), None);
    assert_eq!(b.outcome, Some(Err(RequestError::ConnectionLost)));
    let mut c = request(100, 0, 0);
    c.on_close();
    assert_eq!(c.outcome, Some(Err(RequestError::Closed)));
    c.on_close();
    assert_eq!(c.outcome, Some(Err(RequestError::Closed)));
}

#[test]
fn two_subscriptions_both_receive_every_match() {
    let mut reg = SubscriptionRegistry::new();
    let a = reg.subscribe(RawValidator::contains("EURUSD".to_string()), 1, None, None).unwrap();
    let b = reg.subscribe(RawValidator::contains("EURUSD".to_string()), 1, None, None).unwrap();
    assert_eq!((a, b), (0, 1));
    for f in ["EURUSD 1", "GBPUSD 2", "EURUSD 3"] {
        reg.dispatch(&frame(f));
    }
    for id in [a, b] {
        assert_eq!(reg.next_group(id), Some(vec!["EURUSD 1".to_string()]));
        assert_eq!(reg.next_group(id), Some(vec!["EURUSD 3".to_string()]));
        assert_eq!(reg.next_group(id), None);
    }
}

#[test]
fn cancelling_twice_is_a_no_op() {
    let mut reg = SubscriptionRegistry::new();
    let id = reg.subscribe(RawValidator::new(), 1, None, None).unwrap();
    reg.dispatch(&frame("x"));
    assert!(reg.cancel(id));
    assert!(!reg.cancel(id));
    assert!(!reg.cancel(42));
    reg.dispatch(&frame("y"));
    assert_eq!(reg.next_group(id), Some(vec!["x".to_string()]));
    assert_eq!(reg.next_group(id), None);
    assert!(reg.is_finished(id));
}

#[test]
fn chunks_hold_exactly_k_and_remainder_is_dropped() {
    let mut s = Subscription::new(RawValidator::starts_with("q".to_string()), 3, None, None).unwrap();
    for i in 0..7 {
        assert!(s.offer(&frame(&format!("q{}", i))));
        assert!(!s.offer(&frame("other")));
    }
    assert_eq!(s.next_group(), Some(vec!["q0".to_string(), "q1".to_string(), "q2".to_string()]));
    assert_eq!(s.next_group(), Some(vec!["q3".to_string(), "q4".to_string(), "q5".to_string()]));
    assert_eq!(s.next_group(), None);
    assert!(s.cancel());
    assert_eq!(s.next_group(), None);
    assert!(s.is_finished());
}

#[test]
fn zero_chunk_size_is_refused() {
    assert_eq!(
        Subscription::new(RawValidator::new(), 0, None, None).err(),
        Some(SubscribeError::InvalidChunkSize)
    );
    let mut reg = SubscriptionRegistry::new();
    assert_eq!(
        reg.subscribe(RawValidator::new(), 0, None, None).unwrap_err(),
        SubscribeError::InvalidChunkSize
    );
    assert_eq!(reg.len(), 0);
}

#[test]
fn timed_subscription_ends_at_expiry() {
    let mut reg = SubscriptionRegistry::new();
    let id = reg.subscribe(RawValidator::new(), 1, Some(1000), None).unwrap();
    reg.on_tick(999);
    reg.dispatch(&frame("a"));
    assert!(!reg.is_finished(id));
    reg.on_tick(1000);
    reg.dispatch(&frame("b"));
    assert_eq!(reg.next_group(id), Some(vec!["a".to_string()]));
    assert_eq!(reg.next_group(id), None);
    assert!(reg.is_finished(id));
}

#[test]
fn resubscribe_commands_cover_live_subscriptions() {
    let mut reg = SubscriptionRegistry::new();
    reg.subscribe(RawValidator::new(), 1, None, Some("sub A".to_string())).unwrap();
    let b = reg.subscribe(RawValidator::new(), 1, None, Some("sub B".to_string())).unwrap();
    reg.subscribe(RawValidator::new(), 1, None, None).unwrap();
    reg.subscribe(RawValidator::new(), 1, None, Some("sub D".to_string())).unwrap();
    reg.cancel(b);
    assert_eq!(reg.resubscribe_commands(), vec!["sub A".to_string(), "sub D".to_string()]);
}

#[test]
fn next_stream_maps_items_and_ends() {
    assert_eq!(next_stream(Some(Ok("a".to_string())), true), Ok("a".to_string()));
    assert_eq!(
        next_stream(Some(Err("boom".to_string())), false),
        Err(StreamStop { sync: false, message: "boom".to_string() })
    );
    assert_eq!(
        next_stream(None, true),
        Err(StreamStop { sync: true, message: "Stream exhausted".to_string() })
    );
}

#[test]
fn feed_is_fused_after_error() {
    let mut f = Feed::new();
    assert_eq!(f.poll(), StreamNext::Pending);
    f.push(Ok("1".to_string()));
    f.push(Err("bad".to_string()));
    f.push(Ok("2".to_string()));
    assert_eq!(f.poll(), StreamNext::Item("1".to_string()));
    assert_eq!(f.poll(), StreamNext::Failed("bad".to_string()));
    assert_eq!(f.poll(), StreamNext::Exhausted);
    assert_eq!(f.poll(), StreamNext::Exhausted);
}

#[test]
fn feed_ends_after_close() {
    let mut f = Feed::new();
    f.push(Ok("1".to_string()));
    f.close();
    f.push(Ok("late".to_string()));
    assert_eq!(f.poll(), StreamNext::Item("1".to_string()));
    assert_eq!(f.poll(), StreamNext::Exhausted);
    assert_eq!(f.poll(), StreamNext::Exhausted);
}

#[test]
fn connection_happy_path_and_reconnect() {
    let (mut c, first) = Connection::new(2, 3, 5000);
    assert_eq!(first, ConnectionAction::Connect(0));
    assert_eq!(c.step(ConnectionEvent::Connected), ConnectionAction::Authenticate);
    assert_eq!(c.step(ConnectionEvent::AuthAccepted), ConnectionAction::Resubscribe);
    assert!(c.is_open());
    assert_eq!(c.step(ConnectionEvent::TransportLost), ConnectionAction::ConnectionLost(5000));
    assert_eq!(c.state, ConnectionState::Degraded);
    assert_eq!(c.step(ConnectionEvent::DelayElapsed), ConnectionAction::Connect(0));
    assert_eq!(c.state, ConnectionState::Connecting);
}

#[test]
fn connection_gives_up_after_budget() {
    let (mut c, _) = Connection::new(2, 2, 100);
    assert_eq!(c.step(ConnectionEvent::ConnectFailed), ConnectionAction::Backoff(100));
    assert_eq!(c.state, ConnectionState::Reconnecting);
    assert_eq!(c.step(ConnectionEvent::DelayElapsed), ConnectionAction::Connect(1));
    assert_eq!(c.step(ConnectionEvent::Connected), ConnectionAction::Authenticate);
    assert_eq!(c.step(ConnectionEvent::AuthRejected), ConnectionAction::GiveUp);
    assert_eq!(c.state, ConnectionState::Closed);
    assert_eq!(c.step(ConnectionEvent::Connected), ConnectionAction::Nothing);
    assert_eq!(c.step(ConnectionEvent::Shutdown), ConnectionAction::Nothing);
    assert_eq!(c.state, ConnectionState::Closed);
}

#[test]
fn connection_defaults_and_shutdown() {
    let (mut c, _) = Connection::new(0, 0, 1);
    assert_eq!((c.endpoints, c.max_failures), (1, 1));
    assert_eq!(c.step(ConnectionEvent::AuthAccepted), ConnectionAction::Nothing);
    assert_eq!(c.step(ConnectionEvent::Shutdown), ConnectionAction::Close);
    assert_eq!(c.state, ConnectionState::Closed);
}
