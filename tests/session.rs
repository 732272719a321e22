use binary_options_core::config::{ConfigError, PyConfig};
use binary_options_core::connection::{ConnectionAction, ConnectionEvent, ConnectionState};
use binary_options_core::correlator::RequestError;
use binary_options_core::history::{clock_millis, history_index, LoadHistoryPeriod};
use binary_options_core::logs::{LogLevel, Logger};
use binary_options_core::pocketoption::{RawPocketOption, RawStreamIterator, SessionError};
use binary_options_core::stream::StreamStop;
use binary_options_core::validator::{Frame, RawValidator};

fn frame(s: &str) -> Frame {
    Frame::new(s.to_string())
}

fn open_session() -> RawPocketOption {
    let mut s = RawPocketOption::new("auth-credential".to_string(), None).unwrap();
    assert_eq!(s.handle(ConnectionEvent::Connected), ConnectionAction::Authenticate);
    assert_eq!(s.credential(), "auth-credential");
    assert_eq!(s.handle(ConnectionEvent::AuthAccepted), ConnectionAction::Resubscribe);
    assert_eq!(s.state(), ConnectionState::Open);
    s
}

#[test]
fn config_defaults() {
    let c = PyConfig::new();
    assert_eq!(c.max_allowed_loops, 100);
    assert_eq!(c.sleep_interval, 100);
    assert_eq!(c.reconnect_time, 5);
    assert_eq!(c.connection_initialization_timeout_secs, 30);
    assert_eq!(c.timeout_secs, 30);
    assert!(c.urls.is_empty());
}

#[test]
fn config_build_serializes_endpoints() {
    let mut c = PyConfig::new();
    c.urls = vec!["wss://Example.com".to_string(), "https://a.b/c?d=1".to_string()];
    let built = c.build().unwrap();
    assert_eq!(built.urls, vec!["wss://example.com/".to_string(), "https://a.b/c?d=1".to_string()]);
    assert_eq!(built.timeout_s, 30);
}

#[test]
fn config_build_names_first_bad_endpoint() {
    let mut c = PyConfig::new();
    c.urls = vec!["wss://ok.example/".to_string(), "not a url".to_string(), "also bad".to_string()];
    assert!(matches!(c.build(), Err(ConfigError::InvalidUrl(ref u)) if u == "not a url"));
}

#[test]
fn session_with_bad_url_is_refused() {
    let r = RawPocketOption::new_with_url("s".to_string(), "::".to_string(), None);
    assert!(matches!(r, Err(SessionError::Config(ConfigError::InvalidUrl(ref u))) if u == "::"));
    let ok = RawPocketOption::new_with_url("s".to_string(), "wss://venue.example/ws".to_string(), None);
    assert!(ok.is_ok());
}

#[test]
fn correlated_send_resolves_with_first_match() {
    let mut s = open_session();
    s.take_outbox();
    let id = s
        .create_raw_order_with_timeout("42[\"ask\"]".to_string(), RawValidator::contains("answer".to_string()), 1000, 0)
        .unwrap();
    assert_eq!(s.take_outbox(), vec!["42[\"ask\"]".to_string()]);
    assert_eq!(s.order_result(id), Ok(None));
    s.on_frame(&frame("unrelated"));
    s.on_frame(&frame("answer 1"));
    s.on_frame(&frame("answer 2"));
    assert_eq!(s.order_result(id), Ok(Some(Ok("answer 1".to_string()))));
    assert_eq!(s.order_result(id + 1), Err(SessionError::UnknownId));
}

#[test]
fn correlated_send_times_out_and_retries() {
    let mut s = open_session();
    s.take_outbox();
    let a = s.create_raw_order_with_timeout_and_retry("m".to_string(), RawValidator::contains("zzz".to_string()), 100, 1, 0).unwrap();
    let b = s.create_raw_order("n".to_string(), RawValidator::contains("zzz".to_string()), 0).unwrap();
    s.take_outbox();
    s.on_tick(99);
    assert!(s.take_outbox().is_empty());
    s.on_tick(100);
    assert_eq!(s.take_outbox(), vec!["m".to_string()]);
    assert_eq!(s.order_result(a), Ok(None));
    s.on_tick(200);
    assert_eq!(s.order_result(a), Ok(Some(Err(RequestError::Timeout))));
    assert_eq!(s.order_result(b), Ok(None));
    s.on_tick(30_000);
    assert_eq!(s.order_result(b), Ok(Some(Err(RequestError::Timeout))));
}

#[test]
fn subscription_survives_reconnect() {
    let mut s = open_session();
    let id = s.subscribe_symbol("EURUSD".to_string(), "sub EURUSD".to_string()).unwrap();
    assert_eq!(s.take_outbox(), vec!["sub EURUSD".to_string()]);
    s.on_frame(&frame("EURUSD 1"));
    assert!(matches!(s.handle(ConnectionEvent::TransportLost), ConnectionAction::ConnectionLost(5000)));
    assert_eq!(s.handle(ConnectionEvent::DelayElapsed), ConnectionAction::Connect(0));
    assert_eq!(s.handle(ConnectionEvent::Connected), ConnectionAction::Authenticate);
    assert_eq!(s.handle(ConnectionEvent::AuthAccepted), ConnectionAction::Resubscribe);
    assert_eq!(s.take_outbox(), vec!["sub EURUSD".to_string()]);
    s.on_frame(&frame("EURUSD 2"));
    assert_eq!(s.next_group(id), Some(vec!["EURUSD 1".to_string()]));
    assert_eq!(s.next_group(id), Some(vec!["EURUSD 2".to_string()]));
    assert_eq!(s.next_group(id), None);
}

#[test]
fn in_flight_request_is_resent_after_loss() {
    let mut s = open_session();
    let id = s.send_and_wait("q".to_string(), RawValidator::contains("r".to_string()), 1000, 0, 0).unwrap();
    s.take_outbox();
    s.handle(ConnectionEvent::TransportLost);
    assert_eq!(s.take_outbox(), vec!["q".to_string()]);
    assert_eq!(s.order_result(id), Ok(None));
}

#[test]
fn chunked_and_timed_symbol_feeds() {
    let mut s = open_session();
    assert_eq!(
        s.subscribe_symbol_chuncked("X".to_string(), "sub X".to_string(), 0),
        Err(SessionError::InvalidChunkSize)
    );
    let c = s.subscribe_symbol_chuncked("X".to_string(), "sub X".to_string(), 2).unwrap();
    let t = s.subscribe_symbol_timed("X".to_string(), "sub X".to_string(), 50, 0).unwrap();
    let i = s.create_raw_iterator("watch".to_string(), RawValidator::starts_with("X".to_string()), None, 0).unwrap();
    for f in ["X1", "Y", "X2", "X3"] {
        s.on_frame(&frame(f));
    }
    s.on_tick(50);
    s.on_frame(&frame("X4"));
    assert_eq!(s.next_group(c), Some(vec!["X1".to_string(), "X2".to_string()]));
    assert_eq!(s.next_group(c), Some(vec!["X3".to_string(), "X4".to_string()]));
    assert_eq!(s.next_group(t), Some(vec!["X1".to_string()]));
    assert_eq!(s.next_group(t), Some(vec!["X2".to_string()]));
    assert_eq!(s.next_group(t), Some(vec!["X3".to_string()]));
    assert_eq!(s.next_group(t), None);
    assert!(s.is_finished(t));
    assert!(!s.is_finished(i));
    assert!(s.cancel(i));
    assert!(!s.cancel(i));
}

#[test]
fn closed_session_refuses_operations() {
    let mut s = open_session();
    let id = s.send_and_wait("q".to_string(), RawValidator::new(), 1000, 0, 0).unwrap();
    let sub = s.subscribe_symbol("A".to_string(), "sub A".to_string()).unwrap();
    assert_eq!(s.handle(ConnectionEvent::Shutdown), ConnectionAction::Close);
    assert_eq!(s.order_result(id), Ok(Some(Err(RequestError::Closed))));
    assert!(s.is_finished(sub));
    assert_eq!(s.send_raw_message("x".to_string()), Err(SessionError::Closed));
    assert_eq!(
        s.create_raw_order("x".to_string(), RawValidator::new(), 0),
        Err(SessionError::Closed)
    );
    assert_eq!(s.handle(ConnectionEvent::Connected), ConnectionAction::Nothing);
}

#[test]
fn logger_builds_records() {
    let l = Logger::new();
    let r = l.warn("careful".to_string());
    assert_eq!(r.level, LogLevel::Warn);
    assert_eq!(r.target, "Python");
    assert_eq!(r.message, "careful");
    assert_eq!(l.debug("d".to_string()).level, LogLevel::Debug);
    assert_eq!(l.info("i".to_string()).level, LogLevel::Info);
    assert_eq!(l.error("e".to_string()).level, LogLevel::Error);
}

#[test]
fn history_request_index() {
    assert_eq!(history_index(1_700_000_000_123), 170_000_000_012);
    let p = LoadHistoryPeriod::at("EURUSD".to_string(), 10, 60, 5, 12_345);
    assert_eq!(p.index, 1234);
    assert_eq!((p.asset.as_str(), p.time, p.period, p.offset), ("EURUSD", 10, 60, 5));
    let q = LoadHistoryPeriod::new("EURUSD".to_string(), 10, 60, 5).unwrap();
    assert!(q.index > 170_000_000_000);
    assert_eq!(q.asset, "EURUSD");
    assert!(clock_millis().unwrap() > 1_700_000_000_000);
}

#[test]
fn stream_iterator_drains_feed_then_stops() {
    let mut s = open_session();
    let id = s.subscribe_symbol_chuncked("X".to_string(), "sub X".to_string(), 2).unwrap();
    let mut it = RawStreamIterator::new(id);
    for f in ["X1", "X2", "X3"] {
        s.on_frame(&frame(f));
    }
    it.pump(&mut s);
    assert_eq!(it.next(true), Some(Ok("X1".to_string())));
    assert_eq!(it.next(true), Some(Ok("X2".to_string())));
    assert_eq!(it.next(true), None);
    s.cancel(id);
    it.pump(&mut s);
    let stop = StreamStop { sync: false, message: "Stream exhausted".to_string() };
    assert_eq!(it.next(false), Some(Err(stop.clone())));
    assert_eq!(it.next(false), Some(Err(stop)));
}

#[test]
fn stream_iterator_on_unknown_subscription_ends() {
    let mut s = open_session();
    let mut it = RawStreamIterator::new(7);
    it.pump(&mut s);
    assert_eq!(
        it.next(true),
        Some(Err(StreamStop { sync: true, message: "Stream exhausted".to_string() }))
    );
}

#[test]
fn session_takes_its_tunables_from_the_config() {
    let mut c = PyConfig::new();
    c.max_allowed_loops = 2;
    c.sleep_interval = 25;
    c.reconnect_time = 1;
    c.connection_initialization_timeout_secs = 3;
    c.urls = vec!["wss://a.example/ws".to_string(), "wss://b.example/ws".to_string()];
    let mut s = RawPocketOption::new("cred".to_string(), Some(c)).unwrap();
    assert_eq!(s.sleep_interval(), 25);
    assert_eq!(s.connection_init_timeout(), 3000);
    assert_eq!(s.endpoint_url(1).map(|u| u.as_str()), Some("wss://b.example/ws"));
    assert_eq!(s.endpoint_url(2), None);
    assert_eq!(s.handle(ConnectionEvent::ConnectFailed), ConnectionAction::Backoff(1000));
    assert_eq!(s.handle(ConnectionEvent::DelayElapsed), ConnectionAction::Connect(1));
    assert_eq!(s.handle(ConnectionEvent::ConnectFailed), ConnectionAction::GiveUp);
    assert_eq!(s.state(), ConnectionState::Closed);
}

#[test]
fn session_names_the_first_bad_endpoint() {
    let mut c = PyConfig::new();
    c.urls = vec!["wss://ok.example/".to_string(), "bad one".to_string(), "bad two".to_string()];
    let r = RawPocketOption::new("s".to_string(), Some(c));
    assert!(matches!(r, Err(SessionError::Config(ConfigError::InvalidUrl(ref u))) if u == "bad one"));
}

#[test]
fn url_comes_before_configured_endpoints() {
    let mut c = PyConfig::new();
    c.urls = vec!["wss://second.example/".to_string()];
    let s = RawPocketOption::new_with_url("s".to_string(), "wss://first.example/".to_string(), Some(c)).unwrap();
    assert_eq!(s.endpoint_url(0).map(|u| u.as_str()), Some("wss://first.example/"));
    assert_eq!(s.endpoint_url(1).map(|u| u.as_str()), Some("wss://second.example/"));
    let mut bad = PyConfig::new();
    bad.urls = vec!["nope".to_string()];
    let r = RawPocketOption::new_with_url("s".to_string(), "wss://first.example/".to_string(), Some(bad));
    assert!(matches!(r, Err(SessionError::Config(ConfigError::InvalidUrl(ref u))) if u == "nope"));
}

#[test]
fn idle_open_session_is_taken_for_lost() {
    let mut c = PyConfig::new();
    c.max_allowed_loops = 3;
    let mut s = RawPocketOption::new("cred".to_string(), Some(c)).unwrap();
    s.handle(ConnectionEvent::Connected);
    s.handle(ConnectionEvent::AuthAccepted);
    assert_eq!(s.handle(ConnectionEvent::Idle), ConnectionAction::Nothing);
    assert_eq!(s.handle(ConnectionEvent::Idle), ConnectionAction::Nothing);
    assert_eq!(s.handle(ConnectionEvent::FrameReceived), ConnectionAction::Nothing);
    assert_eq!(s.handle(ConnectionEvent::Idle), ConnectionAction::Nothing);
    assert_eq!(s.handle(ConnectionEvent::Idle), ConnectionAction::Nothing);
    assert_eq!(s.handle(ConnectionEvent::Idle), ConnectionAction::ConnectionLost(5000));
    assert_eq!(s.state(), ConnectionState::Degraded);
}
