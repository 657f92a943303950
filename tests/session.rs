use rust_media_server::connector::destination_address;
use rust_media_server::auth::{
    auth_url, authorization_outcome, forwarding_url, is_success_status, stream_end_url, AuthError,
};
use rust_media_server::config::AppConfig;
use rust_media_server::http::{ForwardingResponse, HealthResponse, StatsResponse, StreamAuthResponse};
use rust_media_server::protocol::MessageType;
use rust_media_server::relay::{ReadOutcome, RelayAction, RelaySession, DEFAULT_STREAM_KEY};
use rust_media_server::session::{
    Delivery, Destination, DestinationStatus, StreamContext, StreamState,
};
use rust_media_server::state::AppState;

fn destination(id: &str, connected: bool) -> Destination {
    Destination {
        id: id.to_string(),
        platform: "youtube".to_string(),
        rtmp_url: format!("rtmp://{}.example/live", id),
        stream_key: format!("key-{}", id),
        status: DestinationStatus {
            connected,
            bytes_sent: 5,
            packets_sent: 1,
            last_packet_at: None,
            error_count: 2,
            error_message: Some("old".to_string()),
        },
    }
}

fn state() -> AppState {
    AppState::new(AppConfig::default()).ok().unwrap()
}

#[test]
fn publish_with_two_destinations() {
    let mut st = state();
    let ctx = st
        .register_authorized(
            "test-stream-key".to_string(),
            "rtmp-connection".to_string(),
            200,
            200,
            vec![destination("a", true), destination("b", true)],
        )
        .ok()
        .unwrap();
    assert!(st.update_stream_status("test-stream-key", StreamState::Active, None));
    assert_eq!(st.active_stream_count(), 1);
    assert_eq!(st.get_all_streams(), vec!["test-stream-key".to_string()]);
    let info = st.get_stream_info("test-stream-key").unwrap();
    assert_eq!(info.status.state, StreamState::Active);
    assert_eq!(info.destinations.len(), 2);
    assert!(info.destinations.iter().all(|d| !d.status.connected));
    assert!(ctx.destinations.iter().all(|d| !d.status.connected && d.status.error_count == 0));
    assert_eq!(ctx.id.len(), 36);
    assert_eq!(ctx.status.state, StreamState::Connecting);
}

#[test]
fn rejected_stream_is_not_registered() {
    let mut st = state();
    let r = st.register_authorized("k".to_string(), "c".to_string(), 401, 200, vec![]);
    assert_eq!(r.err(), Some(AuthError::Rejected));
    assert!(!st.is_live("k"));
    assert_eq!(st.active_stream_count(), 0);
}

#[test]
fn forwarding_failure_is_reported() {
    let mut st = state();
    let r = st.register_authorized("k".to_string(), "c".to_string(), 204, 503, vec![]);
    assert_eq!(r.err(), Some(AuthError::ForwardingUnavailable));
    assert!(!st.is_live("k"));
}

#[test]
fn stream_end_twice_is_noop() {
    let mut st = state();
    st.create_stream_context("k".to_string(), "c".to_string(), vec![]);
    assert!(st.is_live("k"));
    assert!(st.notify_stream_end("k"));
    assert!(st.get_stream_info("k").is_none());
    assert!(!st.notify_stream_end("k"));
    assert!(!st.is_live("k"));
}

#[test]
fn auth_outcomes_by_status() {
    assert_eq!(authorization_outcome(200, None), None);
    assert_eq!(authorization_outcome(500, None), Some(Err(AuthError::Rejected)));
    assert_eq!(authorization_outcome(299, Some(200)), Some(Ok(())));
    assert_eq!(authorization_outcome(200, Some(404)), Some(Err(AuthError::ForwardingUnavailable)));
    assert!(is_success_status(200));
    assert!(!is_success_status(199));
    assert!(!is_success_status(300));
}

#[test]
fn control_plane_urls() {
    let base = "http://cp".to_string();
    assert_eq!(auth_url(&base), "http://cp/api/auth/stream");
    assert_eq!(forwarding_url(&base, "abc"), "http://cp/api/streams/forwarding/abc");
    assert_eq!(stream_end_url(&base), "http://cp/api/auth/stream-end");
}

#[test]
fn relay_counts_150_buffers() {
    let mut st = state();
    let ctx = st.create_stream_context(DEFAULT_STREAM_KEY.to_string(), "c".to_string(), vec![]);
    let mut relay = RelaySession::start(ctx);
    assert_eq!(relay.context().status.state, StreamState::Active);
    let mut progress = 0;
    for _ in 0..150 {
        match relay.on_read(ReadOutcome::Data(1000)) {
            RelayAction::Forward { len, report_progress } => {
                assert_eq!(len, 1000);
                if report_progress {
                    progress += 1;
                }
            }
            RelayAction::Teardown => panic!("unexpected teardown"),
        }
    }
    assert_eq!(relay.on_read(ReadOutcome::Data(0)), RelayAction::Teardown);
    assert_eq!(relay.on_read(ReadOutcome::Data(10)), RelayAction::Teardown);
    assert_eq!(progress, 1);
    assert_eq!(relay.context().get_stats().total_packets_received, 150);
    assert_eq!(relay.context().get_stats().total_bytes_received, 150_000);
    assert_eq!(relay.packet_count(), 150);
    assert_eq!(relay.total_bytes(), 150_000);
    assert_eq!(relay.context().status.state, StreamState::Ended);
    let mut notified = 0;
    for _ in 0..3 {
        if relay.finish() {
            notified += 1;
            st.notify_stream_end(DEFAULT_STREAM_KEY);
        }
    }
    assert_eq!(notified, 1);
    assert!(!st.is_live(DEFAULT_STREAM_KEY));
}

#[test]
fn relay_read_error_sets_error_state() {
    let ctx = StreamContext::new("id".into(), "k".into(), "c".into(), vec![], 7);
    let mut relay = RelaySession::start(ctx);
    assert_eq!(relay.on_read(ReadOutcome::Failed("reset".into())), RelayAction::Teardown);
    assert_eq!(relay.context().status.state, StreamState::Error);
    assert_eq!(relay.context().status.error_message.as_deref(), Some("reset"));
}

#[test]
fn fanout_failure_is_isolated() {
    let ctx = StreamContext::new(
        "id".into(),
        "k".into(),
        "c".into(),
        vec![destination("a", false), destination("b", false), destination("c", false)],
        1,
    );
    let mut relay = RelaySession::start(ctx);
    for j in 0..5u64 {
        relay.on_read(ReadOutcome::Data(100));
        let second = if j >= 2 { Delivery::Failed("down".into()) } else { Delivery::Sent };
        relay.record_deliveries(100, &vec![Delivery::Sent, second, Delivery::Sent], 10 + j as i64);
    }
    let d = &relay.context().destinations;
    assert_eq!(d[0].status.packets_sent, 5);
    assert_eq!(d[2].status.packets_sent, 5);
    assert_eq!(d[0].status.bytes_sent, 500);
    assert_eq!(d[0].status.last_packet_at, Some(14));
    assert!(d[0].status.connected && d[2].status.connected);
    assert_eq!(d[1].status.packets_sent, 2);
    assert_eq!(d[1].status.error_count, 3);
    assert!(!d[1].status.connected);
    assert_eq!(d[1].status.error_message.as_deref(), Some("down"));
    let stats = relay.context().get_stats();
    assert_eq!(stats.total_packets_sent, 12);
    assert_eq!(stats.total_bytes_sent, 1200);
    assert_eq!(stats.active_destinations, 2);
}

#[test]
fn terminal_state_is_kept() {
    let mut ctx = StreamContext::new("id".into(), "k".into(), "c".into(), vec![], 0);
    assert!(ctx.update_status(StreamState::Ended, None));
    assert!(!ctx.update_status(StreamState::Active, None));
    assert_eq!(ctx.status.state, StreamState::Ended);
    assert!(StreamState::Error.is_terminal());
    assert!(!StreamState::Connecting.is_terminal());
}

#[test]
fn statistics_saturate() {
    let mut ctx = StreamContext::new("id".into(), "k".into(), "c".into(), vec![], 0);
    ctx.update_statistics(u64::MAX - 1, 1);
    ctx.update_statistics(10, 1);
    assert_eq!(ctx.get_stats().total_bytes_received, u64::MAX);
    assert_eq!(ctx.get_stats().total_packets_received, 2);
}

#[test]
fn http_answers_from_state() {
    let mut st = state();
    st.create_stream_context("one".into(), "c".into(), vec![destination("a", true)]);
    let health = HealthResponse::from_state(&st, "1.0".into());
    assert_eq!(health.status, "ok");
    assert_eq!(health.active_streams, 1);
    let stats = StatsResponse::from_state(&st);
    assert_eq!(stats.total_streams, 1);
    assert_eq!(stats.memory_pool_stats.buffer_size, 64 * 1024);
    assert_eq!(stats.memory_pool_stats.total_buffers, 1024);
    assert_eq!(ForwardingResponse::for_stream(&st, "one").destinations.len(), 1);
    assert_eq!(ForwardingResponse::for_stream(&st, "two").destinations.len(), 0);
    let accepted = StreamAuthResponse::accepted();
    assert_eq!(accepted.code, 0);
    assert!(accepted.data.forward);
}

#[test]
fn message_type_ids() {
    assert_eq!(MessageType::Command.type_id(), 20);
    assert_eq!(MessageType::from_type_id(9), Some(MessageType::VideoMessage));
    assert_eq!(MessageType::from_type_id(7), None);
}

#[test]
fn destination_addresses() {
    assert_eq!(destination_address("rtmp://a.example/live/x"), Some("a.example:1935".to_string()));
    assert_eq!(destination_address("rtmp://a.example:1940/live"), Some("a.example:1940".to_string()));
    assert_eq!(destination_address("rtmp://host"), Some("host:1935".to_string()));
    assert_eq!(destination_address("rtmp:///live"), None);
    assert_eq!(destination_address("http://a.example/live"), None);
    assert_eq!(destination_address("rtmp"), None);
}

#[test]
fn registry_sees_relay_counters() {
    let mut st = state();
    let ctx = st.create_stream_context("live".into(), "c".into(), vec![destination("a", true)]);
    let mut relay = RelaySession::start(ctx);
    assert!(st.store_session(relay.context().clone()));
    relay.on_read(ReadOutcome::Data(42));
    relay.record_deliveries(42, &vec![Delivery::Sent], 5);
    assert!(st.store_session(relay.context().clone()));
    let info = st.get_stream_info("live").unwrap();
    assert_eq!(info.status.state, StreamState::Active);
    assert_eq!(info.statistics.total_packets_received, 1);
    assert_eq!(info.statistics.total_bytes_received, 42);
    assert!(info.destinations[0].status.connected);
    assert_eq!(info.stream_key, "live");
    assert!(st.notify_stream_end("live"));
    assert!(!st.store_session(relay.context().clone()));
    assert!(!st.is_live("live"));
}

#[test]
fn ending_one_stream_keeps_others() {
    let mut st = state();
    st.create_stream_context("one".into(), "c1".into(), vec![]);
    st.create_stream_context("two".into(), "c2".into(), vec![]);
    assert!(st.notify_stream_end("one"));
    let info = st.get_stream_info("two").unwrap();
    assert_eq!(info.connection_id, "c2");
    assert_eq!(st.active_stream_count(), 1);
}
