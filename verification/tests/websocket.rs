use predict_fun_sdk::session::{
    heartbeat_reply, reconnect_delay_nanos, resubscribe_request, CommandAction, FrameAction,
    IncomingFrame, Outgoing, SendFailureAction, WsSession,
};
use predict_fun_sdk::websocket::{
    PredictWebSocketConfig, WsCommand, WsMethod, WsRequest, WsServerMessage, WsTopic,
    PREDICT_WS_ENDPOINT,
};
use predict_fun_sdk::PredictError;
use serde_json::Value;
use std::time::Duration;

#[test]
fn topic_builder_formats_expected_paths() {
    let t = WsTopic::PredictOrderbook { market_id: "123".into() };
    assert_eq!(t.as_topic_string(), "predictOrderbook/123");

    let t = WsTopic::AssetPriceUpdate {
        price_feed_id: "abc".into(),
    };
    assert_eq!(t.as_topic_string(), "assetPriceUpdate/abc");
}

#[test]
fn wallet_and_custom_topics() {
    let t = WsTopic::PredictWalletEvents { jwt: "tok".into() };
    assert_eq!(t.as_topic_string(), "predictWalletEvents/tok");
    let t = WsTopic::Custom("anything/goes".into());
    assert_eq!(t.as_topic_string(), "anything/goes");
}

#[test]
fn default_websocket_config() {
    let c = PredictWebSocketConfig::default();
    assert_eq!(c.endpoint, "wss://ws.predict.fun/ws");
    assert_eq!(c.endpoint, PREDICT_WS_ENDPOINT);
    assert!(c.api_key.is_none());
    assert_eq!(c.max_reconnect_attempts, 25);
    assert_eq!(c.max_reconnect_delay, Duration::from_secs(30));
}

#[test]
fn fallback_api_key_is_used_only_when_none_is_set() {
    let c = PredictWebSocketConfig::default().with_fallback_api_key(Some("client".into()));
    assert_eq!(c.api_key.as_deref(), Some("client"));
    let c = PredictWebSocketConfig { api_key: Some("own".into()), ..Default::default() }
        .with_fallback_api_key(Some("client".into()));
    assert_eq!(c.api_key.as_deref(), Some("own"));
    let c = PredictWebSocketConfig::default().with_fallback_api_key(None);
    assert!(c.api_key.is_none());
}

#[test]
fn handshake_request_carries_endpoint_and_key() {
    let c = PredictWebSocketConfig { api_key: Some("secret-key".into()), ..Default::default() };
    let request = c.build_request().expect("valid endpoint and key");
    assert_eq!(request.uri().to_string(), "wss://ws.predict.fun/ws");
    assert_eq!(request.headers().get("x-api-key").unwrap(), "secret-key");
    let request = PredictWebSocketConfig::default().build_request().expect("valid endpoint");
    assert!(request.headers().get("x-api-key").is_none());
}

#[test]
fn handshake_rejects_invalid_endpoint() {
    let c = PredictWebSocketConfig { endpoint: "not a uri".into(), ..Default::default() };
    let err = c.build_request().expect_err("invalid endpoint");
    assert!(matches!(err, PredictError::Config("invalid websocket endpoint")));
}

#[test]
fn handshake_rejects_invalid_api_key() {
    let c = PredictWebSocketConfig { api_key: Some("bad\nkey".into()), ..Default::default() };
    let err = c.build_request().expect_err("invalid key");
    assert!(matches!(err, PredictError::Config("invalid api key header")));
}

#[test]
fn commands_carry_topic_names() {
    let topic = WsTopic::PredictOrderbook { market_id: "9".into() };
    match WsCommand::subscribe(&topic, 7) {
        WsCommand::Subscribe { topic, request_id } => {
            assert_eq!(topic, "predictOrderbook/9");
            assert_eq!(request_id, 7);
        }
        _ => panic!("expected a subscription"),
    }
    match WsCommand::unsubscribe(&topic, 8) {
        WsCommand::Unsubscribe { topic, request_id } => {
            assert_eq!(topic, "predictOrderbook/9");
            assert_eq!(request_id, 8);
        }
        _ => panic!("expected an unsubscription"),
    }
}

fn expect_send(action: CommandAction) -> WsRequest {
    match action {
        CommandAction::Send(request) => request,
        CommandAction::Close => panic!("expected a request"),
    }
}

#[test]
fn session_tracks_subscriptions() {
    let mut session = WsSession::for_config(PredictWebSocketConfig::default());
    let req = expect_send(session.on_command(Some(WsCommand::Subscribe { topic: "a".into(), request_id: 1 })));
    assert_eq!(req.method, WsMethod::Subscribe);
    assert_eq!(req.request_id, Some(1));
    assert_eq!(req.params, Some(vec!["a".to_string()]));
    assert!(req.data.is_none());
    expect_send(session.on_command(Some(WsCommand::Subscribe { topic: "b".into(), request_id: 2 })));
    expect_send(session.on_command(Some(WsCommand::Subscribe { topic: "a".into(), request_id: 3 })));
    let mut topics = session.on_connected();
    topics.sort();
    assert_eq!(topics, vec!["a".to_string(), "b".to_string()]);

    let req = expect_send(session.on_command(Some(WsCommand::Unsubscribe { topic: "a".into(), request_id: 4 })));
    assert_eq!(req.method, WsMethod::Unsubscribe);
    assert_eq!(req.params, Some(vec!["a".to_string()]));
    assert_eq!(session.on_connected(), vec!["b".to_string()]);
}

#[test]
fn unsubscribe_undoes_subscribe() {
    let mut session = WsSession::for_config(PredictWebSocketConfig::default());
    expect_send(session.on_command(Some(WsCommand::Subscribe { topic: "x".into(), request_id: 1 })));
    expect_send(session.on_command(Some(WsCommand::Unsubscribe { topic: "x".into(), request_id: 2 })));
    assert!(session.on_connected().is_empty());
}

#[test]
fn raw_and_close_commands() {
    let mut session = WsSession::for_config(PredictWebSocketConfig::default());
    let raw = WsRequest { method: WsMethod::Heartbeat, request_id: Some(5), params: None, data: None };
    let req = expect_send(session.on_command(Some(WsCommand::Raw(raw))));
    assert_eq!(req.method, WsMethod::Heartbeat);
    assert_eq!(req.request_id, Some(5));
    assert!(matches!(session.on_command(Some(WsCommand::Close)), CommandAction::Close));
    assert!(matches!(session.on_command(None), CommandAction::Close));
}

#[test]
fn resubscription_requests() {
    let req = resubscribe_request("t".into(), 11);
    assert_eq!(req.method, WsMethod::Subscribe);
    assert_eq!(req.request_id, Some(11));
    assert_eq!(req.params, Some(vec!["t".to_string()]));
}

#[test]
fn reconnect_delays_double_and_cap() {
    let max = 30_000_000_000u128;
    assert_eq!(reconnect_delay_nanos(0, max), 250_000_000);
    assert_eq!(reconnect_delay_nanos(1, max), 500_000_000);
    assert_eq!(reconnect_delay_nanos(6, max), 16_000_000_000);
    assert_eq!(reconnect_delay_nanos(7, max), 30_000_000_000);
    assert_eq!(reconnect_delay_nanos(10, u128::MAX), 256_000_000_000);
    assert_eq!(reconnect_delay_nanos(u32::MAX, u128::MAX), 256_000_000_000);
    assert_eq!(reconnect_delay_nanos(3, 1), 1);
}

#[test]
fn session_gives_up_after_too_many_failures() {
    let config = PredictWebSocketConfig { max_reconnect_attempts: 2, ..Default::default() };
    let mut session = WsSession::for_config(config);
    assert!(session.may_connect());
    assert_eq!(session.on_connect_failed(), 500_000_000);
    assert!(session.may_connect());
    assert_eq!(session.on_connect_failed(), 1_000_000_000);
    assert!(session.may_connect());
    assert_eq!(session.on_connect_failed(), 2_000_000_000);
    assert!(!session.may_connect());
}

#[test]
fn success_resets_the_failure_count() {
    let config = PredictWebSocketConfig { max_reconnect_attempts: 1, ..Default::default() };
    let mut session = WsSession::for_config(config);
    session.on_connect_failed();
    session.on_connect_failed();
    assert!(!session.may_connect());
    session.on_connected();
    assert!(session.may_connect());
    assert_eq!(session.on_connect_failed(), 500_000_000);
}

#[test]
fn heartbeats_are_echoed() {
    let msg = WsServerMessage::Push { topic: "heartbeat".into(), data: Value::from(1234) };
    let reply = heartbeat_reply(&msg).expect("a heartbeat is answered");
    assert_eq!(reply.method, WsMethod::Heartbeat);
    assert!(reply.request_id.is_none());
    assert!(reply.params.is_none());
    assert_eq!(reply.data, Some(Value::from(1234)));

    let msg = WsServerMessage::Push { topic: "predictOrderbook/1".into(), data: Value::from(1) };
    assert!(heartbeat_reply(&msg).is_none());
    let msg = WsServerMessage::Response { request_id: 1, success: true, data: None, error: None };
    assert!(heartbeat_reply(&msg).is_none());
}

#[test]
fn frames_and_send_failures() {
    let mut session = WsSession::for_config(PredictWebSocketConfig::default());
    assert_eq!(session.on_frame(IncomingFrame::Text), FrameAction::HandleText);
    assert_eq!(session.on_frame(IncomingFrame::Ping), FrameAction::ReplyPong);
    assert_eq!(session.on_frame(IncomingFrame::Close), FrameAction::Reconnect);
    assert_eq!(session.on_frame(IncomingFrame::Failed), FrameAction::Reconnect);
    assert_eq!(session.on_frame(IncomingFrame::Ended), FrameAction::Reconnect);
    assert_eq!(session.on_frame(IncomingFrame::Binary), FrameAction::Ignore);
    assert_eq!(session.on_frame(IncomingFrame::Pong), FrameAction::Ignore);
    assert_eq!(session.on_frame(IncomingFrame::Raw), FrameAction::Ignore);
    assert_eq!(session.on_send_failure(Outgoing::Command), SendFailureAction::Reconnect);
    assert_eq!(session.on_send_failure(Outgoing::Pong), SendFailureAction::Reconnect);
    assert_eq!(session.on_send_failure(Outgoing::Resubscribe), SendFailureAction::StopResubscribing);
    assert_eq!(session.on_send_failure(Outgoing::Heartbeat), SendFailureAction::Continue);
}

#[test]
fn configured_maximum_caps_the_pause() {
    let config = PredictWebSocketConfig {
        max_reconnect_delay: Duration::from_millis(700),
        ..Default::default()
    };
    let mut session = WsSession::for_config(config);
    assert_eq!(session.on_connect_failed(), 500_000_000);
    assert_eq!(session.on_connect_failed(), 700_000_000);
    assert_eq!(session.on_connect_failed(), 700_000_000);
}

#[test]
fn pauses_never_shrink_and_stay_bounded() {
    let max = 100_000_000_000u128;
    let mut previous = 0u64;
    for attempt in 0..40u32 {
        let delay = reconnect_delay_nanos(attempt, max);
        assert!(delay >= previous);
        assert!(delay as u128 <= max);
        assert!(delay <= 256_000_000_000);
        previous = delay;
    }
}

#[test]
fn built_in_topic_names_are_distinct() {
    let names = vec![
        WsTopic::PredictOrderbook { market_id: "1".into() }.as_topic_string(),
        WsTopic::PredictOrderbook { market_id: "2".into() }.as_topic_string(),
        WsTopic::AssetPriceUpdate { price_feed_id: "1".into() }.as_topic_string(),
        WsTopic::PredictWalletEvents { jwt: "1".into() }.as_topic_string(),
    ];
    for i in 0..names.len() {
        for j in 0..names.len() {
            if i != j {
                assert_ne!(names[i], names[j]);
            }
        }
    }
}

#[test]
fn next_attempt_builds_the_handshake() {
    let config = PredictWebSocketConfig { api_key: Some("k1".into()), ..Default::default() };
    let mut session = WsSession::for_config(config);
    let request = session.next_attempt().expect("allowed and buildable");
    assert_eq!(request.headers().get("x-api-key").unwrap(), "k1");
    assert!(request.headers().get("host").is_some());
    assert!(!session.is_stopped());
}

#[test]
fn unbuildable_handshake_stops_the_session() {
    let config = PredictWebSocketConfig { endpoint: "not a uri".into(), ..Default::default() };
    let mut session = WsSession::for_config(config);
    assert!(session.next_attempt().is_none());
    assert!(session.is_stopped());
    assert!(session.next_attempt().is_none());
}

#[test]
fn too_many_failures_stop_the_session() {
    let config = PredictWebSocketConfig { max_reconnect_attempts: 1, ..Default::default() };
    let mut session = WsSession::for_config(config);
    assert!(session.next_attempt().is_some());
    session.on_connect_failed();
    assert!(session.next_attempt().is_some());
    session.on_connect_failed();
    assert!(session.next_attempt().is_none());
    assert!(session.is_stopped());
}

#[test]
fn close_ends_the_session_for_good() {
    let mut session = WsSession::for_config(PredictWebSocketConfig::default());
    assert!(session.next_attempt().is_some());
    session.on_connected();
    assert!(session.is_connected());
    assert!(matches!(session.on_command(Some(WsCommand::Close)), CommandAction::Close));
    assert!(session.is_stopped());
    assert!(!session.is_connected());
    session.on_connect_failed();
    session.on_connected();
    assert!(session.is_stopped());
    assert!(session.next_attempt().is_none());
}

#[test]
fn lost_links_lead_to_a_new_attempt() {
    let mut session = WsSession::for_config(PredictWebSocketConfig::default());
    session.on_connected();
    assert_eq!(session.on_frame(IncomingFrame::Ended), FrameAction::Reconnect);
    assert!(!session.is_connected());
    assert!(!session.is_stopped());
    assert!(session.next_attempt().is_some());
    session.on_connected();
    assert_eq!(session.on_send_failure(Outgoing::Heartbeat), SendFailureAction::Continue);
    assert!(session.is_connected());
    assert_eq!(session.on_send_failure(Outgoing::Command), SendFailureAction::Reconnect);
    assert!(!session.is_connected());
    assert!(!session.is_stopped());
}

#[test]
fn resubscribed_topics_follow_the_latest_command() {
    let mut session = WsSession::for_config(PredictWebSocketConfig::default());
    expect_send(session.on_command(Some(WsCommand::Subscribe { topic: "a".into(), request_id: 1 })));
    expect_send(session.on_command(Some(WsCommand::Subscribe { topic: "b".into(), request_id: 2 })));
    expect_send(session.on_command(Some(WsCommand::Unsubscribe { topic: "a".into(), request_id: 3 })));
    let raw = WsRequest {
        method: WsMethod::Subscribe,
        request_id: Some(4),
        params: Some(vec!["c".to_string()]),
        data: None,
    };
    expect_send(session.on_command(Some(WsCommand::Raw(raw))));
    session.on_send_failure(Outgoing::Command);
    assert_eq!(session.on_connected(), vec!["b".to_string()]);
    expect_send(session.on_command(Some(WsCommand::Unsubscribe { topic: "b".into(), request_id: 5 })));
    expect_send(session.on_command(Some(WsCommand::Subscribe { topic: "b".into(), request_id: 6 })));
    session.on_frame(IncomingFrame::Close);
    assert_eq!(session.on_connected(), vec!["b".to_string()]);
}

#[test]
fn handshake_goes_to_the_configured_endpoint() {
    let config = PredictWebSocketConfig { endpoint: "wss://other.example/feed".into(), ..Default::default() };
    let request = config.build_request().expect("valid endpoint");
    assert_eq!(request.uri().to_string(), "wss://other.example/feed");
}

#[test]
fn handshake_keeps_its_own_headers() {
    let config = PredictWebSocketConfig { api_key: Some("k2".into()), ..Default::default() };
    let request = config.build_request().expect("valid endpoint and key");
    assert_eq!(request.headers().get("host").unwrap(), "ws.predict.fun");
    assert_eq!(request.headers().get("connection").unwrap(), "Upgrade");
    assert_eq!(request.headers().get("upgrade").unwrap(), "websocket");
    assert_eq!(request.headers().get("sec-websocket-version").unwrap(), "13");
    assert!(request.headers().get("sec-websocket-key").is_some());
    assert_eq!(request.headers().get("x-api-key").unwrap(), "k2");
    assert_eq!(request.headers().len(), 6);
}
