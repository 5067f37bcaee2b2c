use codexmanager::json::{JsonMap, JsonNumber, JsonValue};
use codexmanager::ws::{
    check_upstream_headers,
    complete_client_frame, frame_body_text, log_service_tier,
    connect_candidate_step, parse_client_frame, prepared_frame_text, ws_error_text, ConnectAction,
    ConnectEvent,
    build_upstream_websocket_url,
    candidate_failure_message, check_websocket_api_key, connect_failure_error,
    finish_client_frame, initial_frame_action, invalid_upstream_url_error,
    is_websocket_upgrade_request, merge_turn_metadata, missing_platform_key_rejection,
    no_upstream_accounts_error, parse_bool_header, prepare_client_frame, websocket_scheme_for,
    ws_error_payload, ws_session_step, ws_upstream_headers, CandidateFailure, Forward, ForwardKind,
    InitialAction, InitialFrame, WsEvent, WsKeyFacts, WsSessionError, WsUpstreamHeaderInput,
};
use codexmanager::ws_events::{
    inspect_ws_terminal_text,
    extract_ws_error_message, inspect_ws_terminal_event, parse_ws_usage, RequestLogUsage,
    WsTerminalEvent,
};

fn s(v: &str) -> JsonValue {
    JsonValue::Str(v.to_string())
}

fn n(v: u64) -> JsonValue {
    JsonValue::Number(JsonNumber::PosInt(v))
}

fn obj(entries: Vec<(&str, JsonValue)>) -> JsonMap {
    JsonMap { entries: entries.into_iter().map(|(k, v)| (k.to_string(), v)).collect() }
}

#[test]
fn websocket_upgrade_detection() {
    assert!(is_websocket_upgrade_request(Some("WebSocket"), Some("keep-alive, Upgrade")));
    assert!(is_websocket_upgrade_request(Some("websocket"), Some("upgrade")));
    assert!(!is_websocket_upgrade_request(Some(" websocket"), Some("upgrade")));
    assert!(!is_websocket_upgrade_request(Some("websocket"), Some("keep-alive")));
    assert!(!is_websocket_upgrade_request(None, Some("upgrade")));
    assert!(!is_websocket_upgrade_request(Some("websocket"), None));
}

#[test]
fn boolean_headers() {
    for v in ["true", " TRUE ", "1", "yes", "On"] {
        assert!(parse_bool_header(Some(v)), "{v}");
    }
    for v in ["false", "0", "", "y"] {
        assert!(!parse_bool_header(Some(v)), "{v}");
    }
    assert!(!parse_bool_header(None));
}

#[test]
fn turn_metadata_is_merged_into_client_metadata() {
    assert_eq!(
        merge_turn_metadata(None, Some(" meta ")),
        Some(JsonValue::Object(obj(vec![("x-codex-turn-metadata", s("meta"))])))
    );
    assert_eq!(merge_turn_metadata(Some(s("x")), Some("meta")), Some(s("x")));
    assert_eq!(merge_turn_metadata(None, Some("  ")), None);
    assert_eq!(
        merge_turn_metadata(
            Some(JsonValue::Object(obj(vec![("x-codex-turn-metadata", s("client"))]))),
            Some("meta")
        ),
        Some(JsonValue::Object(obj(vec![("x-codex-turn-metadata", s("client"))])))
    );
    assert_eq!(
        merge_turn_metadata(Some(JsonValue::Object(obj(vec![("a", n(1))]))), Some("meta")),
        Some(JsonValue::Object(obj(vec![("a", n(1)), ("x-codex-turn-metadata", s("meta"))])))
    );
}

#[test]
fn error_payload_shape() {
    let payload = ws_error_payload(WsSessionError::bad_request("oops".to_string()));
    assert_eq!(
        payload,
        JsonValue::Object(obj(vec![
            ("type", s("error")),
            ("status", n(400)),
            (
                "error",
                JsonValue::Object(obj(vec![("code", s("invalid_request_error")), ("message", s("oops"))])),
            ),
        ]))
    );
    let gateway = WsSessionError::bad_gateway("x".to_string());
    assert_eq!((gateway.status, gateway.code.as_str()), (502, "responses_websocket_error"));
    let unavailable = WsSessionError::service_unavailable("y".to_string());
    assert_eq!(unavailable.status, 503);
}

#[test]
fn initial_frame_handling() {
    assert_eq!(initial_frame_action(InitialFrame::Text), InitialAction::Accept);
    assert_eq!(initial_frame_action(InitialFrame::Ended), InitialAction::Stop);
    assert_eq!(initial_frame_action(InitialFrame::Close), InitialAction::Stop);
    assert_eq!(initial_frame_action(InitialFrame::Ping), InitialAction::ReplyPong);
    assert_eq!(initial_frame_action(InitialFrame::Pong), InitialAction::Wait);
    assert_eq!(
        initial_frame_action(InitialFrame::Binary),
        InitialAction::Reject(WsSessionError::bad_request(
            "initial websocket frame must be a response.create text frame".to_string()
        ))
    );
    assert_eq!(
        initial_frame_action(InitialFrame::Failed("reset".to_string())),
        InitialAction::Reject(WsSessionError::bad_request(
            "receive initial websocket frame failed: reset".to_string()
        ))
    );
}

#[test]
fn session_steps() {
    let prepared = ws_session_step(true, WsEvent::ClientTextPrepared);
    assert!(prepared.begin_log && prepared.pending && !prepared.stop);
    assert_eq!(prepared.forward, Forward::ToUpstream);
    let superseded = prepared.finalize.expect("previous request finished");
    assert_eq!(superseded.status_code, 499);
    assert_eq!(superseded.error.as_deref(), Some("websocket request superseded before completion"));

    let first = ws_session_step(false, WsEvent::ClientTextPrepared);
    assert!(first.finalize.is_none());

    let closed = ws_session_step(true, WsEvent::ClientClose);
    assert!(closed.stop && closed.close_upstream && !closed.pending);
    assert_eq!(closed.finalize.expect("finished").status_code, 499);

    let upstream_gone = ws_session_step(true, WsEvent::UpstreamEnded);
    assert!(upstream_gone.close_client);
    assert_eq!(
        upstream_gone.finalize.expect("finished").error.as_deref(),
        Some("upstream websocket closed before completion")
    );

    let failed = ws_session_step(true, WsEvent::ClientFailed("bad frame".to_string()));
    assert_eq!(failed.finalize.as_ref().expect("finished").status_code, 400);
    assert_eq!(
        failed.send_error,
        Some(WsSessionError::bad_request("receive client websocket frame failed: bad frame".to_string()))
    );

    let send_failed = ws_session_step(true, WsEvent::UpstreamSendFailed("broken pipe".to_string()));
    assert_eq!(
        send_failed.finalize.expect("finished").error.as_deref(),
        Some("send upstream websocket frame failed: broken pipe")
    );
    assert!(send_failed.close_upstream);

    let first_failed = ws_session_step(true, WsEvent::FirstSendFailed("eof".to_string()));
    assert_eq!(first_failed.finalize.expect("finished").status_code, 502);
    assert!(!first_failed.close_upstream);

    let done = WsTerminalEvent {
        status_code: 200,
        usage: RequestLogUsage {
            input_tokens: Some(3),
            cached_input_tokens: None,
            output_tokens: Some(4),
            total_tokens: Some(7),
            reasoning_output_tokens: None,
        },
        error: None,
    };
    let completed = ws_session_step(true, WsEvent::UpstreamText(Some(done)));
    assert_eq!(completed.forward, Forward::ToClient);
    assert!(!completed.pending && !completed.stop);
    assert_eq!(completed.finalize.expect("finished").usage.total_tokens, Some(7));

    let idle_text = ws_session_step(false, WsEvent::UpstreamText(None));
    assert!(idle_text.finalize.is_none() && !idle_text.pending);

    let forward_failed = ws_session_step(true, WsEvent::ForwardToUpstreamFailed(ForwardKind::Ping, "x".to_string()));
    assert!(forward_failed.stop && forward_failed.finalize.is_none() && forward_failed.pending);
    assert_eq!(
        forward_failed.send_error.expect("error").message,
        "forward websocket ping failed: x"
    );

    let control = ws_session_step(true, WsEvent::UpstreamControl(ForwardKind::Binary));
    assert!(control.pending && control.forward == Forward::ToClient);
    let frame = ws_session_step(true, WsEvent::UpstreamFrame);
    assert!(frame.forward == Forward::Nothing && !frame.stop);
}

#[test]
fn api_key_checks() {
    let missing = missing_platform_key_rejection();
    assert_eq!((missing.status, missing.message.as_str()), (401, "missing platform api key"));
    let unknown = check_websocket_api_key(None).unwrap_err();
    assert_eq!((unknown.status, unknown.message.as_str()), (403, "invalid api key"));
    let disabled = check_websocket_api_key(Some(WsKeyFacts { status: "disabled", supports_official_websocket: true })).unwrap_err();
    assert_eq!(disabled.message, "api key disabled");
    let custom = check_websocket_api_key(Some(WsKeyFacts { status: "active", supports_official_websocket: false })).unwrap_err();
    assert_eq!(custom.status, 426);
    assert!(custom.upgrade_required);
    assert!(check_websocket_api_key(Some(WsKeyFacts { status: "active", supports_official_websocket: true })).is_ok());
}

#[test]
fn client_frames_are_checked_and_reassembled() {
    let not_object = prepare_client_frame(s("x"), None).unwrap_err();
    assert_eq!(not_object.message, "websocket payload must be a JSON object");
    let no_type = prepare_client_frame(JsonValue::Object(obj(vec![("model", s("m"))])), None).unwrap_err();
    assert_eq!(no_type.message, "websocket payload missing type=response.create");
    let wrong = prepare_client_frame(JsonValue::Object(obj(vec![("type", s("response.cancel"))])), None).unwrap_err();
    assert_eq!(wrong.message, "unsupported websocket message type: response.cancel");

    let payload = JsonValue::Object(obj(vec![
        ("type", s("response.create")),
        ("model", s("gpt-5")),
        ("service_tier", s("priority")),
        ("previous_response_id", s("resp_1")),
        ("generate", JsonValue::Bool(false)),
    ]));
    let parts = prepare_client_frame(payload, Some("turn-meta")).expect("valid frame");
    assert_eq!(parts.message_type, "response.create");
    assert_eq!(parts.service_tier.as_deref(), Some("priority"));
    assert_eq!(parts.previous_response_id, Some(s("resp_1")));
    assert_eq!(parts.generate, Some(JsonValue::Bool(false)));
    assert_eq!(
        parts.client_metadata,
        Some(JsonValue::Object(obj(vec![("x-codex-turn-metadata", s("turn-meta"))])))
    );
    let keys: Vec<&str> = parts.body.entries.iter().map(|(k, _)| k.as_str()).collect();
    assert_eq!(keys, vec!["model", "service_tier"]);

    let rewritten = JsonValue::Object(obj(vec![
        ("model", s("gpt-5-codex")),
        ("reasoning", JsonValue::Object(obj(vec![("effort", s("high"))]))),
    ]));
    let frame = finish_client_frame(rewritten, parts, Some("priority".to_string())).expect("object body");
    assert_eq!(frame.service_tier.as_deref(), Some("priority"));
    assert_eq!(frame.model.as_deref(), Some("gpt-5-codex"));
    assert_eq!(frame.reasoning_effort.as_deref(), Some("high"));
    let keys: Vec<&str> = frame.body.entries.iter().map(|(k, _)| k.as_str()).collect();
    assert_eq!(keys, vec!["model", "reasoning", "type", "previous_response_id", "generate", "client_metadata"]);

    let parts = prepare_client_frame(JsonValue::Object(obj(vec![("type", s("response.create"))])), None).expect("valid");
    assert_eq!(finish_client_frame(s("x"), parts, None).unwrap_err().message, "rewritten websocket payload must stay a JSON object");
    let parts = prepare_client_frame(JsonValue::Object(obj(vec![("type", s("response.create"))])), None).expect("valid");
    let flat = finish_client_frame(JsonValue::Object(obj(vec![("reasoning_effort", s("low"))])), parts, None).expect("object");
    assert_eq!(flat.reasoning_effort.as_deref(), Some("low"));
    assert_eq!(flat.model, None);
}

#[test]
fn upstream_websocket_headers() {
    let headers = ws_upstream_headers(&WsUpstreamHeaderInput {
        bearer_token: "tok",
        chatgpt_account_id: Some(" acc "),
        user_agent: "codex_cli_rs/0.101.0",
        originator: "codex_cli_rs",
        residency_requirement: None,
        session_id: Some("sess"),
        client_request_id: None,
        subagent: None,
        beta_features: None,
        turn_metadata: Some("meta"),
        turn_state: None,
        include_timing_metrics: true,
    });
    let expected: Vec<(String, String)> = vec![
        ("Authorization", "Bearer tok"),
        ("ChatGPT-Account-ID", "acc"),
        ("User-Agent", "codex_cli_rs/0.101.0"),
        ("originator", "codex_cli_rs"),
        ("OpenAI-Beta", "responses_websockets=2026-02-06"),
        ("session_id", "sess"),
        ("x-codex-turn-metadata", "meta"),
        ("x-responsesapi-include-timing-metrics", "true"),
    ]
    .into_iter()
    .map(|(a, b)| (a.to_string(), b.to_string()))
    .collect();
    assert_eq!(headers, expected);
}

#[test]
fn upstream_url_schemes_and_connect_errors() {
    assert_eq!(websocket_scheme_for("http"), Ok(Some("ws")));
    assert_eq!(websocket_scheme_for("https"), Ok(Some("wss")));
    assert_eq!(websocket_scheme_for("wss"), Ok(None));
    assert_eq!(
        websocket_scheme_for("ftp").unwrap_err().message,
        "unsupported upstream websocket scheme: ftp"
    );
    assert_eq!(invalid_upstream_url_error("relative URL").message, "invalid upstream websocket url: relative URL");
    assert_eq!(no_upstream_accounts_error().status, 503);
    assert_eq!(
        candidate_failure_message(CandidateFailure::Connect, "acc-1", "timeout"),
        "connect upstream websocket for account acc-1 failed: timeout"
    );
    assert_eq!(
        candidate_failure_message(CandidateFailure::BearerToken, "acc-2", "expired"),
        "resolve bearer token for account acc-2 failed: expired"
    );
    assert_eq!(connect_failure_error(None).message, "connect upstream websocket failed");
    assert_eq!(connect_failure_error(Some("last".to_string())).message, "last");
}

#[test]
fn terminal_events_and_usage() {
    let completed = JsonValue::Object(obj(vec![
        ("type", s(" Response.Completed ")),
        (
            "response",
            JsonValue::Object(obj(vec![(
                "usage",
                JsonValue::Object(obj(vec![
                    ("input_tokens", n(10)),
                    ("input_tokens_details", JsonValue::Object(obj(vec![("cached_tokens", n(2))]))),
                    ("output_tokens", n(5)),
                    ("total_tokens", n(15)),
                    ("output_tokens_details", JsonValue::Object(obj(vec![("reasoning_tokens", n(1))]))),
                ])),
            )])),
        ),
    ]));
    let event = inspect_ws_terminal_event(&completed).expect("terminal");
    assert_eq!(event.status_code, 200);
    assert_eq!(
        event.usage,
        RequestLogUsage {
            input_tokens: Some(10),
            cached_input_tokens: Some(2),
            output_tokens: Some(5),
            total_tokens: Some(15),
            reasoning_output_tokens: Some(1),
        }
    );
    assert_eq!(event.error, None);

    let chat_usage = JsonValue::Object(obj(vec![(
        "usage",
        JsonValue::Object(obj(vec![("prompt_tokens", n(7)), ("completion_tokens", n(3))])),
    )]));
    let usage = parse_ws_usage(&chat_usage);
    assert_eq!((usage.input_tokens, usage.output_tokens, usage.total_tokens), (Some(7), Some(3), None));

    let failed = JsonValue::Object(obj(vec![
        ("type", s("response.failed")),
        ("status", n(429)),
        ("error", JsonValue::Object(obj(vec![("message", s("  rate limited "))]))),
    ]));
    let event = inspect_ws_terminal_event(&failed).expect("terminal");
    assert_eq!(event.status_code, 429);
    assert_eq!(event.error.as_deref(), Some("rate limited"));

    let error = JsonValue::Object(obj(vec![
        ("type", s("error")),
        ("status", n(70000)),
        ("message", s("boom")),
    ]));
    let event = inspect_ws_terminal_event(&error).expect("terminal");
    assert_eq!(event.status_code, 502);
    assert_eq!(event.error.as_deref(), Some("boom"));
    assert_eq!(event.usage, RequestLogUsage::default());

    let delta = JsonValue::Object(obj(vec![("type", s("response.output_text.delta"))]));
    assert!(inspect_ws_terminal_event(&delta).is_none());
    assert!(inspect_ws_terminal_event(&s("response.completed")).is_none());

    let blank = JsonValue::Object(obj(vec![
        ("error", JsonValue::Object(obj(vec![("message", s("   "))]))),
        ("message", s("fallback")),
    ]));
    assert_eq!(extract_ws_error_message(&blank).as_deref(), Some("fallback"));
}

#[test]
fn upstream_websocket_url_switches_http_schemes() {
    assert_eq!(
        build_upstream_websocket_url("https://chatgpt.com/backend-api/codex/responses").unwrap(),
        "wss://chatgpt.com/backend-api/codex/responses"
    );
    assert_eq!(
        build_upstream_websocket_url("http://127.0.0.1:8080/v1/responses").unwrap(),
        "ws://127.0.0.1:8080/v1/responses"
    );
    assert_eq!(
        build_upstream_websocket_url("wss://example.com/v1/responses").unwrap(),
        "wss://example.com/v1/responses"
    );
}

#[test]
fn upstream_websocket_url_rejects_bad_targets() {
    let err = build_upstream_websocket_url("ftp://example.com/v1/responses").unwrap_err();
    assert_eq!(err.status, 502);
    assert_eq!(err.code, "responses_websocket_error");
    assert_eq!(err.message, "unsupported upstream websocket scheme: ftp");

    let err = build_upstream_websocket_url("not a url").unwrap_err();
    assert_eq!(err.status, 502);
    assert_eq!(err.message, "invalid upstream websocket url: relative URL without a base");
}

#[test]
fn client_frame_text_that_is_not_json_is_refused() {
    let expected = serde_json::from_str::<serde_json::Value>("not json").unwrap_err().to_string();
    let err = parse_client_frame("not json", None).unwrap_err();
    assert_eq!(err.status, 400);
    assert_eq!(err.code, "invalid_request_error");
    assert_eq!(err.message, format!("invalid websocket json payload: {expected}"));

    let err = parse_client_frame("[1, 2]", None).unwrap_err();
    assert_eq!(err.message, "websocket payload must be a JSON object");
    let err = parse_client_frame(r#"{"model":"m"}"#, None).unwrap_err();
    assert_eq!(err.message, "websocket payload missing type=response.create");
}

#[test]
fn client_frame_text_is_taken_apart_and_written_back() {
    let mut parts = parse_client_frame(
        r#"{"type":"response.create","model":"gpt-5","previous_response_id":"resp_1","service_tier":"flex"}"#,
        Some("turn-meta"),
    )
    .expect("valid frame");
    assert_eq!(parts.message_type, "response.create");
    assert_eq!(parts.previous_response_id, Some(s("resp_1")));
    assert_eq!(parts.service_tier.as_deref(), Some("flex"));
    let body = std::mem::replace(&mut parts.body, JsonMap { entries: Vec::new() }).entries;
    assert!(body.iter().all(|(k, _)| k != "type" && k != "previous_response_id"));
    let rewritten = JsonValue::Object(JsonMap { entries: body });
    let frame = finish_client_frame(rewritten, parts, Some("flex".to_string())).expect("object body");
    assert_eq!(frame.model.as_deref(), Some("gpt-5"));
    assert_eq!(
        prepared_frame_text(&frame),
        r#"{"client_metadata":{"x-codex-turn-metadata":"turn-meta"},"model":"gpt-5","previous_response_id":"resp_1","service_tier":"flex","type":"response.create"}"#
    );
}

#[test]
fn terminal_event_text_is_read_as_json() {
    let error = inspect_ws_terminal_text(r#"{"type":"error","status":429,"error":{"message":" slow down "}}"#)
        .expect("terminal");
    assert_eq!(error.status_code, 429);
    assert_eq!(error.usage, RequestLogUsage::default());
    assert_eq!(error.error.as_deref(), Some("slow down"));

    let failed = inspect_ws_terminal_text(r#"{"type":"response.failed","status":70000,"message":"boom"}"#)
        .expect("terminal");
    assert_eq!(failed.status_code, 502);
    assert_eq!(failed.error.as_deref(), Some("boom"));

    let done = inspect_ws_terminal_text(r#"{"type":" Response.Done ","response":{"usage":{"input_tokens":7}}}"#)
        .expect("terminal");
    assert_eq!(done.status_code, 200);
    assert_eq!(done.usage.input_tokens, Some(7));

    assert!(inspect_ws_terminal_text(r#"{"type":"response.created"}"#).is_none());
    assert!(inspect_ws_terminal_text("not json").is_none());
}

#[test]
fn error_frame_text_is_compact_json() {
    let text = ws_error_text(WsSessionError::bad_request("bad frame".to_string()));
    assert_eq!(
        text,
        r#"{"error":{"code":"invalid_request_error","message":"bad frame"},"status":400,"type":"error"}"#
    );
}

#[test]
fn connect_loop_moves_on_after_a_failed_candidate() {
    match connect_candidate_step("acc-1", None, ConnectEvent::BearerTokenFailed("expired".to_string())) {
        ConnectAction::TryNext(Some(m)) => assert_eq!(m, "resolve bearer token for account acc-1 failed: expired"),
        other => panic!("unexpected {other:?}"),
    }
    match connect_candidate_step("acc-2", Some("x".to_string()), ConnectEvent::ConnectFailed("refused".to_string())) {
        ConnectAction::TryNext(Some(m)) => assert_eq!(m, "connect upstream websocket for account acc-2 failed: refused"),
        other => panic!("unexpected {other:?}"),
    }
    assert!(matches!(
        connect_candidate_step("acc-3", None, ConnectEvent::Connected),
        ConnectAction::Finish(Ok(()))
    ));
    match connect_candidate_step("acc-4", None, ConnectEvent::RequestBuildFailed(WsSessionError::bad_gateway("bad header".to_string()))) {
        ConnectAction::Finish(Err(e)) => assert_eq!(e.message, "bad header"),
        other => panic!("unexpected {other:?}"),
    }
    match connect_candidate_step("", Some("last failure".to_string()), ConnectEvent::Exhausted) {
        ConnectAction::Finish(Err(e)) => {
            assert_eq!(e.status, 502);
            assert_eq!(e.message, "last failure");
        }
        other => panic!("unexpected {other:?}"),
    }
    match connect_candidate_step("", None, ConnectEvent::Exhausted) {
        ConnectAction::Finish(Err(e)) => assert_eq!(e.message, "connect upstream websocket failed"),
        other => panic!("unexpected {other:?}"),
    }
}

#[test]
fn a_session_run_finishes_each_request_log_once() {
    let events = vec![
        WsEvent::ClientTextPrepared,
        WsEvent::UpstreamText(None),
        WsEvent::UpstreamText(Some(WsTerminalEvent {
            status_code: 200,
            usage: RequestLogUsage::default(),
            error: None,
        })),
        WsEvent::UpstreamText(Some(WsTerminalEvent {
            status_code: 200,
            usage: RequestLogUsage::default(),
            error: None,
        })),
        WsEvent::ClientClose,
    ];
    let mut pending = true;
    let mut begun = 1;
    let mut finished = 0;
    let mut first_finish = None;
    for event in events {
        let step = ws_session_step(pending, event);
        if let Some(entry) = &step.finalize {
            assert!(pending);
            finished += 1;
            if first_finish.is_none() {
                first_finish = Some((entry.status_code, entry.error.clone()));
            }
        }
        if step.begin_log {
            begun += 1;
        }
        pending = step.pending;
    }
    assert_eq!(
        first_finish,
        Some((499, Some("websocket request superseded before completion".to_string())))
    );
    assert_eq!(begun, 2);
    assert_eq!(finished, 2);
    assert!(!pending);
}

#[test]
fn service_tier_falls_back_to_the_platform_key() {
    assert_eq!(log_service_tier(Some("flex".to_string()), Some("fast".to_string())).as_deref(), Some("flex"));
    assert_eq!(log_service_tier(None, Some("fast".to_string())).as_deref(), Some("fast"));
    assert_eq!(log_service_tier(None, None), None);
}

#[test]
fn client_frame_is_completed_from_the_rewritten_text() {
    let parts = parse_client_frame(
        r#"{"type":"response.create","model":"gpt-5","generate":false,"stream":false}"#,
        None,
    )
    .expect("valid frame");
    assert_eq!(frame_body_text(&parts), r#"{"model":"gpt-5","stream":false}"#);
    let frame = complete_client_frame(
        r#"{"model":"gpt-5-codex","stream":true,"reasoning":{"effort":"medium"}}"#,
        parts,
        None,
        Some("fast".to_string()),
    )
    .expect("object body");
    assert_eq!(frame.model.as_deref(), Some("gpt-5-codex"));
    assert_eq!(frame.reasoning_effort.as_deref(), Some("medium"));
    assert_eq!(frame.service_tier.as_deref(), Some("fast"));
    assert_eq!(
        prepared_frame_text(&frame),
        r#"{"generate":false,"model":"gpt-5-codex","reasoning":{"effort":"medium"},"stream":true,"type":"response.create"}"#
    );

    let parts = parse_client_frame(r#"{"type":"response.create"}"#, None).expect("valid frame");
    let expected = serde_json::from_str::<serde_json::Value>("{oops").unwrap_err().to_string();
    let err = complete_client_frame("{oops", parts, None, None).unwrap_err();
    assert_eq!(err.status, 400);
    assert_eq!(err.message, format!("parse rewritten websocket request failed: {expected}"));

    let parts = parse_client_frame(r#"{"type":"response.create"}"#, None).expect("valid frame");
    let err = complete_client_frame("[]", parts, None, None).unwrap_err();
    assert_eq!(err.message, "rewritten websocket payload must stay a JSON object");
}

#[test]
fn upstream_headers_are_checked_in_order() {
    let ok = vec![
        ("Authorization".to_string(), "Bearer t".to_string()),
        ("session_id".to_string(), "thread-1".to_string()),
    ];
    assert!(check_upstream_headers(&ok).is_ok());

    let name_err = axum::http::HeaderName::from_bytes(b"bad name").unwrap_err().to_string();
    let bad_name = vec![
        ("x-fine".to_string(), "bad\nvalue".to_string()),
        ("bad name".to_string(), "v".to_string()),
    ];
    let value_err = axum::http::HeaderValue::from_str("bad\nvalue").unwrap_err().to_string();
    let err = check_upstream_headers(&bad_name).unwrap_err();
    assert_eq!(err.status, 502);
    assert_eq!(err.code, "responses_websocket_error");
    assert_eq!(err.message, format!("invalid upstream websocket header x-fine: {value_err}"));

    let err = check_upstream_headers(&vec![("bad name".to_string(), "v".to_string())]).unwrap_err();
    assert_eq!(err.message, format!("invalid upstream websocket header name bad name: {name_err}"));
}
