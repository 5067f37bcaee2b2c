use codexmanager::codex_headers::{
    append_optional_env_header, append_passthrough_codex_headers, build_codex_compact_upstream_headers,
    build_codex_upstream_headers, resolve_client_request_id, resolve_optional_session_id,
    resolve_window_id, CodexCompactUpstreamHeaderInput, CodexRuntimeHeaders,
    CodexUpstreamHeaderInput,
};

fn header_value<'a>(headers: &'a [(String, String)], name: &str) -> Option<&'a str> {
    headers
        .iter()
        .find(|(header_name, _)| header_name.eq_ignore_ascii_case(name))
        .map(|(_, value)| value.as_str())
}

fn runtime(originator: &str, version: &str, organization: Option<&str>, project: Option<&str>) -> CodexRuntimeHeaders {
    CodexRuntimeHeaders {
        user_agent: format!("{originator}/{version} (Linux; x86_64) test"),
        user_agent_version: version.to_string(),
        originator: originator.to_string(),
        residency_requirement: None,
        organization: organization.map(str::to_string),
        project: project.map(str::to_string),
    }
}

#[test]
fn build_codex_upstream_headers_keeps_final_affinity_shape() {
    let rt = runtime("codex_cli_rs_tests", "0.999.0", Some("org_123"), Some("proj_123"));
    let passthrough = vec![(
        "x-codex-other-limit-name".to_string(),
        "promo_header_a".to_string(),
    )];

    let headers = build_codex_upstream_headers(
        CodexUpstreamHeaderInput {
            auth_token: "token-123",
            chatgpt_account_id: Some("account-123"),
            incoming_session_id: Some("conversation-anchor"),
            incoming_window_id: Some("conversation-anchor:7"),
            incoming_client_request_id: Some("conversation-anchor"),
            incoming_subagent: Some("subagent-a"),
            incoming_beta_features: Some("beta-a"),
            incoming_turn_metadata: Some("meta-a"),
            incoming_parent_thread_id: Some("thread-parent-a"),
            passthrough_codex_headers: passthrough.as_slice(),
            fallback_session_id: Some("conversation-anchor"),
            incoming_turn_state: Some("turn-state-a"),
            include_turn_state: true,
            strip_session_affinity: false,
            has_body: true,
        },
        &rt,
    );

    assert_eq!(header_value(&headers, "Authorization"), Some("Bearer token-123"));
    assert_eq!(header_value(&headers, "ChatGPT-Account-ID"), Some("account-123"));
    assert_eq!(header_value(&headers, "Content-Type"), Some("application/json"));
    assert_eq!(header_value(&headers, "Accept"), Some("text/event-stream"));
    assert_eq!(header_value(&headers, "OpenAI-Beta"), None);
    assert_eq!(header_value(&headers, "x-responsesapi-include-timing-metrics"), None);
    let expected_user_agent_prefix = format!("{}/0.999.0", "codex_cli_rs_tests");
    assert_eq!(
        header_value(&headers, "User-Agent")
            .map(|value| value.starts_with(expected_user_agent_prefix.as_str())),
        Some(true)
    );
    assert_eq!(header_value(&headers, "originator"), Some("codex_cli_rs_tests"));
    assert_eq!(header_value(&headers, "version"), Some("0.999.0"));
    assert_eq!(header_value(&headers, "OpenAI-Organization"), Some("org_123"));
    assert_eq!(header_value(&headers, "OpenAI-Project"), Some("proj_123"));
    assert_eq!(header_value(&headers, "x-client-request-id"), Some("conversation-anchor"));
    assert_eq!(header_value(&headers, "session_id"), Some("conversation-anchor"));
    assert_eq!(header_value(&headers, "x-codex-window-id"), Some("conversation-anchor:7"));
    assert_eq!(header_value(&headers, "x-codex-turn-state"), Some("turn-state-a"));
    assert_eq!(header_value(&headers, "x-codex-parent-thread-id"), Some("thread-parent-a"));
    assert_eq!(header_value(&headers, "x-codex-other-limit-name"), Some("promo_header_a"));
}

#[test]
fn build_codex_upstream_headers_clears_turn_state_when_affinity_diverges() {
    let rt = runtime("codex_cli_rs_tests", "0.999.1", None, None);
    let passthrough = vec![(
        "x-codex-other-limit-name".to_string(),
        "promo_header_b".to_string(),
    )];

    let headers = build_codex_upstream_headers(
        CodexUpstreamHeaderInput {
            auth_token: "token-456",
            chatgpt_account_id: None,
            incoming_session_id: Some("conversation-anchor"),
            incoming_window_id: Some("conversation-anchor:9"),
            incoming_client_request_id: Some("conversation-anchor"),
            incoming_subagent: None,
            incoming_beta_features: None,
            incoming_turn_metadata: None,
            incoming_parent_thread_id: Some("thread-parent-b"),
            passthrough_codex_headers: passthrough.as_slice(),
            fallback_session_id: Some("prompt-cache-anchor"),
            incoming_turn_state: None,
            include_turn_state: true,
            strip_session_affinity: false,
            has_body: false,
        },
        &rt,
    );

    assert_eq!(header_value(&headers, "Accept"), Some("text/event-stream"));
    assert_eq!(header_value(&headers, "x-client-request-id"), Some("conversation-anchor"));
    assert_eq!(header_value(&headers, "session_id"), Some("conversation-anchor"));
    assert_eq!(header_value(&headers, "x-codex-window-id"), Some("conversation-anchor:9"));
    assert_eq!(header_value(&headers, "x-codex-turn-state"), None);
    assert_eq!(header_value(&headers, "x-codex-parent-thread-id"), Some("thread-parent-b"));
    assert_eq!(header_value(&headers, "x-codex-other-limit-name"), Some("promo_header_b"));
}

#[test]
fn build_codex_compact_upstream_headers_use_session_fallback_only() {
    let rt = runtime("codex_cli_rs_tests", "0.999.2", None, None);
    let passthrough = vec![(
        "x-codex-other-limit-name".to_string(),
        "promo_header_c".to_string(),
    )];

    let headers = build_codex_compact_upstream_headers(
        CodexCompactUpstreamHeaderInput {
            auth_token: "token-789",
            chatgpt_account_id: Some("account-compact"),
            incoming_session_id: None,
            incoming_window_id: Some("conversation-anchor:11"),
            incoming_subagent: Some("subagent-b"),
            incoming_parent_thread_id: Some("thread-parent-c"),
            passthrough_codex_headers: passthrough.as_slice(),
            fallback_session_id: Some("conversation-anchor"),
            strip_session_affinity: true,
            has_body: true,
        },
        &rt,
    );

    assert_eq!(header_value(&headers, "Accept"), Some("application/json"));
    assert_eq!(header_value(&headers, "ChatGPT-Account-ID"), Some("account-compact"));
    assert_eq!(header_value(&headers, "x-client-request-id"), None);
    assert_eq!(header_value(&headers, "session_id"), Some("conversation-anchor"));
    assert_eq!(header_value(&headers, "x-codex-window-id"), Some("conversation-anchor:0"));
    assert_eq!(header_value(&headers, "x-codex-turn-state"), None);
    assert_eq!(header_value(&headers, "OpenAI-Beta"), None);
    assert_eq!(header_value(&headers, "x-responsesapi-include-timing-metrics"), None);
    assert_eq!(header_value(&headers, "version"), Some("0.999.2"));
    assert_eq!(header_value(&headers, "x-openai-subagent"), Some("subagent-b"));
    assert_eq!(header_value(&headers, "x-codex-parent-thread-id"), Some("thread-parent-c"));
    assert_eq!(header_value(&headers, "x-codex-other-limit-name"), None);
}

#[test]
fn upstream_headers_follow_the_documented_order() {
    let mut rt = runtime("codex_cli_rs", "0.101.0", Some("  org  "), Some("   "));
    rt.residency_requirement = Some("us".to_string());
    let headers = build_codex_upstream_headers(
        CodexUpstreamHeaderInput {
            auth_token: "tok",
            chatgpt_account_id: Some("  acc  "),
            incoming_session_id: None,
            incoming_window_id: None,
            incoming_client_request_id: None,
            incoming_subagent: None,
            incoming_beta_features: None,
            incoming_turn_metadata: None,
            incoming_parent_thread_id: None,
            passthrough_codex_headers: &[],
            fallback_session_id: None,
            incoming_turn_state: Some("ts"),
            include_turn_state: false,
            strip_session_affinity: false,
            has_body: false,
        },
        &rt,
    );
    let names: Vec<&str> = headers.iter().map(|(n, _)| n.as_str()).collect();
    assert_eq!(
        names,
        vec![
            "Authorization",
            "ChatGPT-Account-ID",
            "Accept",
            "User-Agent",
            "version",
            "OpenAI-Organization",
            "originator",
            "x-openai-internal-codex-residency",
        ]
    );
    assert_eq!(header_value(&headers, "ChatGPT-Account-ID"), Some("acc"));
    assert_eq!(header_value(&headers, "OpenAI-Organization"), Some("org"));
    assert_eq!(header_value(&headers, "x-openai-internal-codex-residency"), Some("us"));
    assert_eq!(header_value(&headers, "session_id"), None);
}

#[test]
fn stripped_affinity_drops_turn_state_and_passthrough() {
    let rt = runtime("codex_cli_rs", "0.101.0", None, None);
    let passthrough = vec![("x-codex-turn-state".to_string(), "from-passthrough".to_string())];
    let headers = build_codex_upstream_headers(
        CodexUpstreamHeaderInput {
            auth_token: "tok",
            chatgpt_account_id: None,
            incoming_session_id: Some("incoming-thread"),
            incoming_window_id: Some("incoming-thread:3"),
            incoming_client_request_id: None,
            incoming_subagent: None,
            incoming_beta_features: None,
            incoming_turn_metadata: None,
            incoming_parent_thread_id: None,
            passthrough_codex_headers: passthrough.as_slice(),
            fallback_session_id: Some(" new-thread "),
            incoming_turn_state: Some("turn-state"),
            include_turn_state: true,
            strip_session_affinity: true,
            has_body: true,
        },
        &rt,
    );
    assert_eq!(header_value(&headers, "x-codex-turn-state"), None);
    assert_eq!(header_value(&headers, "session_id"), Some("new-thread"));
    assert_eq!(header_value(&headers, "x-codex-window-id"), Some("new-thread:0"));
}

#[test]
fn session_and_window_resolution() {
    assert_eq!(resolve_optional_session_id(Some("  a  "), Some("b"), false).as_deref(), Some("a"));
    assert_eq!(resolve_optional_session_id(Some("   "), Some(" b "), false).as_deref(), Some("b"));
    assert_eq!(resolve_optional_session_id(Some("a"), Some("b"), true).as_deref(), Some("b"));
    assert_eq!(resolve_optional_session_id(Some("a"), None, true), None);
    assert_eq!(resolve_optional_session_id(None, Some("  "), false), None);
    assert_eq!(resolve_window_id(Some(" w "), Some("s"), false).as_deref(), Some("w"));
    assert_eq!(resolve_window_id(Some("w"), Some(" s "), true).as_deref(), Some("s:0"));
    assert_eq!(resolve_window_id(None, None, false), None);
    assert_eq!(resolve_client_request_id(Some("  id  ")).as_deref(), Some("id"));
    assert_eq!(resolve_client_request_id(Some("\t")), None);
}

#[test]
fn passthrough_never_overrides_an_existing_header() {
    let mut headers = vec![("Accept".to_string(), "text/event-stream".to_string())];
    let passthrough = vec![
        ("accept".to_string(), "application/xml".to_string()),
        ("x-codex-a".to_string(), "  one  ".to_string()),
        ("X-CODEX-A".to_string(), "two".to_string()),
        ("x-codex-b".to_string(), "   ".to_string()),
    ];
    append_passthrough_codex_headers(&mut headers, &passthrough, true);
    assert_eq!(
        headers,
        vec![
            ("Accept".to_string(), "text/event-stream".to_string()),
            ("x-codex-a".to_string(), "one".to_string()),
        ]
    );
    let mut untouched = vec![("a".to_string(), "b".to_string())];
    append_passthrough_codex_headers(&mut untouched, &passthrough, false);
    assert_eq!(untouched.len(), 1);
}

#[test]
fn environment_headers_are_trimmed_and_skipped_when_blank() {
    let mut headers = Vec::new();
    append_optional_env_header(&mut headers, "OpenAI-Project", Some("  proj  "));
    append_optional_env_header(&mut headers, "OpenAI-Organization", Some("  "));
    append_optional_env_header(&mut headers, "OpenAI-Organization", None);
    assert_eq!(headers, vec![("OpenAI-Project".to_string(), "proj".to_string())]);
}

#[test]
fn compact_headers_are_stream_headers_with_json_accept() {
    let rt = runtime("codex_cli_rs_tests", "0.999.3", Some("org_1"), None);
    let passthrough = vec![("x-codex-extra".to_string(), " extra ".to_string())];
    let compact = build_codex_compact_upstream_headers(
        CodexCompactUpstreamHeaderInput {
            auth_token: "token-1",
            chatgpt_account_id: Some("account-1"),
            incoming_session_id: Some("thread-1"),
            incoming_window_id: None,
            incoming_subagent: Some("sub"),
            incoming_parent_thread_id: None,
            passthrough_codex_headers: passthrough.as_slice(),
            fallback_session_id: None,
            strip_session_affinity: false,
            has_body: true,
        },
        &rt,
    );
    let stream = build_codex_upstream_headers(
        CodexUpstreamHeaderInput {
            auth_token: "token-1",
            chatgpt_account_id: Some("account-1"),
            incoming_session_id: Some("thread-1"),
            incoming_window_id: None,
            incoming_client_request_id: None,
            incoming_subagent: Some("sub"),
            incoming_beta_features: None,
            incoming_turn_metadata: None,
            incoming_parent_thread_id: None,
            passthrough_codex_headers: passthrough.as_slice(),
            fallback_session_id: None,
            incoming_turn_state: Some("turn"),
            include_turn_state: false,
            strip_session_affinity: false,
            has_body: true,
        },
        &rt,
    );
    let mut expected = stream.clone();
    let accept = expected.iter().position(|(name, _)| name == "Accept").expect("accept");
    assert_eq!(accept, 3);
    assert_eq!(expected[accept].1, "text/event-stream");
    expected[accept].1 = "application/json".to_string();
    assert_eq!(compact, expected);
    assert_eq!(compact.last().map(|(n, v)| (n.as_str(), v.as_str())), Some(("x-codex-extra", "extra")));
}
