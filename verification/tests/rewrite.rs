use codexmanager::json::{JsonMap, JsonNumber, JsonValue};
use codexmanager::rewrite::{
    apply_reasoning_override, ensure_input_list, ensure_instructions, ensure_store_false,
    ensure_stream_true, is_responses_path, is_supported_codex_responses_key,
    is_supported_openai_responses_key, retain_codex_fields, retain_official_fields,
    take_stream_passthrough_flag,
};

fn s(v: &str) -> JsonValue {
    JsonValue::Str(v.to_string())
}

fn obj(entries: Vec<(&str, JsonValue)>) -> JsonMap {
    JsonMap { entries: entries.into_iter().map(|(k, v)| (k.to_string(), v)).collect() }
}

fn get<'a>(m: &'a JsonMap, key: &str) -> Option<&'a JsonValue> {
    m.entries.iter().find(|(k, _)| k == key).map(|(_, v)| v)
}

#[test]
fn responses_path_matching() {
    assert!(is_responses_path("/v1/responses"));
    assert!(is_responses_path("/v1/responses?stream=true"));
    assert!(!is_responses_path("/v1/responses/compact"));
    assert!(!is_responses_path("/v1/chat/completions"));
    assert!(!is_responses_path(""));
}

#[test]
fn instructions_are_added_only_when_missing() {
    let mut body = obj(vec![("model", s("gpt-5"))]);
    assert!(ensure_instructions("/v1/responses", &mut body));
    assert_eq!(get(&body, "instructions"), Some(&s("")));
    assert!(!ensure_instructions("/v1/responses", &mut body));
    let mut other = obj(vec![]);
    assert!(!ensure_instructions("/v1/models", &mut other));
    assert!(other.entries.is_empty());
}

#[test]
fn text_input_becomes_a_user_message_list() {
    let mut body = obj(vec![("input", s("hello"))]);
    assert!(ensure_input_list("/v1/responses", &mut body));
    let expected = JsonValue::Array(vec![JsonValue::Object(obj(vec![
        ("type", s("message")),
        ("role", s("user")),
        (
            "content",
            JsonValue::Array(vec![JsonValue::Object(obj(vec![
                ("type", s("input_text")),
                ("text", s("hello")),
            ]))]),
        ),
    ]))]);
    assert_eq!(get(&body, "input"), Some(&expected));

    let mut wrapped = obj(vec![("input", JsonValue::Object(obj(vec![("a", JsonValue::Null)])))]);
    assert!(ensure_input_list("/v1/responses", &mut wrapped));
    assert_eq!(
        get(&wrapped, "input"),
        Some(&JsonValue::Array(vec![JsonValue::Object(obj(vec![("a", JsonValue::Null)]))]))
    );

    let mut list = obj(vec![("input", JsonValue::Array(vec![]))]);
    assert!(!ensure_input_list("/v1/responses", &mut list));
    let mut missing = obj(vec![]);
    assert!(!ensure_input_list("/v1/responses", &mut missing));
}

#[test]
fn stream_and_store_are_forced() {
    let mut body = obj(vec![("stream", JsonValue::Bool(false)), ("store", JsonValue::Bool(true))]);
    assert!(ensure_stream_true("/v1/responses", &mut body));
    assert!(!ensure_stream_true("/v1/responses", &mut body));
    assert_eq!(get(&body, "stream"), Some(&JsonValue::Bool(true)));
    assert!(ensure_store_false("/v1/responses", &mut body));
    assert_eq!(get(&body, "store"), Some(&JsonValue::Bool(false)));
    assert!(!ensure_store_false("/v1/responses", &mut body));

    let mut empty = obj(vec![]);
    assert!(ensure_stream_true("/v1/responses", &mut empty));
    assert!(!ensure_store_false("/v1/responses", &mut empty));
    assert_eq!(get(&empty, "store"), Some(&JsonValue::Bool(false)));
    assert_eq!(empty.entries.len(), 2);
}

#[test]
fn passthrough_flag_is_taken_out() {
    let mut body = obj(vec![("stream_passthrough", JsonValue::Bool(true)), ("model", s("m"))]);
    assert!(take_stream_passthrough_flag("/v1/responses", &mut body));
    assert!(get(&body, "stream_passthrough").is_none());
    let mut text_flag = obj(vec![("stream_passthrough", s("true"))]);
    assert!(!take_stream_passthrough_flag("/v1/responses", &mut text_flag));
    assert!(text_flag.entries.is_empty());
    let mut elsewhere = obj(vec![("stream_passthrough", JsonValue::Bool(true))]);
    assert!(!take_stream_passthrough_flag("/v1/other", &mut elsewhere));
    assert_eq!(elsewhere.entries.len(), 1);
}

#[test]
fn reasoning_effort_is_overridden() {
    let mut body = obj(vec![("reasoning", s("high"))]);
    assert!(apply_reasoning_override("/v1/responses", &mut body, Some("low")));
    assert_eq!(get(&body, "reasoning"), Some(&JsonValue::Object(obj(vec![("effort", s("low"))]))));

    let mut keeps = obj(vec![(
        "reasoning",
        JsonValue::Object(obj(vec![("summary", s("auto")), ("effort", s("high"))])),
    )]);
    assert!(apply_reasoning_override("/v1/responses", &mut keeps, Some("medium")));
    assert_eq!(
        get(&keeps, "reasoning"),
        Some(&JsonValue::Object(obj(vec![("summary", s("auto")), ("effort", s("medium"))])))
    );
    assert!(!apply_reasoning_override("/v1/responses", &mut keeps, None));

    let mut fresh = obj(vec![]);
    assert!(apply_reasoning_override("/v1/responses", &mut fresh, Some("xhigh")));
    assert_eq!(get(&fresh, "reasoning"), Some(&JsonValue::Object(obj(vec![("effort", s("xhigh"))]))));
}

#[test]
fn allowlists_keep_only_known_keys() {
    assert!(is_supported_openai_responses_key("service_tier"));
    assert!(!is_supported_codex_responses_key("service_tier"));
    assert!(is_supported_codex_responses_key("prompt_cache_key"));
    assert!(!is_supported_openai_responses_key("prompt_cache_key"));

    let build = || {
        obj(vec![
            ("model", s("m")),
            ("service_tier", s("flex")),
            ("temperature", JsonValue::Number(JsonNumber::Float("0.5".to_string()))),
            ("prompt_cache_key", s("k")),
        ])
    };
    let mut official = build();
    let dropped = retain_official_fields("/v1/responses", &mut official);
    assert_eq!(dropped, vec!["prompt_cache_key".to_string()]);
    assert_eq!(official.entries.len(), 3);

    let mut codex = build();
    let dropped = retain_codex_fields("/v1/responses", &mut codex);
    assert_eq!(dropped, vec!["service_tier".to_string(), "temperature".to_string()]);
    let keys: Vec<&str> = codex.entries.iter().map(|(k, _)| k.as_str()).collect();
    assert_eq!(keys, vec!["model", "prompt_cache_key"]);

    let mut untouched = build();
    assert!(retain_codex_fields("/v1/chat/completions", &mut untouched).is_empty());
    assert_eq!(untouched.entries.len(), 4);
}
