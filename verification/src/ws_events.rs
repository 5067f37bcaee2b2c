//! What the gateway reads out of the events that the upstream sends on a
//! `/v1/responses` websocket: whether an event ends a request, with which
//! status, token usage and error message.
use crate::json::{
    json_parse, parse_json,
    as_i64_spec, as_object_spec, as_str_spec, as_u64_spec, get_value, member, member_spec,
    JsonValue, Members,
};
use crate::text::{eq_ignore_case, opt_str_view, opt_string_view, opt_trimmed, str_eq_ignore_case, trim, trim_slice, trimmed_non_empty};
use vstd::prelude::*;
use vstd::string::*;

verus! {

broadcast use vstd::string::group_string_axioms;

/// The token usage of one request, as the request log records it.
#[derive(Debug, PartialEq)]
pub struct RequestLogUsage {
    pub input_tokens: Option<i64>,
    pub cached_input_tokens: Option<i64>,
    pub output_tokens: Option<i64>,
    pub total_tokens: Option<i64>,
    pub reasoning_output_tokens: Option<i64>,
}

/// No usage known.
pub open spec fn no_usage() -> RequestLogUsage {
    RequestLogUsage {
        input_tokens: None,
        cached_input_tokens: None,
        output_tokens: None,
        total_tokens: None,
        reasoning_output_tokens: None,
    }
}

impl Default for RequestLogUsage {
    fn default() -> (r: Self)
        ensures
            r == no_usage(),
    {
        RequestLogUsage {
            input_tokens: None,
            cached_input_tokens: None,
            output_tokens: None,
            total_tokens: None,
            reasoning_output_tokens: None,
        }
    }
}

/// The first of two optional values that is present.
pub open spec fn or_else<T>(a: Option<T>, b: Option<T>) -> Option<T> {
    if a is Some {
        a
    } else {
        b
    }
}

/// The value as an object, where it is one.
pub open spec fn object_of(v: Option<JsonValue>) -> Option<Members> {
    match v {
        Some(x) => as_object_spec(x),
        None => None,
    }
}

/// The usage object of an event: `response.usage` where it is an object,
/// else the top-level `usage` where that is one.
pub open spec fn usage_members(v: JsonValue) -> Option<Members> {
    or_else(
        object_of(member_spec(member_spec(Some(v), "response"@), "usage"@)),
        object_of(member_spec(Some(v), "usage"@)),
    )
}

/// An integer member of the usage object.
pub open spec fn usage_int(u: Option<Members>, k: Seq<char>) -> Option<i64> {
    match u {
        Some(m) => match get_value(m, k) {
            Some(x) => as_i64_spec(x),
            None => None,
        },
        None => None,
    }
}

/// An integer member of a member of the usage object.
pub open spec fn usage_nested_int(u: Option<Members>, outer: Seq<char>, inner: Seq<char>) -> Option<
    i64,
> {
    match u {
        Some(m) => match member_spec(get_value(m, outer), inner) {
            Some(x) => as_i64_spec(x),
            None => None,
        },
        None => None,
    }
}

/// The usage that an event reports, each count read under its Responses
/// name first and under its Chat Completions (or flat) name otherwise.
pub open spec fn usage_spec(v: JsonValue) -> RequestLogUsage {
    let u = usage_members(v);
    RequestLogUsage {
        input_tokens: or_else(usage_int(u, "input_tokens"@), usage_int(u, "prompt_tokens"@)),
        cached_input_tokens: or_else(
            usage_nested_int(u, "input_tokens_details"@, "cached_tokens"@),
            usage_int(u, "cached_input_tokens"@),
        ),
        output_tokens: or_else(usage_int(u, "output_tokens"@), usage_int(u, "completion_tokens"@)),
        total_tokens: usage_int(u, "total_tokens"@),
        reasoning_output_tokens: or_else(
            usage_nested_int(u, "output_tokens_details"@, "reasoning_tokens"@),
            usage_int(u, "reasoning_output_tokens"@),
        ),
    }
}

/// The value of `v`, where present, as an integer.
fn int_of(v: Option<&JsonValue>) -> (r: Option<i64>)
    ensures
        r == match v {
            Some(x) => as_i64_spec(*x),
            None => None,
        },
{
    match v {
        Some(x) => x.as_i64(),
        None => None,
    }
}

/// The usage object of an event.
fn usage_object<'a>(value: &'a JsonValue) -> (r: Option<&'a crate::json::JsonMap>)
    ensures
        match r {
            Some(m) => usage_members(*value) == Some(m@),
            None => usage_members(*value) is None,
        },
{
    let nested = member(member(Some(value), "response"), "usage");
    let nested_object = match nested {
        Some(v) => v.as_object(),
        None => None,
    };
    if nested_object.is_some() {
        return nested_object;
    }
    match member(Some(value), "usage") {
        Some(v) => v.as_object(),
        None => None,
    }
}

/// An integer member of the usage object.
fn usage_field(u: Option<&crate::json::JsonMap>, k: &str) -> (r: Option<i64>)
    ensures
        r == usage_int(
            match u {
                Some(m) => Some(m@),
                None => None,
            },
            k@,
        ),
{
    match u {
        Some(m) => int_of(m.get(k)),
        None => None,
    }
}

/// An integer member of a member of the usage object.
fn usage_nested_field(u: Option<&crate::json::JsonMap>, outer: &str, inner: &str) -> (r: Option<
    i64,
>)
    ensures
        r == usage_nested_int(
            match u {
                Some(m) => Some(m@),
                None => None,
            },
            outer@,
            inner@,
        ),
{
    match u {
        Some(m) => {
            let o = m.get(outer);
            int_of(member(o, inner))
        },
        None => None,
    }
}

/// The token usage that an upstream event reports.
pub fn parse_ws_usage(value: &JsonValue) -> (r: RequestLogUsage)
    ensures
        r == usage_spec(*value),
{
    let usage = usage_object(value);
    let input = usage_field(usage, "input_tokens");
    let cached = usage_nested_field(usage, "input_tokens_details", "cached_tokens");
    let output = usage_field(usage, "output_tokens");
    let reasoning = usage_nested_field(usage, "output_tokens_details", "reasoning_tokens");
    RequestLogUsage {
        input_tokens: if input.is_some() {
            input
        } else {
            usage_field(usage, "prompt_tokens")
        },
        cached_input_tokens: if cached.is_some() {
            cached
        } else {
            usage_field(usage, "cached_input_tokens")
        },
        output_tokens: if output.is_some() {
            output
        } else {
            usage_field(usage, "completion_tokens")
        },
        total_tokens: usage_field(usage, "total_tokens"),
        reasoning_output_tokens: if reasoning.is_some() {
            reasoning
        } else {
            usage_field(usage, "reasoning_output_tokens")
        },
    }
}

/// A text member of `v`, where present.
pub open spec fn text_member(v: Option<JsonValue>, k: Seq<char>) -> Option<Seq<char>> {
    match member_spec(v, k) {
        Some(x) => as_str_spec(x),
        None => None,
    }
}

/// The error message of an event: `error.message`, trimmed, where it is a
/// text that is not blank; else the top-level `message` in the same way.
pub open spec fn error_message_spec(v: JsonValue) -> Option<Seq<char>> {
    or_else(
        opt_trimmed(text_member(member_spec(Some(v), "error"@), "message"@)),
        opt_trimmed(text_member(Some(v), "message"@)),
    )
}

fn text_of<'a>(v: Option<&'a JsonValue>) -> (r: Option<&'a str>)
    ensures
        opt_str_view(r) == match v {
            Some(x) => as_str_spec(*x),
            None => None,
        },
{
    match v {
        Some(x) => x.as_str(),
        None => None,
    }
}

/// The error message of an upstream event.
pub fn extract_ws_error_message(value: &JsonValue) -> (r: Option<String>)
    ensures
        opt_string_view(r) == error_message_spec(*value),
{
    let nested = trimmed_non_empty(text_of(member(member(Some(value), "error"), "message")));
    if nested.is_some() {
        return nested;
    }
    trimmed_non_empty(text_of(member(Some(value), "message")))
}

/// An upstream event that ends a request.
#[derive(Debug, PartialEq)]
pub struct WsTerminalEvent {
    pub status_code: u16,
    pub usage: RequestLogUsage,
    pub error: Option<String>,
}

/// The status of a failed request: the event's `status` where it is an
/// integer that fits a status code, 502 otherwise.
pub open spec fn failure_status_spec(v: JsonValue) -> u16 {
    match member_spec(Some(v), "status"@) {
        Some(s) => match as_u64_spec(s) {
            Some(n) => if n <= 65535 {
                n as u16
            } else {
                502
            },
            None => 502,
        },
        None => 502,
    }
}

/// The kind of terminal event that an upstream event is, by its `type`
/// (trimmed, ignoring ASCII case).
#[derive(Clone, Copy, Debug, PartialEq, Eq, Structural)]
pub enum TerminalKind {
    Completed,
    Failed,
    Error,
}

/// The kind of terminal event that `v` is, none where it ends no request.
pub open spec fn terminal_kind_spec(v: JsonValue) -> Option<TerminalKind> {
    match text_member(Some(v), "type"@) {
        None => None,
        Some(t) => {
            let t = trim(t);
            if eq_ignore_case(t, "response.completed"@) || eq_ignore_case(t, "response.done"@) {
                Some(TerminalKind::Completed)
            } else if eq_ignore_case(t, "response.failed"@) {
                Some(TerminalKind::Failed)
            } else if eq_ignore_case(t, "error"@) {
                Some(TerminalKind::Error)
            } else {
                None
            }
        },
    }
}

/// The status of a failed request.
fn failure_status(value: &JsonValue) -> (r: u16)
    ensures
        r == failure_status_spec(*value),
{
    match member(Some(value), "status") {
        Some(s) => match s.as_u64() {
            Some(n) => if n <= 65535 {
                n as u16
            } else {
                502
            },
            None => 502,
        },
        None => 502,
    }
}

/// How an upstream event ends the request in flight, if it does: a
/// completion with status 200 and its usage; a failure with its status (502
/// by default), usage and error message; or an error with its status and
/// message and no usage.
pub open spec fn terminal_event_ok(value: JsonValue, r: Option<WsTerminalEvent>) -> bool {
    match terminal_kind_spec(value) {
        None => r is None,
        Some(TerminalKind::Completed) => r matches Some(e) && e.status_code == 200 && e.usage
            == usage_spec(value) && e.error is None,
        Some(TerminalKind::Failed) => r matches Some(e) && e.status_code == failure_status_spec(
            value,
        ) && e.usage == usage_spec(value) && opt_string_view(e.error) == error_message_spec(
            value,
        ),
        Some(TerminalKind::Error) => r matches Some(e) && e.status_code == failure_status_spec(
            value,
        ) && e.usage == no_usage() && opt_string_view(e.error) == error_message_spec(value),
    }
}

/// Whether an upstream event ends the request in flight, and how.
pub fn inspect_ws_terminal_event(value: &JsonValue) -> (r: Option<WsTerminalEvent>)
    ensures
        terminal_event_ok(*value, r),
{
    let Some(event_type) = text_of(member(Some(value), "type")) else {
        return None;
    };
    let event_type = trim_slice(event_type);
    if str_eq_ignore_case(event_type, "response.completed") || str_eq_ignore_case(
        event_type,
        "response.done",
    ) {
        Some(
            WsTerminalEvent { status_code: 200, usage: parse_ws_usage(value), error: None },
        )
    } else if str_eq_ignore_case(event_type, "response.failed") {
        Some(
            WsTerminalEvent {
                status_code: failure_status(value),
                usage: parse_ws_usage(value),
                error: extract_ws_error_message(value),
            },
        )
    } else if str_eq_ignore_case(event_type, "error") {
        Some(
            WsTerminalEvent {
                status_code: failure_status(value),
                usage: RequestLogUsage::default(),
                error: extract_ws_error_message(value),
            },
        )
    } else {
        None
    }
}


/// Whether an upstream text frame ends the request in flight, and how: text
/// that is not JSON ends nothing; otherwise as `inspect_ws_terminal_event`
/// reads the value.
pub fn inspect_ws_terminal_text(text: &str) -> (r: Option<WsTerminalEvent>)
    ensures
        match json_parse(text@) {
            Err(_) => r is None,
            Ok(v) => terminal_event_ok(v, r),
        },
{
    match parse_json(text) {
        Ok(value) => inspect_ws_terminal_event(&value),
        Err(_) => None,
    }
}

} // verus!
