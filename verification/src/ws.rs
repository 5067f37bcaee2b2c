//! The `/v1/responses` websocket bridge: which requests may upgrade, how a
//! client frame is checked before and after the body rewrite, which headers
//! go upstream, and what the session does with each frame or failure.
use crate::codex_headers::{
    headers_view, lemma_contains_after_push_opt, lemma_push_opt_contains, push_opt, HeaderSeq,
};
use crate::json::{
    as_str_spec, get_value, has_key, insert_spec, json_object_text, json_object_to_text,
    json_parse, keys_distinct, member_spec, members_wf, parse_json, remove_spec, JsonMap,
    JsonNumber, JsonValue, Members,
};
use crate::text::{
    comma_pieces, eq_ignore_case, opt_str_view, opt_string_view, opt_trimmed, split_commas,
    str_eq, str_eq_ignore_case, trim, trim_slice, trimmed_non_empty,
};
use crate::ws_events::{or_else, text_member, RequestLogUsage, WsTerminalEvent};
use vstd::prelude::*;
use vstd::string::*;

verus! {

broadcast use vstd::string::group_string_axioms;

/// The code of the errors that the bridge itself reports.
pub const RESPONSES_WS_ERROR_CODE: &'static str = "responses_websocket_error";

/// The `OpenAI-Beta` value that selects the websocket transport upstream.
pub const RESPONSES_WS_BETA_HEADER_VALUE: &'static str = "responses_websockets=2026-02-06";

/// An error that ends a websocket session: a status, a code and a message.
#[derive(Debug, PartialEq)]
pub struct WsSessionError {
    pub status: u16,
    pub code: String,
    pub message: String,
}

/// The error has this status, code and message.
pub open spec fn is_error(e: WsSessionError, status: u16, code: Seq<char>, message: Seq<char>) -> bool {
    e.status == status && e.code@ == code && e.message@ == message
}

impl WsSessionError {
    /// An error with this status, code and message.
    pub fn new(status: u16, code: String, message: String) -> (r: Self)
        ensures
            r.status == status,
            r.code == code,
            r.message == message,
    {
        WsSessionError { status, code, message }
    }

    /// A 400 error with the code `invalid_request_error`.
    pub fn bad_request(message: String) -> (r: Self)
        ensures
            is_error(r, 400, "invalid_request_error"@, message@),
    {
        Self::new(400, "invalid_request_error".to_string(), message)
    }

    /// A 502 error with the bridge's own code.
    pub fn bad_gateway(message: String) -> (r: Self)
        ensures
            is_error(r, 502, RESPONSES_WS_ERROR_CODE@, message@),
    {
        Self::new(502, RESPONSES_WS_ERROR_CODE.to_string(), message)
    }

    /// A 503 error with the bridge's own code.
    pub fn service_unavailable(message: String) -> (r: Self)
        ensures
            is_error(r, 503, RESPONSES_WS_ERROR_CODE@, message@),
    {
        Self::new(503, RESPONSES_WS_ERROR_CODE.to_string(), message)
    }
}

/// A text made of a fixed prefix and a variable part.
fn prefixed(prefix: &str, rest: &str) -> (r: String)
    ensures
        r@ == prefix@ + rest@,
{
    let mut s = prefix.to_string();
    s.append(rest);
    s
}

/// Whether the `Connection` header lists the `upgrade` token.
pub open spec fn connection_has_upgrade(connection: Seq<char>) -> bool {
    exists|i: int|
        0 <= i < comma_pieces(connection).len() && eq_ignore_case(
            trim(#[trigger] comma_pieces(connection)[i]),
            "upgrade"@,
        )
}

/// Whether a request asks to upgrade to a websocket: `Upgrade: websocket`
/// and a `Connection` header that lists `upgrade`, ignoring ASCII case.
pub open spec fn is_websocket_upgrade_spec(upgrade: Option<Seq<char>>, connection: Option<Seq<char>>) -> bool {
    &&& upgrade matches Some(u) && eq_ignore_case(u, "websocket"@)
    &&& connection matches Some(c) && connection_has_upgrade(c)
}

/// Whether a request asks to upgrade to a websocket, given its `Upgrade`
/// and `Connection` headers (where they are present and valid text).
pub fn is_websocket_upgrade_request(upgrade: Option<&str>, connection: Option<&str>) -> (r: bool)
    ensures
        r == is_websocket_upgrade_spec(opt_str_view(upgrade), opt_str_view(connection)),
{
    let upgrade_is_websocket = match upgrade {
        Some(u) => str_eq_ignore_case(u, "websocket"),
        None => false,
    };
    let connection_has = match connection {
        Some(c) => {
            let pieces = split_commas(c);
            let ghost pv = pieces@.map_values(|x: String| x@);
            let mut found = false;
            let mut i: usize = 0;
            while i < pieces.len()
                invariant
                    i <= pieces@.len(),
                    pv == pieces@.map_values(|x: String| x@),
                    pv == comma_pieces(c@),
                    found == exists|j: int| 0 <= j < i && eq_ignore_case(trim(#[trigger] pv[j]), "upgrade"@),
                decreases pieces@.len() - i,
            {
                if str_eq_ignore_case(trim_slice(pieces[i].as_str()), "upgrade") {
                    assert(eq_ignore_case(trim(pv[i as int]), "upgrade"@));
                    found = true;
                }
                i = i + 1;
            }
            found
        },
        None => false,
    };
    upgrade_is_websocket && connection_has
}

/// Whether a header value reads as true: `true`, `1`, `yes` or `on`,
/// trimmed and ignoring ASCII case.
pub open spec fn bool_header_spec(value: Option<Seq<char>>) -> bool {
    value matches Some(v) && ({
        let t = trim(v);
        eq_ignore_case(t, "true"@) || eq_ignore_case(t, "1"@) || eq_ignore_case(t, "yes"@)
            || eq_ignore_case(t, "on"@)
    })
}

/// Whether a header value reads as true.
pub fn parse_bool_header(value: Option<&str>) -> (r: bool)
    ensures
        r == bool_header_spec(opt_str_view(value)),
{
    match value {
        Some(v) => {
            let raw = trim_slice(v);
            str_eq_ignore_case(raw, "true") || str_eq_ignore_case(raw, "1") || str_eq_ignore_case(
                raw,
                "yes",
            ) || str_eq_ignore_case(raw, "on")
        },
        None => false,
    }
}

/// The turn metadata carried into `client_metadata`: where the turn
/// metadata header is not blank, it is added under `x-codex-turn-metadata`
/// to an object (unless already present there), or it becomes the only
/// member of a new object where there was none; a value that is not an
/// object is kept as it is.
pub open spec fn merged_metadata_ok(
    client_metadata: Option<JsonValue>,
    turn_metadata: Option<Seq<char>>,
    r: Option<JsonValue>,
) -> bool {
    match opt_trimmed(turn_metadata) {
        None => r == client_metadata,
        Some(t) => match client_metadata {
            Some(JsonValue::Object(m)) => if has_key(m@, "x-codex-turn-metadata"@) {
                r == client_metadata
            } else {
                r matches Some(JsonValue::Object(n)) && n@.drop_last() == m@ && n@.len() == m@.len()
                    + 1 && n@.last().0 == "x-codex-turn-metadata"@ && crate::json::is_str(
                    n@.last().1,
                    t,
                )
            },
            Some(other) => r == client_metadata,
            None => r matches Some(JsonValue::Object(n)) && n@.len() == 1 && n@[0].0
                == "x-codex-turn-metadata"@ && crate::json::is_str(n@[0].1, t),
        },
    }
}

/// Adds the turn metadata header to the client metadata of a frame.
pub fn merge_turn_metadata(client_metadata: Option<JsonValue>, turn_metadata: Option<&str>) -> (r:
    Option<JsonValue>)
    requires
        client_metadata matches Some(JsonValue::Object(m)) ==> keys_distinct(m@),
    ensures
        merged_metadata_ok(client_metadata, opt_str_view(turn_metadata), r),
{
    let Some(turn_metadata) = trimmed_non_empty(turn_metadata) else {
        return client_metadata;
    };
    match client_metadata {
        Some(JsonValue::Object(mut object)) => {
            if object.contains_key("x-codex-turn-metadata") {
                Some(JsonValue::Object(object))
            } else {
                let ghost before = object@;
                let value = JsonValue::Str(turn_metadata);
                object.insert("x-codex-turn-metadata".to_string(), value);
                assert(object@.drop_last() =~= before);
                Some(JsonValue::Object(object))
            }
        },
        Some(other) => Some(other),
        None => {
            let mut object = JsonMap::new();
            object.insert("x-codex-turn-metadata".to_string(), JsonValue::Str(turn_metadata));
            Some(JsonValue::Object(object))
        },
    }
}

/// The error event sent to the client before the bridge closes:
/// `{"type": "error", "status": <status>, "error": {"code": <code>,
/// "message": <message>}}`.
pub open spec fn is_error_payload(v: JsonValue, e: WsSessionError) -> bool {
    &&& v matches JsonValue::Object(m) && m@.len() == 3
    &&& ({
        let m = v->Object_0@;
        &&& m[0].0 == "type"@ && crate::json::is_str(m[0].1, "error"@)
        &&& m[1].0 == "status"@ && m[1].1 == JsonValue::Number(JsonNumber::PosInt(e.status as u64))
        &&& m[2].0 == "error"@
        &&& m[2].1 matches JsonValue::Object(inner) && inner@.len() == 2
        &&& ({
            let inner = m[2].1->Object_0@;
            &&& inner[0].0 == "code"@ && crate::json::is_str(inner[0].1, e.code@)
            &&& inner[1].0 == "message"@ && crate::json::is_str(inner[1].1, e.message@)
        })
    })
}

/// The error event sent to the client before the bridge closes.
pub fn ws_error_payload(err: WsSessionError) -> (r: JsonValue)
    ensures
        is_error_payload(r, err),
{
    proof {
        reveal_strlit("type");
        reveal_strlit("status");
        reveal_strlit("error");
        reveal_strlit("code");
        reveal_strlit("message");
    }
    let ghost e = err;
    let mut inner = JsonMap::new();
    let code = JsonValue::Str(err.code);
    inner.insert("code".to_string(), code);
    let message = JsonValue::Str(err.message);
    assert(!has_key(inner@, "message"@)) by {
        assert("code"@.len() != "message"@.len());
        assert(inner@[0].0 != "message"@);
    }
    inner.insert("message".to_string(), message);
    assert(inner@ == seq![("code"@, code), ("message"@, message)]);
    let mut outer = JsonMap::new();
    let type_value = JsonValue::Str("error".to_string());
    outer.insert("type".to_string(), type_value);
    let status = JsonValue::Number(JsonNumber::PosInt(err.status as u64));
    assert(!has_key(outer@, "status"@)) by {
        assert("type"@.len() != "status"@.len());
        assert(outer@[0].0 != "status"@);
    }
    outer.insert("status".to_string(), status);
    let inner_value = JsonValue::Object(inner);
    assert(!has_key(outer@, "error"@)) by {
        assert("type"@.len() != "error"@.len());
        assert("status"@.len() != "error"@.len());
        assert(outer@[0].0 != "error"@);
        assert(outer@[1].0 != "error"@);
    }
    outer.insert("error".to_string(), inner_value);
    assert(outer@ == seq![("type"@, type_value), ("status"@, status), ("error"@, inner_value)]);
    JsonValue::Object(outer)
}

/// What the client sent while the bridge waits for the first request.
pub enum InitialFrame {
    /// The client closed the socket without a frame.
    Ended,
    /// A text frame.
    Text,
    Ping,
    Pong,
    Close,
    Binary,
    /// Receiving failed with this error text.
    Failed(String),
}

/// What the bridge does with a frame while it waits for the first request.
#[derive(Debug, PartialEq)]
pub enum InitialAction {
    /// End quietly.
    Stop,
    /// The text frame is the first request.
    Accept,
    /// Answer the ping with a pong and keep waiting.
    ReplyPong,
    /// Keep waiting.
    Wait,
    /// End with this error.
    Reject(WsSessionError),
}

/// What the bridge does with a frame while it waits for the first request.
pub open spec fn initial_action_ok(frame: InitialFrame, a: InitialAction) -> bool {
    match frame {
        InitialFrame::Ended | InitialFrame::Close => a is Stop,
        InitialFrame::Text => a is Accept,
        InitialFrame::Ping => a is ReplyPong,
        InitialFrame::Pong => a is Wait,
        InitialFrame::Binary => a matches InitialAction::Reject(e) && is_error(
            e,
            400,
            "invalid_request_error"@,
            "initial websocket frame must be a response.create text frame"@,
        ),
        InitialFrame::Failed(err) => a matches InitialAction::Reject(e) && is_error(
            e,
            400,
            "invalid_request_error"@,
            "receive initial websocket frame failed: "@ + err@,
        ),
    }
}

/// What the bridge does with a frame while it waits for the first request.
pub fn initial_frame_action(frame: InitialFrame) -> (r: InitialAction)
    ensures
        initial_action_ok(frame, r),
{
    match frame {
        InitialFrame::Ended => InitialAction::Stop,
        InitialFrame::Text => InitialAction::Accept,
        InitialFrame::Ping => InitialAction::ReplyPong,
        InitialFrame::Pong => InitialAction::Wait,
        InitialFrame::Close => InitialAction::Stop,
        InitialFrame::Binary => InitialAction::Reject(
            WsSessionError::bad_request(
                "initial websocket frame must be a response.create text frame".to_string(),
            ),
        ),
        InitialFrame::Failed(err) => InitialAction::Reject(
            WsSessionError::bad_request(
                prefixed("receive initial websocket frame failed: ", err.as_str()),
            ),
        ),
    }
}

/// A frame that is forwarded from one side of the bridge to the other.
#[derive(Clone, Copy, Debug, PartialEq, Eq, Structural)]
pub enum ForwardKind {
    Binary,
    Ping,
    Pong,
}

/// Something that happens during a websocket session, once the first
/// request has been prepared and the upstream connection is open.
pub enum WsEvent {
    /// Sending the first request upstream failed with this error text.
    FirstSendFailed(String),
    /// The client socket ended without a close frame.
    ClientEnded,
    /// The client sent a request that was prepared for upstream.
    ClientTextPrepared,
    /// The client sent a request that was refused with this error.
    ClientTextRejected(WsSessionError),
    /// Sending a client request upstream failed with this error text.
    UpstreamSendFailed(String),
    /// The client sent a binary, ping or pong frame.
    ClientControl(ForwardKind),
    /// Forwarding a client binary, ping or pong frame upstream failed.
    ForwardToUpstreamFailed(ForwardKind, String),
    /// The client sent a close frame.
    ClientClose,
    /// Receiving from the client failed with this error text.
    ClientFailed(String),
    /// The upstream socket ended without a close frame.
    UpstreamEnded,
    /// The upstream sent a text event; where it ends the request in flight,
    /// what it says of it.
    UpstreamText(Option<WsTerminalEvent>),
    /// The upstream sent a binary, ping or pong frame.
    UpstreamControl(ForwardKind),
    /// Forwarding an upstream frame to the client failed.
    ForwardToClientFailed,
    /// The upstream sent a close frame.
    UpstreamClose,
    /// The upstream sent a raw frame.
    UpstreamFrame,
    /// Receiving from the upstream failed with this error text.
    UpstreamFailed(String),
}

/// Where a frame goes.
#[derive(Clone, Copy, Debug, PartialEq, Eq, Structural)]
pub enum Forward {
    Nothing,
    ToUpstream,
    ToClient,
}

/// What is written into the request log of the request in flight.
#[derive(Debug, PartialEq)]
pub struct WsLogEntry {
    pub status_code: u16,
    pub usage: RequestLogUsage,
    pub error: Option<String>,
}

/// What the bridge does on one session event. The actions are carried out
/// in the order of the fields: the request log in flight is finished before
/// a new one is begun, and both before the frame is forwarded.
#[derive(Debug, PartialEq)]
pub struct WsStep {
    /// Finish the request log of the request in flight with this entry.
    pub finalize: Option<WsLogEntry>,
    /// Start the request log of the request just prepared.
    pub begin_log: bool,
    /// Where the frame that caused the event goes.
    pub forward: Forward,
    /// Send this error to the client and close its socket.
    pub send_error: Option<WsSessionError>,
    /// Close the client socket.
    pub close_client: bool,
    /// Close the upstream socket.
    pub close_upstream: bool,
    /// End the session.
    pub stop: bool,
    /// Whether a request is in flight afterwards.
    pub pending: bool,
}

/// The log entry has this status and error message, and no usage.
pub open spec fn log_is(f: Option<WsLogEntry>, status: u16, error: Seq<char>) -> bool {
    &&& f matches Some(e) && e.status_code == status && e.usage == crate::ws_events::no_usage()
    &&& f->0.error matches Some(m) && m@ == error
}

/// A step that only finishes the request in flight, if any, with this
/// status and message, closes one side and ends the session.
pub open spec fn ending_ok(
    pending: bool,
    s: WsStep,
    status: u16,
    message: Seq<char>,
) -> bool {
    &&& pending ==> log_is(s.finalize, status, message)
    &&& !pending ==> s.finalize is None
    &&& s.stop
    &&& !s.pending
    &&& !s.begin_log
    &&& s.forward is Nothing
}

/// What the bridge does on one session event, given whether a request is in flight.
pub open spec fn step_ok(pending: bool, event: WsEvent, s: WsStep) -> bool {
    match event {
        WsEvent::FirstSendFailed(err) => {
            let m = "send first upstream websocket frame failed: "@ + err@;
            &&& ending_ok(pending, s, 502, m)
            &&& s.send_error matches Some(e) && is_error(e, 502, RESPONSES_WS_ERROR_CODE@, m)
            &&& !s.close_client && !s.close_upstream
        },
        WsEvent::ClientEnded | WsEvent::ClientClose => {
            &&& ending_ok(pending, s, 499, "client websocket closed before completion"@)
            &&& s.send_error is None && !s.close_client && s.close_upstream
        },
        WsEvent::ClientTextPrepared => {
            &&& pending ==> log_is(
                s.finalize,
                499,
                "websocket request superseded before completion"@,
            )
            &&& !pending ==> s.finalize is None
            &&& s.begin_log && s.forward is ToUpstream && s.pending && !s.stop
            &&& s.send_error is None && !s.close_client && !s.close_upstream
        },
        WsEvent::ClientTextRejected(err) => {
            &&& s.finalize is None && !s.begin_log && s.forward is Nothing && s.stop
            &&& s.send_error == Some(err) && !s.close_client && s.close_upstream
            &&& s.pending == pending
        },
        WsEvent::UpstreamSendFailed(err) => {
            let m = "send upstream websocket frame failed: "@ + err@;
            &&& ending_ok(pending, s, 502, m)
            &&& s.send_error matches Some(e) && is_error(e, 502, RESPONSES_WS_ERROR_CODE@, m)
            &&& !s.close_client && s.close_upstream
        },
        WsEvent::ClientControl(_) => {
            &&& s.finalize is None && !s.begin_log && s.forward is ToUpstream && !s.stop
            &&& s.send_error is None && !s.close_client && !s.close_upstream
            &&& s.pending == pending
        },
        WsEvent::ForwardToUpstreamFailed(kind, err) => {
            let prefix = match kind {
                ForwardKind::Binary => "send upstream websocket binary failed: "@,
                ForwardKind::Ping => "forward websocket ping failed: "@,
                ForwardKind::Pong => "forward websocket pong failed: "@,
            };
            &&& s.finalize is None && !s.begin_log && s.forward is Nothing && s.stop
            &&& s.send_error matches Some(e) && is_error(
                e,
                502,
                RESPONSES_WS_ERROR_CODE@,
                prefix + err@,
            )
            &&& !s.close_client && !s.close_upstream
            &&& s.pending == pending
        },
        WsEvent::ClientFailed(err) => {
            let m = "receive client websocket frame failed: "@ + err@;
            &&& ending_ok(pending, s, 400, m)
            &&& s.send_error matches Some(e) && is_error(e, 400, "invalid_request_error"@, m)
            &&& !s.close_client && s.close_upstream
        },
        WsEvent::UpstreamEnded | WsEvent::UpstreamClose => {
            &&& ending_ok(pending, s, 502, "upstream websocket closed before completion"@)
            &&& s.send_error is None && s.close_client && !s.close_upstream
        },
        WsEvent::UpstreamText(terminal) => {
            &&& match terminal {
                Some(t) => if pending {
                    s.finalize matches Some(e) && e.status_code == t.status_code && e.usage
                        == t.usage && e.error == t.error
                } else {
                    s.finalize is None
                },
                None => s.finalize is None,
            }
            &&& !s.begin_log && s.forward is ToClient && !s.stop
            &&& s.send_error is None && !s.close_client && !s.close_upstream
            &&& s.pending == (pending && s.finalize is None)
        },
        WsEvent::UpstreamControl(_) => {
            &&& s.finalize is None && !s.begin_log && s.forward is ToClient && !s.stop
            &&& s.send_error is None && !s.close_client && !s.close_upstream
            &&& s.pending == pending
        },
        WsEvent::ForwardToClientFailed => {
            &&& s.finalize is None && !s.begin_log && s.forward is Nothing && s.stop
            &&& s.send_error is None && !s.close_client && s.close_upstream
            &&& s.pending == pending
        },
        WsEvent::UpstreamFrame => {
            &&& s.finalize is None && !s.begin_log && s.forward is Nothing && !s.stop
            &&& s.send_error is None && !s.close_client && !s.close_upstream
            &&& s.pending == pending
        },
        WsEvent::UpstreamFailed(err) => {
            let m = "receive upstream websocket frame failed: "@ + err@;
            &&& ending_ok(pending, s, 502, m)
            &&& s.send_error matches Some(e) && is_error(e, 502, RESPONSES_WS_ERROR_CODE@, m)
            &&& !s.close_client && !s.close_upstream
        },
    }
}

/// A log entry with this status and error message and no usage.
fn log_entry(status_code: u16, error: String) -> (r: WsLogEntry)
    ensures
        r.status_code == status_code,
        r.usage == crate::ws_events::no_usage(),
        r.error matches Some(m) && m == error,
{
    WsLogEntry { status_code, usage: RequestLogUsage::default(), error: Some(error) }
}

/// The log entry of the request in flight, where there is one.
fn finish_if(pending: bool, status_code: u16, error: &str) -> (r: Option<WsLogEntry>)
    ensures
        pending ==> log_is(r, status_code, error@),
        !pending ==> r is None,
{
    if pending {
        Some(log_entry(status_code, error.to_string()))
    } else {
        None
    }
}

/// A step that ends the session.
fn ending(
    finalize: Option<WsLogEntry>,
    send_error: Option<WsSessionError>,
    close_client: bool,
    close_upstream: bool,
) -> (r: WsStep)
    ensures
        r.finalize == finalize,
        r.send_error == send_error,
        r.close_client == close_client,
        r.close_upstream == close_upstream,
        r.stop,
        !r.pending,
        !r.begin_log,
        r.forward is Nothing,
{
    WsStep {
        finalize,
        begin_log: false,
        forward: Forward::Nothing,
        send_error,
        close_client,
        close_upstream,
        stop: true,
        pending: false,
    }
}

/// A step that passes a frame on and keeps the session going.
fn passing(forward: Forward, pending: bool) -> (r: WsStep)
    ensures
        r.forward == forward,
        r.pending == pending,
        r.finalize is None,
        !r.begin_log,
        !r.stop,
        r.send_error is None,
        !r.close_client,
        !r.close_upstream,
{
    WsStep {
        finalize: None,
        begin_log: false,
        forward,
        send_error: None,
        close_client: false,
        close_upstream: false,
        stop: false,
        pending,
    }
}

/// What the bridge does on one session event, given whether a request is in
/// flight: which request log to finish and how, what to forward, which error
/// to report, which sockets to close, and whether the session goes on.
pub fn ws_session_step(pending: bool, event: WsEvent) -> (r: WsStep)
    ensures
        step_ok(pending, event, r),
{
    match event {
        WsEvent::FirstSendFailed(err) => {
            let message = prefixed("send first upstream websocket frame failed: ", err.as_str());
            let finalize = finish_if(pending, 502, message.as_str());
            ending(finalize, Some(WsSessionError::bad_gateway(message)), false, false)
        },
        WsEvent::ClientEnded => {
            let finalize = finish_if(pending, 499, "client websocket closed before completion");
            ending(finalize, None, false, true)
        },
        WsEvent::ClientClose => {
            let finalize = finish_if(pending, 499, "client websocket closed before completion");
            ending(finalize, None, false, true)
        },
        WsEvent::ClientTextPrepared => {
            let finalize = finish_if(
                pending,
                499,
                "websocket request superseded before completion",
            );
            WsStep {
                finalize,
                begin_log: true,
                forward: Forward::ToUpstream,
                send_error: None,
                close_client: false,
                close_upstream: false,
                stop: false,
                pending: true,
            }
        },
        WsEvent::ClientTextRejected(err) => {
            WsStep {
                finalize: None,
                begin_log: false,
                forward: Forward::Nothing,
                send_error: Some(err),
                close_client: false,
                close_upstream: true,
                stop: true,
                pending,
            }
        },
        WsEvent::UpstreamSendFailed(err) => {
            let message = prefixed("send upstream websocket frame failed: ", err.as_str());
            let finalize = finish_if(pending, 502, message.as_str());
            ending(finalize, Some(WsSessionError::bad_gateway(message)), false, true)
        },
        WsEvent::ClientControl(_) => passing(Forward::ToUpstream, pending),
        WsEvent::ForwardToUpstreamFailed(kind, err) => {
            let prefix = match kind {
                ForwardKind::Binary => "send upstream websocket binary failed: ",
                ForwardKind::Ping => "forward websocket ping failed: ",
                ForwardKind::Pong => "forward websocket pong failed: ",
            };
            WsStep {
                finalize: None,
                begin_log: false,
                forward: Forward::Nothing,
                send_error: Some(WsSessionError::bad_gateway(prefixed(prefix, err.as_str()))),
                close_client: false,
                close_upstream: false,
                stop: true,
                pending,
            }
        },
        WsEvent::ClientFailed(err) => {
            let message = prefixed("receive client websocket frame failed: ", err.as_str());
            let finalize = finish_if(pending, 400, message.as_str());
            ending(finalize, Some(WsSessionError::bad_request(message)), false, true)
        },
        WsEvent::UpstreamEnded => {
            let finalize = finish_if(pending, 502, "upstream websocket closed before completion");
            ending(finalize, None, true, false)
        },
        WsEvent::UpstreamClose => {
            let finalize = finish_if(pending, 502, "upstream websocket closed before completion");
            ending(finalize, None, true, false)
        },
        WsEvent::UpstreamText(terminal) => {
            let finalize = match terminal {
                Some(t) => if pending {
                    Some(WsLogEntry { status_code: t.status_code, usage: t.usage, error: t.error })
                } else {
                    None
                },
                None => None,
            };
            let still_pending = pending && finalize.is_none();
            WsStep {
                finalize,
                begin_log: false,
                forward: Forward::ToClient,
                send_error: None,
                close_client: false,
                close_upstream: false,
                stop: false,
                pending: still_pending,
            }
        },
        WsEvent::UpstreamControl(_) => passing(Forward::ToClient, pending),
        WsEvent::ForwardToClientFailed => {
            WsStep {
                finalize: None,
                begin_log: false,
                forward: Forward::Nothing,
                send_error: None,
                close_client: false,
                close_upstream: true,
                stop: true,
                pending,
            }
        },
        WsEvent::UpstreamFrame => passing(Forward::Nothing, pending),
        WsEvent::UpstreamFailed(err) => {
            let message = prefixed("receive upstream websocket frame failed: ", err.as_str());
            let finalize = finish_if(pending, 502, message.as_str());
            ending(finalize, Some(WsSessionError::bad_gateway(message)), false, false)
        },
    }
}

/// A request log is only finished while a request is in flight, and a step
/// leaves a request in flight exactly where it starts one, or where one was
/// in flight and the step neither finished it nor ended the session in one
/// of the ways that finish it: so every request log is finished at most once.
pub proof fn lemma_ws_log_finished_at_most_once(pending: bool, event: WsEvent, s: WsStep)
    requires
        step_ok(pending, event, s),
    ensures
        s.finalize is Some ==> pending,
        s.begin_log ==> s.pending,
        !s.begin_log ==> (s.pending ==> pending),
        s.finalize is Some && !s.begin_log ==> !s.pending,
{
}

/// The session ends with the request in flight left unfinished only where
/// the client's request was refused or forwarding a frame failed; every other
/// ending finishes it.
pub proof fn lemma_ws_ending_finishes_request(pending: bool, event: WsEvent, s: WsStep)
    requires
        step_ok(pending, event, s),
        s.stop,
        pending,
        !(event is ClientTextRejected),
        !(event is ForwardToUpstreamFailed),
        !(event is ForwardToClientFailed),
    ensures
        s.finalize is Some,
        !s.pending,
{
}

/// Why a websocket upgrade is refused: the HTTP status and the message.
#[derive(Debug, PartialEq)]
pub struct WsRejection {
    pub status: u16,
    pub message: String,
    /// Whether the answer is `426 Upgrade Required`, with its `Upgrade` header.
    pub upgrade_required: bool,
}

/// The rejection has this status and message.
pub open spec fn rejection_is(r: WsRejection, status: u16, message: Seq<char>, upgrade: bool) -> bool {
    r.status == status && r.message@ == message && r.upgrade_required == upgrade
}

/// The refusal of a request that carries no platform API key.
pub fn missing_platform_key_rejection() -> (r: WsRejection)
    ensures
        rejection_is(r, 401, "missing platform api key"@, false),
{
    WsRejection { status: 401, message: "missing platform api key".to_string(), upgrade_required: false }
}

/// The platform API key behind a websocket request, as the store knows it:
/// its status and whether its upstream supports the websocket transport.
pub struct WsKeyFacts<'a> {
    pub status: &'a str,
    pub supports_official_websocket: bool,
}

/// Whether the key found for a websocket request may use the bridge: an
/// unknown key is refused with 403, a key that is not `active` with 403, and
/// a key whose upstream is not the official Codex one with 426.
pub open spec fn key_check_ok(key: Option<WsKeyFacts>, r: Result<(), WsRejection>) -> bool {
    match key {
        None => r matches Err(e) && rejection_is(e, 403, "invalid api key"@, false),
        Some(k) => if k.status@ != "active"@ {
            r matches Err(e) && rejection_is(e, 403, "api key disabled"@, false)
        } else if !k.supports_official_websocket {
            r matches Err(e) && rejection_is(
                e,
                426,
                "responses websocket is only available for official Codex upstream"@,
                true,
            )
        } else {
            r is Ok
        },
    }
}

/// Checks the key found for a websocket request.
pub fn check_websocket_api_key(key: Option<WsKeyFacts>) -> (r: Result<(), WsRejection>)
    ensures
        key_check_ok(key, r),
{
    let Some(k) = key else {
        return Err(
            WsRejection { status: 403, message: "invalid api key".to_string(), upgrade_required: false },
        );
    };
    if !str_eq(k.status, "active") {
        return Err(
            WsRejection { status: 403, message: "api key disabled".to_string(), upgrade_required: false },
        );
    }
    if !k.supports_official_websocket {
        return Err(
            WsRejection {
                status: 426,
                message: "responses websocket is only available for official Codex upstream".to_string(),
                upgrade_required: true,
            },
        );
    }
    Ok(())
}

/// A client request taken apart for the body rewrite: the body without the
/// members that the rewrite must not see, and those members.
#[derive(Debug, PartialEq)]
pub struct ClientFrameParts {
    /// The body that goes through the rewrite.
    pub body: JsonMap,
    /// The message type (`response.create`).
    pub message_type: String,
    pub previous_response_id: Option<JsonValue>,
    pub generate: Option<JsonValue>,
    /// The client metadata, with the turn metadata merged in.
    pub client_metadata: Option<JsonValue>,
    /// The requested service tier, as written; normalized, it is what the
    /// request log records (see `log_service_tier`).
    pub service_tier: Option<String>,
}

/// The message type of a request frame, as written.
pub open spec fn frame_type(m: Members) -> Option<Seq<char>> {
    match get_value(m, "type"@) {
        Some(v) => as_str_spec(v),
        None => None,
    }
}

/// How a client request is checked and taken apart before the body rewrite.
pub open spec fn prepare_ok(
    payload: JsonValue,
    turn_metadata: Option<Seq<char>>,
    r: Result<ClientFrameParts, WsSessionError>,
) -> bool {
    match payload {
        JsonValue::Object(m) => match frame_type(m@) {
            None => r matches Err(e) && is_error(
                e,
                400,
                "invalid_request_error"@,
                "websocket payload missing type=response.create"@,
            ),
            Some(t) => if t != "response.create"@ {
                r matches Err(e) && is_error(
                    e,
                    400,
                    "invalid_request_error"@,
                    "unsupported websocket message type: "@ + t,
                )
            } else {
                r matches Ok(p) && {
                    let m1 = remove_spec(m@, "type"@);
                    let m2 = remove_spec(m1, "previous_response_id"@);
                    let m3 = remove_spec(m2, "generate"@);
                    let m4 = remove_spec(m3, "client_metadata"@);
                    &&& p.message_type@ == t
                    &&& p.body@ == m4
                    &&& p.previous_response_id == get_value(m1, "previous_response_id"@)
                    &&& p.generate == get_value(m2, "generate"@)
                    &&& merged_metadata_ok(get_value(m3, "client_metadata"@), turn_metadata, p.client_metadata)
                    &&& opt_string_view(p.service_tier) == match get_value(m1, "service_tier"@) {
                        Some(v) => as_str_spec(v),
                        None => None,
                    }
                }
            },
        },
        _ => r matches Err(e) && is_error(
            e,
            400,
            "invalid_request_error"@,
            "websocket payload must be a JSON object"@,
        ),
    }
}

/// Checks a client request (parsed from its text frame) and takes it apart
/// for the body rewrite: it must be an object whose `type` is
/// `response.create`; `previous_response_id`, `generate` and
/// `client_metadata` are taken out, and the turn metadata header is merged
/// into the client metadata.
pub fn prepare_client_frame(payload: JsonValue, turn_metadata: Option<&str>) -> (r: Result<
    ClientFrameParts,
    WsSessionError,
>)
    requires
        payload matches JsonValue::Object(m) ==> members_wf(m@),
    ensures
        prepare_ok(payload, opt_str_view(turn_metadata), r),
{
    let JsonValue::Object(mut object) = payload else {
        return Err(WsSessionError::bad_request("websocket payload must be a JSON object".to_string()));
    };
    let ghost m0 = object@;
    let removed_type = object.remove("type");
    let message_type = match removed_type {
        Some(JsonValue::Str(t)) => t,
        _ => {
            return Err(
                WsSessionError::bad_request(
                    "websocket payload missing type=response.create".to_string(),
                ),
            );
        },
    };
    if !str_eq(message_type.as_str(), "response.create") {
        return Err(
            WsSessionError::bad_request(
                prefixed("unsupported websocket message type: ", message_type.as_str()),
            ),
        );
    }
    let ghost m1 = object@;
    let service_tier = match object.get("service_tier") {
        Some(JsonValue::Str(t)) => Some(t.clone()),
        _ => None,
    };
    let previous_response_id = object.remove("previous_response_id");
    let ghost m2 = object@;
    let generate = object.remove("generate");
    let ghost m3 = object@;
    let client_metadata = object.remove("client_metadata");
    proof {
        reveal_strlit("type");
        reveal_strlit("previous_response_id");
        reveal_strlit("generate");
        reveal_strlit("client_metadata");
        assert("type"@.len() != "client_metadata"@.len());
        assert("previous_response_id"@.len() != "client_metadata"@.len());
        assert("generate"@.len() != "client_metadata"@.len());
        crate::json::lemma_remove_keeps_others(m0, "type"@, "client_metadata"@);
        crate::json::lemma_remove_keeps_others(m1, "previous_response_id"@, "client_metadata"@);
        crate::json::lemma_remove_keeps_others(m2, "generate"@, "client_metadata"@);
        assert(get_value(m3, "client_metadata"@) == get_value(m0, "client_metadata"@));
    }
    let client_metadata = merge_turn_metadata(client_metadata, turn_metadata);
    Ok(
        ClientFrameParts {
            body: object,
            message_type,
            previous_response_id,
            generate,
            client_metadata,
            service_tier,
        },
    )
}

/// How a client text frame is read: text that is not JSON is refused with
/// the parse error; a value is checked and taken apart as
/// `prepare_client_frame` does.
pub open spec fn parse_frame_ok(
    text: Seq<char>,
    turn_metadata: Option<Seq<char>>,
    r: Result<ClientFrameParts, WsSessionError>,
) -> bool {
    match json_parse(text) {
        Err(e) => r matches Err(err) && is_error(
            err,
            400,
            "invalid_request_error"@,
            "invalid websocket json payload: "@ + e,
        ),
        Ok(v) => prepare_ok(v, turn_metadata, r),
    }
}

/// Reads a client text frame as JSON, checks it and takes it apart for the
/// body rewrite.
pub fn parse_client_frame(text: &str, turn_metadata: Option<&str>) -> (r: Result<
    ClientFrameParts,
    WsSessionError,
>)
    ensures
        parse_frame_ok(text@, opt_str_view(turn_metadata), r),
{
    match parse_json(text) {
        Ok(payload) => prepare_client_frame(payload, turn_metadata),
        Err(err) => Err(
            WsSessionError::bad_request(prefixed("invalid websocket json payload: ", err.as_str())),
        ),
    }
}

/// A client request ready to go upstream.
#[derive(Debug, PartialEq)]
pub struct PreparedClientFrame {
    /// The request body.
    pub body: JsonMap,
    /// The model it asks for, for the request log.
    pub model: Option<String>,
    /// The reasoning effort it asks for, for the request log.
    pub reasoning_effort: Option<String>,
    /// The service tier recorded in the request log.
    pub service_tier: Option<String>,
}

/// Inserts a member where a value is present.
pub open spec fn insert_opt(m: Members, k: Seq<char>, v: Option<JsonValue>) -> Members {
    match v {
        Some(x) => insert_spec(m, k, x),
        None => m,
    }
}

/// A text member of an object.
pub open spec fn text_of_members(m: Members, k: Seq<char>) -> Option<Seq<char>> {
    match get_value(m, k) {
        Some(v) => as_str_spec(v),
        None => None,
    }
}

/// How a rewritten body is put back together into the request sent upstream.
pub open spec fn finish_ok(
    rewritten: JsonValue,
    parts: ClientFrameParts,
    service_tier: Option<String>,
    r: Result<PreparedClientFrame, WsSessionError>,
) -> bool {
    match rewritten {
        JsonValue::Object(m) => r matches Ok(p) && {
            let b = p.body@;
            &&& has_key(b, "type"@)
            &&& crate::json::is_str(get_value(b, "type"@)->0, parts.message_type@)
            &&& b == insert_opt(
                insert_opt(
                    insert_opt(
                        insert_spec(m@, "type"@, get_value(b, "type"@)->0),
                        "previous_response_id"@,
                        parts.previous_response_id,
                    ),
                    "generate"@,
                    parts.generate,
                ),
                "client_metadata"@,
                parts.client_metadata,
            )
            &&& opt_string_view(p.model) == text_of_members(b, "model"@)
            &&& opt_string_view(p.reasoning_effort) == or_else(
                text_member(get_value(b, "reasoning"@), "effort"@),
                text_of_members(b, "reasoning_effort"@),
            )
            &&& p.service_tier == service_tier
        },
        _ => r matches Err(e) && is_error(
            e,
            400,
            "invalid_request_error"@,
            "rewritten websocket payload must stay a JSON object"@,
        ),
    }
}

fn text_value<'a>(v: Option<&'a JsonValue>) -> (r: Option<String>)
    ensures
        opt_string_view(r) == match v {
            Some(x) => as_str_spec(*x),
            None => None,
        },
{
    match v {
        Some(JsonValue::Str(s)) => Some(s.clone()),
        _ => None,
    }
}

/// Puts the rewritten body back together: the message type and the members
/// taken out before the rewrite are inserted again, and the model and
/// reasoning effort are read for the request log, beside the service tier
/// that the log records.
pub fn finish_client_frame(
    rewritten: JsonValue,
    parts: ClientFrameParts,
    service_tier: Option<String>,
) -> (r: Result<PreparedClientFrame, WsSessionError>)
    requires
        rewritten matches JsonValue::Object(m) ==> keys_distinct(m@),
    ensures
        finish_ok(rewritten, parts, service_tier, r),
{
    let ghost p0 = parts;
    let JsonValue::Object(mut object) = rewritten else {
        return Err(
            WsSessionError::bad_request(
                "rewritten websocket payload must stay a JSON object".to_string(),
            ),
        );
    };
    let ghost m0 = object@;
    let type_value = JsonValue::Str(parts.message_type);
    object.insert("type".to_string(), type_value);
    proof {
        crate::json::lemma_insert_value(m0, "type"@, type_value);
    }
    let ghost m1 = object@;
    if let Some(value) = parts.previous_response_id {
        object.insert("previous_response_id".to_string(), value);
    }
    let ghost m2 = object@;
    if let Some(value) = parts.generate {
        object.insert("generate".to_string(), value);
    }
    let ghost m3 = object@;
    if let Some(value) = parts.client_metadata {
        object.insert("client_metadata".to_string(), value);
    }
    proof {
        reveal_strlit("type");
        reveal_strlit("previous_response_id");
        reveal_strlit("generate");
        reveal_strlit("client_metadata");
        assert("type"@.len() != "previous_response_id"@.len());
        assert("type"@.len() != "generate"@.len());
        assert("type"@.len() != "client_metadata"@.len());
        crate::json::lemma_insert_keeps_others(m1, "previous_response_id"@, p0.previous_response_id, "type"@);
        crate::json::lemma_insert_keeps_others(m2, "generate"@, p0.generate, "type"@);
        crate::json::lemma_insert_keeps_others(m3, "client_metadata"@, p0.client_metadata, "type"@);
    }
    let model = text_value(object.get("model"));
    let nested = text_value(crate::json::member(object.get("reasoning"), "effort"));
    let reasoning_effort = if nested.is_some() {
        nested
    } else {
        text_value(object.get("reasoning_effort"))
    };
    Ok(PreparedClientFrame { body: object, model, reasoning_effort, service_tier })
}

/// The service tier recorded in the request log of a request: the tier the
/// request asks for where it names one, else the platform key's tier. Both
/// are given as the service-tier rules of platform keys normalize them (none
/// where the text names no tier).
pub fn log_service_tier(frame_tier: Option<String>, key_tier: Option<String>) -> (r: Option<String>)
    ensures
        r == (if frame_tier is Some {
            frame_tier
        } else {
            key_tier
        }),
{
    match frame_tier {
        Some(t) => Some(t),
        None => key_tier,
    }
}

/// The text of a request's body as it goes to the body rewrite: compact JSON.
pub fn frame_body_text(parts: &ClientFrameParts) -> (r: String)
    ensures
        r@ == json_object_text(parts.body@),
{
    json_object_to_text(&parts.body)
}

/// How a request is completed from the text the body rewrite returned: text
/// that is not JSON is refused with the parse error; a value is put back
/// together as `finish_client_frame` does, with the service tier that
/// `log_service_tier` picks.
pub open spec fn complete_ok(
    rewritten_text: Seq<char>,
    parts: ClientFrameParts,
    frame_tier: Option<String>,
    key_tier: Option<String>,
    r: Result<PreparedClientFrame, WsSessionError>,
) -> bool {
    match json_parse(rewritten_text) {
        Err(e) => r matches Err(err) && is_error(
            err,
            400,
            "invalid_request_error"@,
            "parse rewritten websocket request failed: "@ + e,
        ),
        Ok(v) => finish_ok(
            v,
            parts,
            if frame_tier is Some {
                frame_tier
            } else {
                key_tier
            },
            r,
        ),
    }
}

/// Completes a client request from the text that the body rewrite returned
/// for `frame_body_text(&parts)`: the rewritten body is read as JSON, must
/// stay an object, and gets the message type and the members taken out
/// before the rewrite back; the log records the model, the reasoning effort
/// and the service tier (the request's normalized tier, else the platform
/// key's).
pub fn complete_client_frame(
    rewritten_text: &str,
    parts: ClientFrameParts,
    frame_tier: Option<String>,
    key_tier: Option<String>,
) -> (r: Result<PreparedClientFrame, WsSessionError>)
    ensures
        complete_ok(rewritten_text@, parts, frame_tier, key_tier, r),
{
    let rewritten = match parse_json(rewritten_text) {
        Ok(v) => v,
        Err(err) => {
            return Err(
                WsSessionError::bad_request(
                    prefixed("parse rewritten websocket request failed: ", err.as_str()),
                ),
            );
        },
    };
    let tier = log_service_tier(frame_tier, key_tier);
    finish_client_frame(rewritten, parts, tier)
}

/// The text sent upstream for a prepared request: its body as compact JSON.
pub fn prepared_frame_text(frame: &PreparedClientFrame) -> (r: String)
    ensures
        r@ == json_object_text(frame.body@),
{
    json_object_to_text(&frame.body)
}

/// The text of the error event sent to the client before the bridge closes:
/// the error payload as compact JSON.
pub fn ws_error_text(err: WsSessionError) -> (r: String)
    ensures
        exists|v: JsonValue| is_error_payload(v, err) && r@ == json_object_text(v->Object_0@),
{
    let ghost e = err;
    let payload = ws_error_payload(err);
    let text = match &payload {
        JsonValue::Object(m) => json_object_to_text(m),
        _ => String::new(),
    };
    assert(is_error_payload(payload, e) && text@ == json_object_text(payload->Object_0@));
    text
}

/// What the upstream websocket request carries: the account's bearer
/// token and id, the runtime identity, and the Codex headers of the client
/// request (as the incoming header snapshot reports them).
pub struct WsUpstreamHeaderInput<'a> {
    pub bearer_token: &'a str,
    pub chatgpt_account_id: Option<&'a str>,
    pub user_agent: &'a str,
    pub originator: &'a str,
    pub residency_requirement: Option<&'a str>,
    pub session_id: Option<&'a str>,
    pub client_request_id: Option<&'a str>,
    pub subagent: Option<&'a str>,
    pub beta_features: Option<&'a str>,
    pub turn_metadata: Option<&'a str>,
    pub turn_state: Option<&'a str>,
    pub include_timing_metrics: bool,
}

/// The first headers of the upstream websocket request: credentials and
/// the gateway's identity.
pub open spec fn ws_identity_headers_spec(i: WsUpstreamHeaderInput) -> HeaderSeq {
    let h0 = seq![("Authorization"@, "Bearer "@ + i.bearer_token@)];
    let h1 = push_opt(h0, "ChatGPT-Account-ID"@, opt_trimmed(opt_str_view(i.chatgpt_account_id)));
    let h2 = h1.push(("User-Agent"@, i.user_agent@)).push(("originator"@, i.originator@)).push(
        ("OpenAI-Beta"@, RESPONSES_WS_BETA_HEADER_VALUE@),
    );
    push_opt(h2, "x-openai-internal-codex-residency"@, opt_str_view(i.residency_requirement))
}

/// The headers of the upstream websocket request, in the order they are set.
pub open spec fn ws_upstream_headers_spec(i: WsUpstreamHeaderInput) -> HeaderSeq {
    let h3 = ws_identity_headers_spec(i);
    let h4 = push_opt(h3, "session_id"@, opt_str_view(i.session_id));
    let h5 = push_opt(h4, "x-client-request-id"@, opt_str_view(i.client_request_id));
    let h6 = push_opt(h5, "x-openai-subagent"@, opt_str_view(i.subagent));
    let h7 = push_opt(h6, "x-codex-beta-features"@, opt_str_view(i.beta_features));
    let h8 = push_opt(h7, "x-codex-turn-metadata"@, opt_str_view(i.turn_metadata));
    let h9 = push_opt(h8, "x-codex-turn-state"@, opt_str_view(i.turn_state));
    if i.include_timing_metrics {
        h9.push(("x-responsesapi-include-timing-metrics"@, "true"@))
    } else {
        h9
    }
}

fn push_pair(headers: &mut Vec<(String, String)>, name: &str, value: &str)
    ensures
        headers_view(final(headers)@) == headers_view(old(headers)@).push((name@, value@)),
{
    headers.push((name.to_string(), value.to_string()));
    assert(headers_view(headers@) =~= headers_view(old(headers)@).push((name@, value@)));
}

fn push_pair_opt(headers: &mut Vec<(String, String)>, name: &str, value: Option<&str>)
    ensures
        headers_view(final(headers)@) == push_opt(headers_view(old(headers)@), name@, opt_str_view(value)),
{
    if let Some(v) = value {
        push_pair(headers, name, v);
    }
}

fn ws_identity_headers(input: &WsUpstreamHeaderInput) -> (headers: Vec<(String, String)>)
    ensures
        headers_view(headers@) == ws_identity_headers_spec(*input),
{
    let mut headers: Vec<(String, String)> = Vec::new();
    let bearer = prefixed("Bearer ", input.bearer_token);
    push_pair(&mut headers, "Authorization", bearer.as_str());
    match trimmed_non_empty(input.chatgpt_account_id) {
        Some(account_id) => push_pair(&mut headers, "ChatGPT-Account-ID", account_id.as_str()),
        None => {},
    }
    push_pair(&mut headers, "User-Agent", input.user_agent);
    push_pair(&mut headers, "originator", input.originator);
    push_pair(&mut headers, "OpenAI-Beta", RESPONSES_WS_BETA_HEADER_VALUE);
    push_pair_opt(&mut headers, "x-openai-internal-codex-residency", input.residency_requirement);
    headers
}

/// The headers of the upstream websocket request.
pub fn ws_upstream_headers(input: &WsUpstreamHeaderInput) -> (headers: Vec<(String, String)>)
    ensures
        headers_view(headers@) == ws_upstream_headers_spec(*input),
{
    let mut headers = ws_identity_headers(input);
    push_pair_opt(&mut headers, "session_id", input.session_id);
    push_pair_opt(&mut headers, "x-client-request-id", input.client_request_id);
    push_pair_opt(&mut headers, "x-openai-subagent", input.subagent);
    push_pair_opt(&mut headers, "x-codex-beta-features", input.beta_features);
    push_pair_opt(&mut headers, "x-codex-turn-metadata", input.turn_metadata);
    push_pair_opt(&mut headers, "x-codex-turn-state", input.turn_state);
    if input.include_timing_metrics {
        push_pair(&mut headers, "x-responsesapi-include-timing-metrics", "true");
    }
    headers
}

/// The scheme that the upstream websocket URL gets: `ws` for `http`, `wss`
/// for `https`, unchanged for `ws` and `wss`; any other scheme is refused.
pub open spec fn ws_scheme_ok(scheme: Seq<char>, r: Result<Option<&'static str>, WsSessionError>) -> bool {
    if scheme == "http"@ {
        r matches Ok(Some(s)) && s@ == "ws"@
    } else if scheme == "https"@ {
        r matches Ok(Some(s)) && s@ == "wss"@
    } else if scheme == "ws"@ || scheme == "wss"@ {
        r matches Ok(None)
    } else {
        r matches Err(e) && is_error(
            e,
            502,
            RESPONSES_WS_ERROR_CODE@,
            "unsupported upstream websocket scheme: "@ + scheme,
        )
    }
}

/// The scheme that the upstream websocket URL gets, none where it is kept.
pub fn websocket_scheme_for(scheme: &str) -> (r: Result<Option<&'static str>, WsSessionError>)
    ensures
        ws_scheme_ok(scheme@, r),
{
    if str_eq(scheme, "http") {
        Ok(Some("ws"))
    } else if str_eq(scheme, "https") {
        Ok(Some("wss"))
    } else if str_eq(scheme, "ws") || str_eq(scheme, "wss") {
        Ok(None)
    } else {
        Err(WsSessionError::bad_gateway(prefixed("unsupported upstream websocket scheme: ", scheme)))
    }
}

/// What `url::Url::parse` makes of a text: the scheme of the parsed URL, or
/// the text of the parse error.
pub uninterp spec fn url_parse_scheme(input: Seq<char>) -> Result<Seq<char>, Seq<char>>;

/// The serialisation of the URL that `url::Url::parse` makes of a text.
pub uninterp spec fn url_serialized(input: Seq<char>) -> Seq<char>;

/// The serialisation of the URL that `url::Url::parse` makes of a text, after
/// `url::Url::set_scheme` with the given scheme.
pub uninterp spec fn url_serialized_with_scheme(input: Seq<char>, scheme: Seq<char>) -> Seq<char>;

/// `url::Url::parse`, read through `Url::scheme` or the error's `Display`:
/// the claim is only that the outcome is a function of the text alone
/// (parsing is deterministic); which texts parse is left to the crate.
#[verifier::external_body]
fn parse_url_scheme(input: &str) -> (r: Result<String, String>)
    ensures
        match r {
            Ok(scheme) => url_parse_scheme(input@) == Ok::<Seq<char>, Seq<char>>(scheme@),
            Err(e) => url_parse_scheme(input@) == Err::<Seq<char>, Seq<char>>(e@),
        },
{
    match url::Url::parse(input) {
        Ok(url) => Ok(url.scheme().to_string()),
        Err(err) => Err(err.to_string()),
    }
}

/// The `Display` serialisation of the URL that `url::Url::parse` makes of a
/// text: the claim is only that it is a function of the text alone.
#[verifier::external_body]
fn serialize_url(input: &str) -> (r: String)
    ensures
        r@ == url_serialized(input@),
{
    match url::Url::parse(input) {
        Ok(url) => url.to_string(),
        Err(_) => String::new(),
    }
}

/// `url::Url::set_scheme` on the URL that `url::Url::parse` makes of a text,
/// then its `Display` serialisation; the outcome of `set_scheme` is ignored,
/// as the caller ignores it. The claim is only that the text is a function of
/// the input text and the scheme.
#[verifier::external_body]
fn serialize_url_with_scheme(input: &str, scheme: &str) -> (r: String)
    ensures
        r@ == url_serialized_with_scheme(input@, scheme@),
{
    match url::Url::parse(input) {
        Ok(mut url) => {
            let _ = url.set_scheme(scheme);
            url.to_string()
        },
        Err(_) => String::new(),
    }
}

/// The upstream websocket URL for a target URL, given what parsing the target
/// gave: the parse error is reported; `http` and `https` are switched to
/// `ws` and `wss`; `ws` and `wss` are kept; any other scheme is refused.
pub open spec fn upstream_ws_url_spec(target: Seq<char>, r: Result<String, WsSessionError>) -> bool {
    match url_parse_scheme(target) {
        Err(e) => r matches Err(err) && is_error(
            err,
            502,
            RESPONSES_WS_ERROR_CODE@,
            "invalid upstream websocket url: "@ + e,
        ),
        Ok(scheme) => if scheme == "http"@ {
            r matches Ok(u) && u@ == url_serialized_with_scheme(target, "ws"@)
        } else if scheme == "https"@ {
            r matches Ok(u) && u@ == url_serialized_with_scheme(target, "wss"@)
        } else if scheme == "ws"@ || scheme == "wss"@ {
            r matches Ok(u) && u@ == url_serialized(target)
        } else {
            r matches Err(err) && is_error(
                err,
                502,
                RESPONSES_WS_ERROR_CODE@,
                "unsupported upstream websocket scheme: "@ + scheme,
            )
        },
    }
}

/// The websocket URL of the upstream `/responses` endpoint, from its HTTP
/// target URL.
pub fn build_upstream_websocket_url(target_url: &str) -> (r: Result<String, WsSessionError>)
    ensures
        upstream_ws_url_spec(target_url@, r),
{
    let scheme = match parse_url_scheme(target_url) {
        Ok(scheme) => scheme,
        Err(err) => return Err(invalid_upstream_url_error(err.as_str())),
    };
    match websocket_scheme_for(scheme.as_str()) {
        Ok(Some(next)) => Ok(serialize_url_with_scheme(target_url, next)),
        Ok(None) => Ok(serialize_url(target_url)),
        Err(err) => Err(err),
    }
}

/// The error for an upstream URL that does not parse.
pub fn invalid_upstream_url_error(parse_error: &str) -> (r: WsSessionError)
    ensures
        is_error(r, 502, RESPONSES_WS_ERROR_CODE@, "invalid upstream websocket url: "@ + parse_error@),
{
    WsSessionError::bad_gateway(prefixed("invalid upstream websocket url: ", parse_error))
}

/// The error for a session that finds no account to route to.
pub fn no_upstream_accounts_error() -> (r: WsSessionError)
    ensures
        is_error(r, 503, RESPONSES_WS_ERROR_CODE@, "no available upstream accounts"@),
{
    WsSessionError::service_unavailable("no available upstream accounts".to_string())
}

/// The error for a session whose store cannot be opened.
pub fn storage_unavailable_error() -> (r: WsSessionError)
    ensures
        is_error(r, 503, RESPONSES_WS_ERROR_CODE@, "storage unavailable"@),
{
    WsSessionError::service_unavailable("storage unavailable".to_string())
}

/// Why one candidate account could not be connected.
#[derive(Clone, Copy, Debug, PartialEq, Eq, Structural)]
pub enum CandidateFailure {
    /// Its bearer token could not be resolved.
    BearerToken,
    /// The websocket connection failed.
    Connect,
}

/// The message recorded when a candidate account fails.
pub fn candidate_failure_message(kind: CandidateFailure, account_id: &str, err: &str) -> (r: String)
    ensures
        r@ == match kind {
            CandidateFailure::BearerToken => "resolve bearer token for account "@ + account_id@
                + " failed: "@ + err@,
            CandidateFailure::Connect => "connect upstream websocket for account "@ + account_id@
                + " failed: "@ + err@,
        },
{
    let mut message = match kind {
        CandidateFailure::BearerToken => prefixed("resolve bearer token for account ", account_id),
        CandidateFailure::Connect => prefixed("connect upstream websocket for account ", account_id),
    };
    message.append(" failed: ");
    message.append(err);
    message
}

/// The error once every candidate account has failed: the last failure
/// recorded, or a generic message where none was.
pub fn connect_failure_error(last_error: Option<String>) -> (r: WsSessionError)
    ensures
        r.status == 502,
        r.code@ == RESPONSES_WS_ERROR_CODE@,
        r.message@ == match last_error {
            Some(e) => e@,
            None => "connect upstream websocket failed"@,
        },
{
    match last_error {
        Some(e) => WsSessionError::bad_gateway(e),
        None => WsSessionError::bad_gateway("connect upstream websocket failed".to_string()),
    }
}


/// What happened with one candidate account while connecting upstream, or
/// that the candidates have run out.
#[derive(Debug)]
pub enum ConnectEvent {
    /// Its bearer token could not be resolved: the error text.
    BearerTokenFailed(String),
    /// The upstream request could not be built.
    RequestBuildFailed(WsSessionError),
    /// The connection is open.
    Connected,
    /// The connection failed: the error text.
    ConnectFailed(String),
    /// No candidate is left to try.
    Exhausted,
}

/// What the connect loop does next.
#[derive(Debug)]
pub enum ConnectAction {
    /// Try the next candidate, remembering this failure.
    TryNext(Option<String>),
    /// Stop: connected, or failed with this error.
    Finish(Result<(), WsSessionError>),
}

/// The connect loop's decision on one event: a failed token or connection
/// moves on to the next candidate and is remembered as the last failure; a
/// request that cannot be built stops with its error; an open connection
/// stops with success; and when the candidates run out the loop fails with
/// the last failure remembered.
pub open spec fn connect_step_ok(
    account_id: Seq<char>,
    last_error: Option<String>,
    event: ConnectEvent,
    r: ConnectAction,
) -> bool {
    match event {
        ConnectEvent::BearerTokenFailed(e) => r matches ConnectAction::TryNext(Some(m)) && m@
            == "resolve bearer token for account "@ + account_id + " failed: "@ + e@,
        ConnectEvent::ConnectFailed(e) => r matches ConnectAction::TryNext(Some(m)) && m@
            == "connect upstream websocket for account "@ + account_id + " failed: "@ + e@,
        ConnectEvent::RequestBuildFailed(e) => r == ConnectAction::Finish(Err(e)),
        ConnectEvent::Connected => r matches ConnectAction::Finish(Ok(())),
        ConnectEvent::Exhausted => r matches ConnectAction::Finish(Err(err)) && is_error(
            err,
            502,
            RESPONSES_WS_ERROR_CODE@,
            match last_error {
                Some(e) => e@,
                None => "connect upstream websocket failed"@,
            },
        ),
    }
}

/// One step of connecting to the upstream websocket over the routed
/// candidate accounts, tried in order.
pub fn connect_candidate_step(account_id: &str, last_error: Option<String>, event: ConnectEvent) -> (r:
    ConnectAction)
    ensures
        connect_step_ok(account_id@, last_error, event, r),
{
    match event {
        ConnectEvent::BearerTokenFailed(e) => ConnectAction::TryNext(
            Some(candidate_failure_message(CandidateFailure::BearerToken, account_id, e.as_str())),
        ),
        ConnectEvent::ConnectFailed(e) => ConnectAction::TryNext(
            Some(candidate_failure_message(CandidateFailure::Connect, account_id, e.as_str())),
        ),
        ConnectEvent::RequestBuildFailed(e) => ConnectAction::Finish(Err(e)),
        ConnectEvent::Connected => ConnectAction::Finish(Ok(())),
        ConnectEvent::Exhausted => ConnectAction::Finish(Err(connect_failure_error(last_error))),
    }
}


/// A request that replaces the one in flight finishes the latter's log as
/// superseded (499), begins its own log and is then forwarded upstream; it
/// is the only request in flight afterwards.
pub proof fn lemma_superseded_request_finished_first(s: WsStep)
    requires
        step_ok(true, WsEvent::ClientTextPrepared, s),
    ensures
        log_is(s.finalize, 499, "websocket request superseded before completion"@),
        s.begin_log,
        s.forward is ToUpstream,
        s.pending,
        !s.stop,
{
}

/// A run of the session: the steps taken on a sequence of events, each from
/// whether a request is in flight after the step before.
pub open spec fn run_ok(pending: bool, events: Seq<WsEvent>, steps: Seq<WsStep>) -> bool
    decreases events.len(),
{
    &&& events.len() == steps.len()
    &&& events.len() > 0 ==> {
        &&& step_ok(pending, events[0], steps[0])
        &&& run_ok(steps[0].pending, events.drop_first(), steps.drop_first())
    }
}

/// Whether a request is in flight after a run.
pub open spec fn pending_after(pending: bool, steps: Seq<WsStep>) -> bool {
    if steps.len() == 0 {
        pending
    } else {
        steps.last().pending
    }
}

/// Whether a request is in flight before step `i` of a run.
pub open spec fn pending_before(pending: bool, steps: Seq<WsStep>, i: int) -> bool {
    if i == 0 {
        pending
    } else {
        steps[i - 1].pending
    }
}

/// The number of request logs a run begins.
pub open spec fn logs_begun(steps: Seq<WsStep>) -> nat
    decreases steps.len(),
{
    if steps.len() == 0 {
        0
    } else {
        (if steps[0].begin_log {
            1nat
        } else {
            0nat
        }) + logs_begun(steps.drop_first())
    }
}

/// The number of request logs a run finishes.
pub open spec fn logs_finished(steps: Seq<WsStep>) -> nat
    decreases steps.len(),
{
    if steps.len() == 0 {
        0
    } else {
        (if steps[0].finalize is Some {
            1nat
        } else {
            0nat
        }) + logs_finished(steps.drop_first())
    }
}

/// Over any run of a session, a request log is finished only while one is in
/// flight, and the logs begun (with the one in flight at the start) are the
/// logs finished plus the one still in flight: so each request log is
/// finished at most once.
pub proof fn lemma_ws_run_finishes_each_log_at_most_once(
    pending: bool,
    events: Seq<WsEvent>,
    steps: Seq<WsStep>,
)
    requires
        run_ok(pending, events, steps),
    ensures
        forall|i: int|
            0 <= i < steps.len() && (#[trigger] steps[i]).finalize is Some ==> pending_before(
                pending,
                steps,
                i,
            ),
        logs_begun(steps) + (if pending {
            1int
        } else {
            0int
        }) == logs_finished(steps) + (if pending_after(pending, steps) {
            1int
        } else {
            0int
        }),
    decreases events.len(),
{
    if events.len() > 0 {
        let s0 = steps[0];
        let rest_e = events.drop_first();
        let rest_s = steps.drop_first();
        lemma_ws_run_finishes_each_log_at_most_once(s0.pending, rest_e, rest_s);
        lemma_ws_log_finished_at_most_once(pending, events[0], s0);
        assert(s0.begin_log && s0.finalize is None ==> !pending);
        assert(!s0.begin_log && s0.finalize is None ==> s0.pending == pending);
        assert forall|i: int|
            0 <= i < steps.len() && (#[trigger] steps[i]).finalize is Some implies pending_before(
                pending,
                steps,
                i,
            ) by {
            if i > 0 {
                assert(steps[i] == rest_s[i - 1]);
                if i > 1 {
                    assert(steps[i - 1] == rest_s[i - 2]);
                }
            }
        }
        if rest_s.len() > 0 {
            assert(rest_s.last() == steps.last());
        }
    }
}


/// What `http::HeaderName::from_bytes` says of a header name: none where it
/// accepts the name, else the text of its error.
pub uninterp spec fn http_header_name_error(name: Seq<char>) -> Option<Seq<char>>;

/// What `http::HeaderValue::from_str` says of a header value: none where it
/// accepts the value, else the text of its error.
pub uninterp spec fn http_header_value_error(value: Seq<char>) -> Option<Seq<char>>;

/// `http::HeaderName::from_bytes` on the name's bytes, read through the
/// error's `Display`: the claim is only that the outcome is a function of
/// the name alone; which names are valid is left to the crate.
#[verifier::external_body]
fn header_name_error(name: &str) -> (r: Option<String>)
    ensures
        opt_string_view(r) == http_header_name_error(name@),
{
    axum::http::HeaderName::from_bytes(name.as_bytes()).err().map(|err| err.to_string())
}

/// `http::HeaderValue::from_str`, read through the error's `Display`: the
/// claim is only that the outcome is a function of the value alone.
#[verifier::external_body]
fn header_value_error(value: &str) -> (r: Option<String>)
    ensures
        opt_string_view(r) == http_header_value_error(value@),
{
    axum::http::HeaderValue::from_str(value).err().map(|err| err.to_string())
}

/// The first problem that HTTP finds in a list of upstream headers, taken
/// in order and the name of each before its value, as its error message;
/// none where every header is valid.
pub open spec fn first_header_problem(h: HeaderSeq) -> Option<Seq<char>>
    decreases h.len(),
{
    if h.len() == 0 {
        None
    } else {
        match http_header_name_error(h[0].0) {
            Some(e) => Some("invalid upstream websocket header name "@ + h[0].0 + ": "@ + e),
            None => match http_header_value_error(h[0].1) {
                Some(e) => Some("invalid upstream websocket header "@ + h[0].0 + ": "@ + e),
                None => first_header_problem(h.drop_first()),
            },
        }
    }
}

/// Checks the upstream websocket request headers as HTTP will take them: the
/// first invalid name or value ends the session with a gateway error.
pub fn check_upstream_headers(pairs: &Vec<(String, String)>) -> (r: Result<(), WsSessionError>)
    ensures
        match first_header_problem(headers_view(pairs@)) {
            None => r is Ok,
            Some(m) => r matches Err(e) && is_error(e, 502, RESPONSES_WS_ERROR_CODE@, m),
        },
{
    let ghost h = headers_view(pairs@);
    assert(h.skip(0) =~= h);
    let mut i: usize = 0;
    while i < pairs.len()
        invariant
            i <= pairs@.len(),
            h == headers_view(pairs@),
            first_header_problem(h) == first_header_problem(h.skip(i as int)),
        decreases pairs@.len() - i,
    {
        let ghost rest = h.skip(i as int);
        assert(rest[0] == (pairs@[i as int].0@, pairs@[i as int].1@));
        assert(rest.drop_first() =~= h.skip(i + 1));
        let name = pairs[i].0.as_str();
        if let Some(err) = header_name_error(name) {
            let mut message = prefixed("invalid upstream websocket header name ", name);
            message.append(": ");
            message.append(err.as_str());
            return Err(WsSessionError::bad_gateway(message));
        }
        if let Some(err) = header_value_error(pairs[i].1.as_str()) {
            let mut message = prefixed("invalid upstream websocket header ", name);
            message.append(": ");
            message.append(err.as_str());
            return Err(WsSessionError::bad_gateway(message));
        }
        i = i + 1;
    }
    assert(h.skip(i as int).len() == 0);
    Ok(())
}

/// Where the incoming turn state is given, the upstream websocket request
/// carries it as `x-codex-turn-state`, after the turn metadata where that is
/// given too.
pub proof fn lemma_ws_turn_state_is_sent(i: WsUpstreamHeaderInput)
    ensures
        i.turn_state matches Some(t) ==> exists|k: int|
            0 <= k < ws_upstream_headers_spec(i).len() && ws_upstream_headers_spec(i)[k] == (
                "x-codex-turn-state"@,
                t@,
            ) && (i.turn_metadata matches Some(md) ==> 0 < k && ws_upstream_headers_spec(i)[k
                - 1] == ("x-codex-turn-metadata"@, md@)),
{
    if let Some(t) = i.turn_state {
        let h3 = ws_identity_headers_spec(i);
        let h4 = push_opt(h3, "session_id"@, opt_str_view(i.session_id));
        let h5 = push_opt(h4, "x-client-request-id"@, opt_str_view(i.client_request_id));
        let h6 = push_opt(h5, "x-openai-subagent"@, opt_str_view(i.subagent));
        let h7 = push_opt(h6, "x-codex-beta-features"@, opt_str_view(i.beta_features));
        let h8 = push_opt(h7, "x-codex-turn-metadata"@, opt_str_view(i.turn_metadata));
        let h9 = h8.push(("x-codex-turn-state"@, t@));
        let r = ws_upstream_headers_spec(i);
        let k = h8.len() as int;
        assert(r[k] == h9[k]);
        if let Some(md) = i.turn_metadata {
            assert(r[k - 1] == h9[k - 1]);
        }
    }
}


/// The upstream websocket request carries every Codex header the client
/// brought (session id, client request id, subagent, beta features, turn
/// metadata, turn state), the timing metrics flag where it is asked for, and
/// the account's bearer token, the user agent, the originator and the
/// websocket beta flag.
pub proof fn lemma_ws_client_headers_are_sent(i: WsUpstreamHeaderInput)
    ensures
        ({
            let r = ws_upstream_headers_spec(i);
            &&& r.contains(("Authorization"@, "Bearer "@ + i.bearer_token@))
            &&& r.contains(("User-Agent"@, i.user_agent@))
            &&& r.contains(("originator"@, i.originator@))
            &&& r.contains(("OpenAI-Beta"@, RESPONSES_WS_BETA_HEADER_VALUE@))
            &&& i.session_id matches Some(t) ==> r.contains(("session_id"@, t@))
            &&& i.client_request_id matches Some(t) ==> r.contains(("x-client-request-id"@, t@))
            &&& i.subagent matches Some(t) ==> r.contains(("x-openai-subagent"@, t@))
            &&& i.beta_features matches Some(t) ==> r.contains(("x-codex-beta-features"@, t@))
            &&& i.turn_metadata matches Some(t) ==> r.contains(("x-codex-turn-metadata"@, t@))
            &&& i.turn_state matches Some(t) ==> r.contains(("x-codex-turn-state"@, t@))
            &&& i.include_timing_metrics ==> r.contains(
                ("x-responsesapi-include-timing-metrics"@, "true"@),
            )
        }),
{
    let h0 = seq![("Authorization"@, "Bearer "@ + i.bearer_token@)];
    let h1 = push_opt(h0, "ChatGPT-Account-ID"@, opt_trimmed(opt_str_view(i.chatgpt_account_id)));
    let ha = h1.push(("User-Agent"@, i.user_agent@));
    let hb = ha.push(("originator"@, i.originator@));
    let h2 = hb.push(("OpenAI-Beta"@, RESPONSES_WS_BETA_HEADER_VALUE@));
    let res = opt_str_view(i.residency_requirement);
    let h3 = push_opt(h2, "x-openai-internal-codex-residency"@, res);
    assert(h3 == ws_identity_headers_spec(i));
    let v4 = opt_str_view(i.session_id);
    let v5 = opt_str_view(i.client_request_id);
    let v6 = opt_str_view(i.subagent);
    let v7 = opt_str_view(i.beta_features);
    let v8 = opt_str_view(i.turn_metadata);
    let v9 = opt_str_view(i.turn_state);
    let h4 = push_opt(h3, "session_id"@, v4);
    let h5 = push_opt(h4, "x-client-request-id"@, v5);
    let h6 = push_opt(h5, "x-openai-subagent"@, v6);
    let h7 = push_opt(h6, "x-codex-beta-features"@, v7);
    let h8 = push_opt(h7, "x-codex-turn-metadata"@, v8);
    let h9 = push_opt(h8, "x-codex-turn-state"@, v9);
    let tm = ("x-responsesapi-include-timing-metrics"@, "true"@);
    let r = ws_upstream_headers_spec(i);
    assert forall|x: (Seq<char>, Seq<char>)| h9.contains(x) implies r.contains(x) by {
        if i.include_timing_metrics {
            let j = choose|j: int| 0 <= j < h9.len() && h9[j] == x;
            assert(h9.push(tm)[j] == x);
        }
    }
    if i.include_timing_metrics {
        assert(h9.push(tm)[h9.len() as int] == tm);
    }
    assert forall|x: (Seq<char>, Seq<char>)| h3.contains(x) implies h9.contains(x) by {
        lemma_contains_after_push_opt(h3, x, "session_id"@, v4);
        lemma_contains_after_push_opt(h4, x, "x-client-request-id"@, v5);
        lemma_contains_after_push_opt(h5, x, "x-openai-subagent"@, v6);
        lemma_contains_after_push_opt(h6, x, "x-codex-beta-features"@, v7);
        lemma_contains_after_push_opt(h7, x, "x-codex-turn-metadata"@, v8);
        lemma_contains_after_push_opt(h8, x, "x-codex-turn-state"@, v9);
    }
    assert(h0[0] == ("Authorization"@, "Bearer "@ + i.bearer_token@));
    lemma_contains_after_push_opt(h0, h0[0], "ChatGPT-Account-ID"@, opt_trimmed(opt_str_view(i.chatgpt_account_id)));
    let j0 = choose|j: int| 0 <= j < h1.len() && h1[j] == h0[0];
    assert(h2[j0] == h0[0]);
    assert(h2[h1.len() as int] == ("User-Agent"@, i.user_agent@));
    assert(h2[h1.len() + 1int] == ("originator"@, i.originator@));
    assert(h2[h1.len() + 2int] == ("OpenAI-Beta"@, RESPONSES_WS_BETA_HEADER_VALUE@));
    lemma_contains_after_push_opt(h2, h0[0], "x-openai-internal-codex-residency"@, res);
    lemma_contains_after_push_opt(h2, ("User-Agent"@, i.user_agent@), "x-openai-internal-codex-residency"@, res);
    lemma_contains_after_push_opt(h2, ("originator"@, i.originator@), "x-openai-internal-codex-residency"@, res);
    lemma_contains_after_push_opt(h2, ("OpenAI-Beta"@, RESPONSES_WS_BETA_HEADER_VALUE@), "x-openai-internal-codex-residency"@, res);
    lemma_push_opt_contains(h3, "session_id"@, v4);
    lemma_push_opt_contains(h4, "x-client-request-id"@, v5);
    lemma_push_opt_contains(h5, "x-openai-subagent"@, v6);
    lemma_push_opt_contains(h6, "x-codex-beta-features"@, v7);
    lemma_push_opt_contains(h7, "x-codex-turn-metadata"@, v8);
    lemma_push_opt_contains(h8, "x-codex-turn-state"@, v9);
    assert forall|x: (Seq<char>, Seq<char>)| h4.contains(x) implies h9.contains(x) by {
        lemma_contains_after_push_opt(h4, x, "x-client-request-id"@, v5);
        lemma_contains_after_push_opt(h5, x, "x-openai-subagent"@, v6);
        lemma_contains_after_push_opt(h6, x, "x-codex-beta-features"@, v7);
        lemma_contains_after_push_opt(h7, x, "x-codex-turn-metadata"@, v8);
        lemma_contains_after_push_opt(h8, x, "x-codex-turn-state"@, v9);
    }
    assert forall|x: (Seq<char>, Seq<char>)| h5.contains(x) implies h9.contains(x) by {
        lemma_contains_after_push_opt(h5, x, "x-openai-subagent"@, v6);
        lemma_contains_after_push_opt(h6, x, "x-codex-beta-features"@, v7);
        lemma_contains_after_push_opt(h7, x, "x-codex-turn-metadata"@, v8);
        lemma_contains_after_push_opt(h8, x, "x-codex-turn-state"@, v9);
    }
    assert forall|x: (Seq<char>, Seq<char>)| h6.contains(x) implies h9.contains(x) by {
        lemma_contains_after_push_opt(h6, x, "x-codex-beta-features"@, v7);
        lemma_contains_after_push_opt(h7, x, "x-codex-turn-metadata"@, v8);
        lemma_contains_after_push_opt(h8, x, "x-codex-turn-state"@, v9);
    }
    assert forall|x: (Seq<char>, Seq<char>)| h7.contains(x) implies h9.contains(x) by {
        lemma_contains_after_push_opt(h7, x, "x-codex-turn-metadata"@, v8);
        lemma_contains_after_push_opt(h8, x, "x-codex-turn-state"@, v9);
    }
    assert forall|x: (Seq<char>, Seq<char>)| h8.contains(x) implies h9.contains(x) by {
        lemma_contains_after_push_opt(h8, x, "x-codex-turn-state"@, v9);
    }
}

} // verus!
