//! The upstream request headers that the gateway sends to the Codex backend.
//!
//! Values that come from the process (the configured user agent, originator,
//! residency requirement and the `OPENAI_ORGANIZATION` / `OPENAI_PROJECT`
//! environment variables) are handed in through [`CodexRuntimeHeaders`].
use crate::text::{eq_ignore_case, opt_str_view, opt_string_view, opt_trimmed, str_eq_ignore_case, trim, trim_str, trimmed_non_empty};
use vstd::prelude::*;
use vstd::string::*;

verus! {

broadcast use vstd::string::group_string_axioms;

/// The version of the Codex client that the gateway presents itself as.
pub const CODEX_CLIENT_VERSION: &'static str = "0.101.0";

/// Name of the environment variable that holds the organization id.
pub const OPENAI_ORGANIZATION_ENV: &'static str = "OPENAI_ORGANIZATION";

/// Name of the environment variable that holds the project id.
pub const OPENAI_PROJECT_ENV: &'static str = "OPENAI_PROJECT";

/// A header list as plain text pairs.
pub type HeaderSeq = Seq<(Seq<char>, Seq<char>)>;

/// The view of a header list.
pub open spec fn headers_view(v: Seq<(String, String)>) -> HeaderSeq {
    v.map_values(|p: (String, String)| (p.0@, p.1@))
}

/// Appends a header where a value is present.
pub open spec fn push_opt(h: HeaderSeq, name: Seq<char>, value: Option<Seq<char>>) -> HeaderSeq {
    match value {
        Some(v) => h.push((name, v)),
        None => h,
    }
}

/// Whether the list holds a header of this name, ignoring ASCII case.
pub open spec fn has_header(h: HeaderSeq, name: Seq<char>) -> bool {
    exists|k: int| 0 <= k < h.len() && eq_ignore_case(#[trigger] h[k].0, name)
}

/// One pass-through header is added, trimmed, unless its value is blank or a
/// header of that name (ignoring case) is already present.
pub open spec fn passthrough_step(h: HeaderSeq, item: (Seq<char>, Seq<char>)) -> HeaderSeq {
    if trim(item.1).len() == 0 || has_header(h, item.0) {
        h
    } else {
        h.push((item.0, trim(item.1)))
    }
}

/// All pass-through headers, in order, each judged against the list built so far.
pub open spec fn passthrough_all(h: HeaderSeq, items: HeaderSeq) -> HeaderSeq
    decreases items.len(),
{
    if items.len() == 0 {
        h
    } else {
        passthrough_step(passthrough_all(h, items.drop_last()), items.last())
    }
}

/// The session id sent upstream: the incoming one, unless session affinity is
/// stripped or it is blank; otherwise the fallback; each trimmed.
pub open spec fn session_id_spec(
    incoming: Option<Seq<char>>,
    fallback: Option<Seq<char>>,
    strip: bool,
) -> Option<Seq<char>> {
    if !strip && opt_trimmed(incoming) is Some {
        opt_trimmed(incoming)
    } else {
        opt_trimmed(fallback)
    }
}

/// The window id sent upstream: the incoming one, unless affinity is stripped
/// or it is blank; otherwise the resolved session id followed by `:0`.
pub open spec fn window_id_spec(
    incoming_window: Option<Seq<char>>,
    session: Option<Seq<char>>,
    strip: bool,
) -> Option<Seq<char>> {
    if !strip && opt_trimmed(incoming_window) is Some {
        opt_trimmed(incoming_window)
    } else {
        match opt_trimmed(session) {
            Some(s) => Some(s + ":0"@),
            None => None,
        }
    }
}

/// The values that the header builders read from the process.
pub struct CodexRuntimeHeaders {
    /// The full `User-Agent` value.
    pub user_agent: String,
    /// The version segment of the user agent.
    pub user_agent_version: String,
    /// The `originator` value.
    pub originator: String,
    /// The data residency requirement, where one is configured.
    pub residency_requirement: Option<String>,
    /// The raw value of `OPENAI_ORGANIZATION`, where it is set.
    pub organization: Option<String>,
    /// The raw value of `OPENAI_PROJECT`, where it is set.
    pub project: Option<String>,
}

/// What the gateway knows of one `/responses` request when it builds headers.
pub struct CodexUpstreamHeaderInput<'a> {
    pub auth_token: &'a str,
    pub chatgpt_account_id: Option<&'a str>,
    pub incoming_session_id: Option<&'a str>,
    pub incoming_window_id: Option<&'a str>,
    pub incoming_client_request_id: Option<&'a str>,
    pub incoming_subagent: Option<&'a str>,
    pub incoming_beta_features: Option<&'a str>,
    pub incoming_turn_metadata: Option<&'a str>,
    pub incoming_parent_thread_id: Option<&'a str>,
    pub passthrough_codex_headers: &'a [(String, String)],
    pub fallback_session_id: Option<&'a str>,
    pub incoming_turn_state: Option<&'a str>,
    pub include_turn_state: bool,
    pub strip_session_affinity: bool,
    pub has_body: bool,
}

/// What the gateway knows of one `/responses/compact` request when it builds headers.
pub struct CodexCompactUpstreamHeaderInput<'a> {
    pub auth_token: &'a str,
    pub chatgpt_account_id: Option<&'a str>,
    pub incoming_session_id: Option<&'a str>,
    pub incoming_window_id: Option<&'a str>,
    pub incoming_subagent: Option<&'a str>,
    pub incoming_parent_thread_id: Option<&'a str>,
    pub passthrough_codex_headers: &'a [(String, String)],
    pub fallback_session_id: Option<&'a str>,
    pub strip_session_affinity: bool,
    pub has_body: bool,
}

/// The headers common to both builders, up to and including `originator` and
/// the residency requirement.
pub open spec fn common_prefix_spec(
    auth_token: Seq<char>,
    chatgpt_account_id: Option<Seq<char>>,
    has_body: bool,
    accept: Seq<char>,
    rt: CodexRuntimeHeaders,
) -> HeaderSeq {
    let h0 = seq![("Authorization"@, "Bearer "@ + auth_token)];
    let h1 = push_opt(h0, "ChatGPT-Account-ID"@, opt_trimmed(chatgpt_account_id));
    let h2 = if has_body {
        h1.push(("Content-Type"@, "application/json"@))
    } else {
        h1
    };
    let h3 = h2.push(("Accept"@, accept)).push(("User-Agent"@, rt.user_agent@)).push(
        ("version"@, rt.user_agent_version@),
    );
    let h4 = push_opt(h3, "OpenAI-Organization"@, opt_trimmed(opt_string_view(rt.organization)));
    let h5 = push_opt(h4, "OpenAI-Project"@, opt_trimmed(opt_string_view(rt.project)));
    let h6 = h5.push(("originator"@, rt.originator@));
    push_opt(
        h6,
        "x-openai-internal-codex-residency"@,
        opt_string_view(rt.residency_requirement),
    )
}

/// The headers of a `/responses` request that the gateway sets itself, up to
/// and including the window id, in the order they are sent.
pub open spec fn upstream_base_headers_spec(
    input: CodexUpstreamHeaderInput,
    rt: CodexRuntimeHeaders,
) -> HeaderSeq {
    let strip = input.strip_session_affinity;
    let h0 = common_prefix_spec(
        input.auth_token@,
        opt_str_view(input.chatgpt_account_id),
        input.has_body,
        "text/event-stream"@,
        rt,
    );
    let h1 = push_opt(
        h0,
        "x-client-request-id"@,
        opt_trimmed(opt_str_view(input.incoming_client_request_id)),
    );
    let h2 = push_opt(
        h1,
        "x-openai-subagent"@,
        opt_trimmed(opt_str_view(input.incoming_subagent)),
    );
    let h3 = push_opt(
        h2,
        "x-codex-beta-features"@,
        opt_trimmed(opt_str_view(input.incoming_beta_features)),
    );
    let h4 = push_opt(
        h3,
        "x-codex-turn-metadata"@,
        opt_trimmed(opt_str_view(input.incoming_turn_metadata)),
    );
    let h5 = push_opt(
        h4,
        "x-codex-parent-thread-id"@,
        opt_trimmed(opt_str_view(input.incoming_parent_thread_id)),
    );
    let session = session_id_spec(
        opt_str_view(input.incoming_session_id),
        opt_str_view(input.fallback_session_id),
        strip,
    );
    let h6 = push_opt(h5, "session_id"@, session);
    push_opt(
        h6,
        "x-codex-window-id"@,
        window_id_spec(opt_str_view(input.incoming_window_id), session, strip),
    )
}

/// The headers of a `/responses` request, in the order they are sent: the
/// gateway's own headers, the pass-through headers (unless session affinity
/// is stripped), and the turn state where it is asked for.
pub open spec fn codex_upstream_headers_spec(
    input: CodexUpstreamHeaderInput,
    rt: CodexRuntimeHeaders,
) -> HeaderSeq {
    let strip = input.strip_session_affinity;
    let h7 = upstream_base_headers_spec(input, rt);
    let h8 = if strip {
        h7
    } else {
        passthrough_all(h7, headers_view(input.passthrough_codex_headers@))
    };
    if !strip && input.include_turn_state {
        push_opt(h8, "x-codex-turn-state"@, opt_str_view(input.incoming_turn_state))
    } else {
        h8
    }
}

/// The headers of a `/responses/compact` request, in the order they are sent.
pub open spec fn codex_compact_upstream_headers_spec(
    input: CodexCompactUpstreamHeaderInput,
    rt: CodexRuntimeHeaders,
) -> HeaderSeq {
    let strip = input.strip_session_affinity;
    let h0 = common_prefix_spec(
        input.auth_token@,
        opt_str_view(input.chatgpt_account_id),
        input.has_body,
        "application/json"@,
        rt,
    );
    let h1 = push_opt(
        h0,
        "x-openai-subagent"@,
        opt_trimmed(opt_str_view(input.incoming_subagent)),
    );
    let h2 = push_opt(
        h1,
        "x-codex-parent-thread-id"@,
        opt_trimmed(opt_str_view(input.incoming_parent_thread_id)),
    );
    let session = session_id_spec(
        opt_str_view(input.incoming_session_id),
        opt_str_view(input.fallback_session_id),
        strip,
    );
    let h3 = push_opt(h2, "session_id"@, session);
    let h4 = push_opt(
        h3,
        "x-codex-window-id"@,
        window_id_spec(opt_str_view(input.incoming_window_id), session, strip),
    );
    if strip {
        h4
    } else {
        passthrough_all(h4, headers_view(input.passthrough_codex_headers@))
    }
}

/// Appends one header.
fn push_header(headers: &mut Vec<(String, String)>, name: &str, value: String)
    ensures
        headers_view(final(headers)@) == headers_view(old(headers)@).push((name@, value@)),
{
    headers.push((name.to_string(), value));
    assert(headers_view(headers@) =~= headers_view(old(headers)@).push((name@, value@)));
}

/// Appends a header where a value is present.
fn push_optional(headers: &mut Vec<(String, String)>, name: &str, value: Option<String>)
    ensures
        headers_view(final(headers)@) == push_opt(
            headers_view(old(headers)@),
            name@,
            opt_string_view(value),
        ),
{
    if let Some(v) = value {
        push_header(headers, name, v);
    }
}

/// Appends a header, trimmed, where a value is present and not blank.
fn push_trimmed(headers: &mut Vec<(String, String)>, name: &str, value: Option<&str>)
    ensures
        headers_view(final(headers)@) == push_opt(
            headers_view(old(headers)@),
            name@,
            opt_trimmed(opt_str_view(value)),
        ),
{
    push_optional(headers, name, trimmed_non_empty(value));
}

/// Appends a header whose value is read from the environment, trimmed, where
/// it is set and not blank.
pub fn append_optional_env_header(
    headers: &mut Vec<(String, String)>,
    header_name: &str,
    env_value: Option<&str>,
)
    ensures
        headers_view(final(headers)@) == push_opt(
            headers_view(old(headers)@),
            header_name@,
            opt_trimmed(opt_str_view(env_value)),
        ),
{
    push_trimmed(headers, header_name, env_value);
}

/// Whether the list holds a header of this name, ignoring ASCII case.
pub fn contains_header_ignore_case(headers: &Vec<(String, String)>, name: &str) -> (r: bool)
    ensures
        r == has_header(headers_view(headers@), name@),
{
    let ghost hv = headers_view(headers@);
    let mut i: usize = 0;
    while i < headers.len()
        invariant
            i <= headers@.len(),
            hv == headers_view(headers@),
            forall|k: int| 0 <= k < i ==> !eq_ignore_case(#[trigger] hv[k].0, name@),
        decreases headers@.len() - i,
    {
        if str_eq_ignore_case(headers[i].0.as_str(), name) {
            assert(eq_ignore_case(hv[i as int].0, name@));
            return true;
        }
        i = i + 1;
    }
    false
}

/// Appends the pass-through Codex headers where `enabled`: each one trimmed,
/// skipped where its value is blank or a header of that name is already present.
pub fn append_passthrough_codex_headers(
    headers: &mut Vec<(String, String)>,
    passthrough_headers: &[(String, String)],
    enabled: bool,
)
    ensures
        headers_view(final(headers)@) == if enabled {
            passthrough_all(headers_view(old(headers)@), headers_view(passthrough_headers@))
        } else {
            headers_view(old(headers)@)
        },
{
    if !enabled {
        return;
    }
    let ghost h0 = headers_view(headers@);
    let ghost items = headers_view(passthrough_headers@);
    let mut i: usize = 0;
    while i < passthrough_headers.len()
        invariant
            i <= passthrough_headers@.len(),
            items == headers_view(passthrough_headers@),
            headers_view(headers@) == passthrough_all(h0, items.take(i as int)),
        decreases passthrough_headers@.len() - i,
    {
        let name = &passthrough_headers[i].0;
        let trimmed_value = trim_str(passthrough_headers[i].1.as_str());
        proof {
            assert(items.take(i + 1).drop_last() =~= items.take(i as int));
            assert(items.take(i + 1).last() == items[i as int]);
        }
        if !trimmed_value.as_str().is_empty() && !contains_header_ignore_case(
            headers,
            name.as_str(),
        ) {
            let owned_name = name.clone();
            headers.push((owned_name, trimmed_value));
            proof {
                assert(headers_view(headers@) =~= passthrough_all(h0, items.take(i as int)).push(
                    (items[i as int].0, trim(items[i as int].1)),
                ));
            }
        }
        i = i + 1;
    }
    assert(items.take(passthrough_headers@.len() as int) =~= items);
}

/// The session id to send upstream.
pub fn resolve_optional_session_id(
    incoming: Option<&str>,
    fallback_session_id: Option<&str>,
    strip_session_affinity: bool,
) -> (r: Option<String>)
    ensures
        opt_string_view(r) == session_id_spec(
            opt_str_view(incoming),
            opt_str_view(fallback_session_id),
            strip_session_affinity,
        ),
{
    if strip_session_affinity {
        return trimmed_non_empty(fallback_session_id);
    }
    let from_incoming = trimmed_non_empty(incoming);
    if from_incoming.is_some() {
        return from_incoming;
    }
    trimmed_non_empty(fallback_session_id)
}

/// The window id to send upstream.
pub fn resolve_window_id(
    incoming_window_id: Option<&str>,
    resolved_session_id: Option<&str>,
    strip_session_affinity: bool,
) -> (r: Option<String>)
    ensures
        opt_string_view(r) == window_id_spec(
            opt_str_view(incoming_window_id),
            opt_str_view(resolved_session_id),
            strip_session_affinity,
        ),
{
    if !strip_session_affinity {
        let window = trimmed_non_empty(incoming_window_id);
        if window.is_some() {
            return window;
        }
    }
    match trimmed_non_empty(resolved_session_id) {
        Some(session_id) => {
            let mut window = session_id;
            window.append(":0");
            Some(window)
        },
        None => None,
    }
}

/// The client request id to send upstream: the incoming one, trimmed, where
/// it is not blank.
pub fn resolve_client_request_id(incoming_client_request_id: Option<&str>) -> (r: Option<String>)
    ensures
        opt_string_view(r) == opt_trimmed(opt_str_view(incoming_client_request_id)),
{
    trimmed_non_empty(incoming_client_request_id)
}

/// The view of an optional owned text, borrowed.
fn as_opt_str(o: &Option<String>) -> (r: Option<&str>)
    ensures
        opt_str_view(r) == opt_string_view(*o),
{
    match o {
        Some(s) => Some(s.as_str()),
        None => None,
    }
}

/// The headers common to both builders.
fn build_common_prefix(
    auth_token: &str,
    chatgpt_account_id: Option<&str>,
    has_body: bool,
    accept: &str,
    rt: &CodexRuntimeHeaders,
) -> (headers: Vec<(String, String)>)
    ensures
        headers_view(headers@) == common_prefix_spec(
            auth_token@,
            opt_str_view(chatgpt_account_id),
            has_body,
            accept@,
            *rt,
        ),
{
    let mut headers: Vec<(String, String)> = Vec::new();
    let mut bearer = "Bearer ".to_string();
    bearer.append(auth_token);
    push_header(&mut headers, "Authorization", bearer);
    push_trimmed(&mut headers, "ChatGPT-Account-ID", chatgpt_account_id);
    if has_body {
        push_header(&mut headers, "Content-Type", "application/json".to_string());
    }
    push_header(&mut headers, "Accept", accept.to_string());
    push_header(&mut headers, "User-Agent", rt.user_agent.clone());
    push_header(&mut headers, "version", rt.user_agent_version.clone());
    append_optional_env_header(&mut headers, "OpenAI-Organization", as_opt_str(&rt.organization));
    append_optional_env_header(&mut headers, "OpenAI-Project", as_opt_str(&rt.project));
    push_header(&mut headers, "originator", rt.originator.clone());
    push_optional(
        &mut headers,
        "x-openai-internal-codex-residency",
        rt.residency_requirement.clone(),
    );
    headers
}

/// Builds the upstream headers of a `/responses` request.
pub fn build_codex_upstream_headers(
    input: CodexUpstreamHeaderInput<'_>,
    rt: &CodexRuntimeHeaders,
) -> (headers: Vec<(String, String)>)
    ensures
        headers_view(headers@) == codex_upstream_headers_spec(input, *rt),
{
    let mut headers = build_common_prefix(
        input.auth_token,
        input.chatgpt_account_id,
        input.has_body,
        "text/event-stream",
        rt,
    );
    push_optional(
        &mut headers,
        "x-client-request-id",
        resolve_client_request_id(input.incoming_client_request_id),
    );
    push_trimmed(&mut headers, "x-openai-subagent", input.incoming_subagent);
    push_trimmed(&mut headers, "x-codex-beta-features", input.incoming_beta_features);
    push_trimmed(&mut headers, "x-codex-turn-metadata", input.incoming_turn_metadata);
    push_trimmed(&mut headers, "x-codex-parent-thread-id", input.incoming_parent_thread_id);
    let resolved_session_id = resolve_optional_session_id(
        input.incoming_session_id,
        input.fallback_session_id,
        input.strip_session_affinity,
    );
    let window_id = resolve_window_id(
        input.incoming_window_id,
        as_opt_str(&resolved_session_id),
        input.strip_session_affinity,
    );
    push_optional(&mut headers, "session_id", resolved_session_id);
    push_optional(&mut headers, "x-codex-window-id", window_id);
    append_passthrough_codex_headers(
        &mut headers,
        input.passthrough_codex_headers,
        !input.strip_session_affinity,
    );
    if !input.strip_session_affinity {
        if input.include_turn_state {
            if let Some(turn_state) = input.incoming_turn_state {
                push_header(&mut headers, "x-codex-turn-state", turn_state.to_string());
            }
        }
    }
    headers
}

/// Builds the upstream headers of a `/responses/compact` request.
pub fn build_codex_compact_upstream_headers(
    input: CodexCompactUpstreamHeaderInput<'_>,
    rt: &CodexRuntimeHeaders,
) -> (headers: Vec<(String, String)>)
    ensures
        headers_view(headers@) == codex_compact_upstream_headers_spec(input, *rt),
{
    let mut headers = build_common_prefix(
        input.auth_token,
        input.chatgpt_account_id,
        input.has_body,
        "application/json",
        rt,
    );
    push_trimmed(&mut headers, "x-openai-subagent", input.incoming_subagent);
    push_trimmed(&mut headers, "x-codex-parent-thread-id", input.incoming_parent_thread_id);
    let resolved_session_id = resolve_optional_session_id(
        input.incoming_session_id,
        input.fallback_session_id,
        input.strip_session_affinity,
    );
    let window_id = resolve_window_id(
        input.incoming_window_id,
        as_opt_str(&resolved_session_id),
        input.strip_session_affinity,
    );
    push_optional(&mut headers, "session_id", resolved_session_id);
    push_optional(&mut headers, "x-codex-window-id", window_id);
    append_passthrough_codex_headers(
        &mut headers,
        input.passthrough_codex_headers,
        !input.strip_session_affinity,
    );
    headers
}

/// No two headers share a name, ignoring ASCII case.
pub open spec fn names_distinct(h: HeaderSeq) -> bool {
    forall|i: int, j: int|
        0 <= i < j < h.len() ==> !eq_ignore_case(#[trigger] h[i].0, #[trigger] h[j].0)
}

/// Pass-through headers never repeat a header name that is already present
/// (ignoring case), so a list without repeated names keeps that property.
pub proof fn lemma_passthrough_keeps_names_distinct(h: HeaderSeq, items: HeaderSeq)
    requires
        names_distinct(h),
    ensures
        names_distinct(passthrough_all(h, items)),
        passthrough_all(h, items).len() >= h.len(),
        passthrough_all(h, items).take(h.len() as int) == h,
    decreases items.len(),
{
    if items.len() > 0 {
        lemma_passthrough_keeps_names_distinct(h, items.drop_last());
        let prev = passthrough_all(h, items.drop_last());
        let item = items.last();
        if !(trim(item.1).len() == 0 || has_header(prev, item.0)) {
            let next = prev.push((item.0, trim(item.1)));
            assert forall|a: int, b: int| 0 <= a < b < next.len() implies !eq_ignore_case(
                #[trigger] next[a].0,
                #[trigger] next[b].0,
            ) by {
                if b == prev.len() {
                    assert(next[a] == prev[a]);
                    if eq_ignore_case(prev[a].0, item.0) {
                        assert(has_header(prev, item.0));
                    }
                } else {
                    assert(next[a] == prev[a]);
                    assert(next[b] == prev[b]);
                }
            }
            assert(next.take(h.len() as int) =~= prev.take(h.len() as int));
        }
    }
}

/// A header name that none of the pass-through headers carries is not
/// added by them.
pub proof fn lemma_passthrough_adds_only_its_names(h: HeaderSeq, items: HeaderSeq, name: Seq<char>)
    requires
        !has_header(h, name),
        forall|i: int| 0 <= i < items.len() ==> !eq_ignore_case(#[trigger] items[i].0, name),
    ensures
        !has_header(passthrough_all(h, items), name),
    decreases items.len(),
{
    if items.len() > 0 {
        assert forall|i: int| 0 <= i < items.drop_last().len() implies !eq_ignore_case(
            #[trigger] items.drop_last()[i].0,
            name,
        ) by {
            assert(items.drop_last()[i] == items[i]);
        }
        lemma_passthrough_adds_only_its_names(h, items.drop_last(), name);
        let prev = passthrough_all(h, items.drop_last());
        let item = items.last();
        assert(!eq_ignore_case(items[items.len() - 1].0, name));
        if !(trim(item.1).len() == 0 || has_header(prev, item.0)) {
            let next = prev.push((item.0, trim(item.1)));
            if has_header(next, name) {
                let k = choose|k: int| 0 <= k < next.len() && eq_ignore_case(#[trigger] next[k].0, name);
                if k < prev.len() {
                    assert(next[k] == prev[k]);
                    assert(has_header(prev, name));
                }
            }
        }
    }
}

/// Adding a header of another name does not add one of this name.
pub proof fn lemma_push_opt_other_name(h: HeaderSeq, name: Seq<char>, v: Option<Seq<char>>, other: Seq<char>)
    requires
        !has_header(h, other),
        !eq_ignore_case(name, other),
    ensures
        !has_header(push_opt(h, name, v), other),
{
    if let Some(x) = v {
        let n = h.push((name, x));
        if has_header(n, other) {
            let k = choose|k: int| 0 <= k < n.len() && eq_ignore_case(#[trigger] n[k].0, other);
            if k < h.len() {
                assert(n[k] == h[k]);
                assert(has_header(h, other));
            }
        }
    }
}

proof fn lemma_len_differs(a: Seq<char>, b: Seq<char>)
    requires
        a.len() != b.len(),
    ensures
        !eq_ignore_case(a, b),
{
    assert(crate::text::lower(a).len() == a.len());
    assert(crate::text::lower(b).len() == b.len());
}

/// The name is none of the header names that both builders start with.
pub open spec fn not_a_prefix_name(n: Seq<char>) -> bool {
    &&& !eq_ignore_case("Authorization"@, n)
    &&& !eq_ignore_case("ChatGPT-Account-ID"@, n)
    &&& !eq_ignore_case("Content-Type"@, n)
    &&& !eq_ignore_case("Accept"@, n)
    &&& !eq_ignore_case("User-Agent"@, n)
    &&& !eq_ignore_case("version"@, n)
    &&& !eq_ignore_case("OpenAI-Organization"@, n)
    &&& !eq_ignore_case("OpenAI-Project"@, n)
    &&& !eq_ignore_case("originator"@, n)
    &&& !eq_ignore_case("x-openai-internal-codex-residency"@, n)
}

/// The headers both builders start with carry none of the other names.
proof fn lemma_prefix_lacks(
    n: Seq<char>,
    auth_token: Seq<char>,
    chatgpt_account_id: Option<Seq<char>>,
    has_body: bool,
    accept: Seq<char>,
    rt: CodexRuntimeHeaders,
)
    requires
        not_a_prefix_name(n),
    ensures
        !has_header(common_prefix_spec(auth_token, chatgpt_account_id, has_body, accept, rt), n),
{
    let e = Seq::<(Seq<char>, Seq<char>)>::empty();
    let h0 = seq![("Authorization"@, "Bearer "@ + auth_token)];
    assert(h0 == e.push(h0[0]));
    lemma_push_opt_other_name(e, "Authorization"@, Some(h0[0].1), n);
    let c1 = opt_trimmed(chatgpt_account_id);
    lemma_push_opt_other_name(h0, "ChatGPT-Account-ID"@, c1, n);
    let h1 = push_opt(h0, "ChatGPT-Account-ID"@, c1);
    lemma_push_opt_other_name(h1, "Content-Type"@, Some("application/json"@), n);
    let h2 = if has_body {
        h1.push(("Content-Type"@, "application/json"@))
    } else {
        h1
    };
    lemma_push_opt_other_name(h2, "Accept"@, Some(accept), n);
    let h2a = h2.push(("Accept"@, accept));
    lemma_push_opt_other_name(h2a, "User-Agent"@, Some(rt.user_agent@), n);
    let h2b = h2a.push(("User-Agent"@, rt.user_agent@));
    lemma_push_opt_other_name(h2b, "version"@, Some(rt.user_agent_version@), n);
    let h3 = h2b.push(("version"@, rt.user_agent_version@));
    let o = opt_trimmed(opt_string_view(rt.organization));
    lemma_push_opt_other_name(h3, "OpenAI-Organization"@, o, n);
    let h4 = push_opt(h3, "OpenAI-Organization"@, o);
    let p = opt_trimmed(opt_string_view(rt.project));
    lemma_push_opt_other_name(h4, "OpenAI-Project"@, p, n);
    let h5 = push_opt(h4, "OpenAI-Project"@, p);
    lemma_push_opt_other_name(h5, "originator"@, Some(rt.originator@), n);
    let h6 = h5.push(("originator"@, rt.originator@));
    lemma_push_opt_other_name(
        h6,
        "x-openai-internal-codex-residency"@,
        opt_string_view(rt.residency_requirement),
        n,
    );
}

/// When session affinity is stripped (the account or the thread changed),
/// no `x-codex-turn-state` header is sent: the turn state of the old thread
/// is dropped.
pub proof fn lemma_stripped_affinity_sends_no_turn_state(
    input: CodexUpstreamHeaderInput,
    rt: CodexRuntimeHeaders,
)
    requires
        input.strip_session_affinity,
    ensures
        !has_header(codex_upstream_headers_spec(input, rt), "x-codex-turn-state"@),
{
    let n = "x-codex-turn-state"@;
    reveal_strlit("x-codex-turn-state");
    reveal_strlit("Authorization");
    reveal_strlit("ChatGPT-Account-ID");
    reveal_strlit("Content-Type");
    reveal_strlit("Accept");
    reveal_strlit("User-Agent");
    reveal_strlit("version");
    reveal_strlit("OpenAI-Organization");
    reveal_strlit("OpenAI-Project");
    reveal_strlit("originator");
    reveal_strlit("x-openai-internal-codex-residency");
    reveal_strlit("x-client-request-id");
    reveal_strlit("x-openai-subagent");
    reveal_strlit("x-codex-beta-features");
    reveal_strlit("x-codex-turn-metadata");
    reveal_strlit("x-codex-parent-thread-id");
    reveal_strlit("session_id");
    reveal_strlit("x-codex-window-id");
    lemma_len_differs("Authorization"@, n);
    assert(crate::text::lower("ChatGPT-Account-ID"@)[0] != crate::text::lower(n)[0]);
    lemma_len_differs("Content-Type"@, n);
    lemma_len_differs("Accept"@, n);
    lemma_len_differs("User-Agent"@, n);
    lemma_len_differs("version"@, n);
    lemma_len_differs("OpenAI-Organization"@, n);
    lemma_len_differs("OpenAI-Project"@, n);
    lemma_len_differs("originator"@, n);
    lemma_len_differs("x-openai-internal-codex-residency"@, n);
    let g0 = common_prefix_spec(
        input.auth_token@,
        opt_str_view(input.chatgpt_account_id),
        input.has_body,
        "text/event-stream"@,
        rt,
    );
    lemma_prefix_lacks(
        n,
        input.auth_token@,
        opt_str_view(input.chatgpt_account_id),
        input.has_body,
        "text/event-stream"@,
        rt,
    );
    lemma_len_differs("x-client-request-id"@, n);
    let v1 = opt_trimmed(opt_str_view(input.incoming_client_request_id));
    lemma_push_opt_other_name(g0, "x-client-request-id"@, v1, n);
    let g1 = push_opt(g0, "x-client-request-id"@, v1);
    lemma_len_differs("x-openai-subagent"@, n);
    let v2 = opt_trimmed(opt_str_view(input.incoming_subagent));
    lemma_push_opt_other_name(g1, "x-openai-subagent"@, v2, n);
    let g2 = push_opt(g1, "x-openai-subagent"@, v2);
    lemma_len_differs("x-codex-beta-features"@, n);
    let v3 = opt_trimmed(opt_str_view(input.incoming_beta_features));
    lemma_push_opt_other_name(g2, "x-codex-beta-features"@, v3, n);
    let g3 = push_opt(g2, "x-codex-beta-features"@, v3);
    lemma_len_differs("x-codex-turn-metadata"@, n);
    let v4 = opt_trimmed(opt_str_view(input.incoming_turn_metadata));
    lemma_push_opt_other_name(g3, "x-codex-turn-metadata"@, v4, n);
    let g4 = push_opt(g3, "x-codex-turn-metadata"@, v4);
    lemma_len_differs("x-codex-parent-thread-id"@, n);
    let v5 = opt_trimmed(opt_str_view(input.incoming_parent_thread_id));
    lemma_push_opt_other_name(g4, "x-codex-parent-thread-id"@, v5, n);
    let g5 = push_opt(g4, "x-codex-parent-thread-id"@, v5);
    let session = session_id_spec(
        opt_str_view(input.incoming_session_id),
        opt_str_view(input.fallback_session_id),
        true,
    );
    lemma_len_differs("session_id"@, n);
    lemma_push_opt_other_name(g5, "session_id"@, session, n);
    let g6 = push_opt(g5, "session_id"@, session);
    lemma_len_differs("x-codex-window-id"@, n);
    let w = window_id_spec(opt_str_view(input.incoming_window_id), session, true);
    lemma_push_opt_other_name(g6, "x-codex-window-id"@, w, n);
}

/// Without a thread anchor (no incoming session id and no fallback, each
/// blank or absent), no `session_id` header is sent, unless a pass-through
/// header carries that name.
pub proof fn lemma_no_thread_anchor_sends_no_session_id(
    input: CodexUpstreamHeaderInput,
    rt: CodexRuntimeHeaders,
)
    requires
        opt_trimmed(opt_str_view(input.incoming_session_id)) is None,
        opt_trimmed(opt_str_view(input.fallback_session_id)) is None,
        forall|i: int|
            0 <= i < input.passthrough_codex_headers@.len() ==> !eq_ignore_case(
                #[trigger] input.passthrough_codex_headers@[i].0@,
                "session_id"@,
            ),
    ensures
        !has_header(codex_upstream_headers_spec(input, rt), "session_id"@),
{
    let n = "session_id"@;
    reveal_strlit("session_id");
    reveal_strlit("Authorization");
    reveal_strlit("ChatGPT-Account-ID");
    reveal_strlit("Content-Type");
    reveal_strlit("Accept");
    reveal_strlit("User-Agent");
    reveal_strlit("version");
    reveal_strlit("OpenAI-Organization");
    reveal_strlit("OpenAI-Project");
    reveal_strlit("originator");
    reveal_strlit("x-openai-internal-codex-residency");
    reveal_strlit("x-client-request-id");
    reveal_strlit("x-openai-subagent");
    reveal_strlit("x-codex-beta-features");
    reveal_strlit("x-codex-turn-metadata");
    reveal_strlit("x-codex-parent-thread-id");
    reveal_strlit("x-codex-window-id");
    reveal_strlit("x-codex-turn-state");
    lemma_len_differs("Authorization"@, n);
    lemma_len_differs("ChatGPT-Account-ID"@, n);
    lemma_len_differs("Content-Type"@, n);
    lemma_len_differs("Accept"@, n);
    assert(crate::text::lower("User-Agent"@)[0] != crate::text::lower(n)[0]);
    lemma_len_differs("version"@, n);
    lemma_len_differs("OpenAI-Organization"@, n);
    lemma_len_differs("OpenAI-Project"@, n);
    assert(crate::text::lower("originator"@)[0] != crate::text::lower(n)[0]);
    lemma_len_differs("x-openai-internal-codex-residency"@, n);
    let strip = input.strip_session_affinity;
    let g0 = common_prefix_spec(
        input.auth_token@,
        opt_str_view(input.chatgpt_account_id),
        input.has_body,
        "text/event-stream"@,
        rt,
    );
    lemma_prefix_lacks(
        n,
        input.auth_token@,
        opt_str_view(input.chatgpt_account_id),
        input.has_body,
        "text/event-stream"@,
        rt,
    );
    lemma_len_differs("x-client-request-id"@, n);
    let v1 = opt_trimmed(opt_str_view(input.incoming_client_request_id));
    lemma_push_opt_other_name(g0, "x-client-request-id"@, v1, n);
    let g1 = push_opt(g0, "x-client-request-id"@, v1);
    lemma_len_differs("x-openai-subagent"@, n);
    let v2 = opt_trimmed(opt_str_view(input.incoming_subagent));
    lemma_push_opt_other_name(g1, "x-openai-subagent"@, v2, n);
    let g2 = push_opt(g1, "x-openai-subagent"@, v2);
    lemma_len_differs("x-codex-beta-features"@, n);
    let v3 = opt_trimmed(opt_str_view(input.incoming_beta_features));
    lemma_push_opt_other_name(g2, "x-codex-beta-features"@, v3, n);
    let g3 = push_opt(g2, "x-codex-beta-features"@, v3);
    lemma_len_differs("x-codex-turn-metadata"@, n);
    let v4 = opt_trimmed(opt_str_view(input.incoming_turn_metadata));
    lemma_push_opt_other_name(g3, "x-codex-turn-metadata"@, v4, n);
    let g4 = push_opt(g3, "x-codex-turn-metadata"@, v4);
    lemma_len_differs("x-codex-parent-thread-id"@, n);
    let v5 = opt_trimmed(opt_str_view(input.incoming_parent_thread_id));
    lemma_push_opt_other_name(g4, "x-codex-parent-thread-id"@, v5, n);
    let g5 = push_opt(g4, "x-codex-parent-thread-id"@, v5);
    let session = session_id_spec(
        opt_str_view(input.incoming_session_id),
        opt_str_view(input.fallback_session_id),
        strip,
    );
    assert(session is None);
    let g6 = push_opt(g5, "session_id"@, session);
    lemma_len_differs("x-codex-window-id"@, n);
    let w = window_id_spec(opt_str_view(input.incoming_window_id), session, strip);
    lemma_push_opt_other_name(g6, "x-codex-window-id"@, w, n);
    let g7 = push_opt(g6, "x-codex-window-id"@, w);
    let items = headers_view(input.passthrough_codex_headers@);
    assert forall|i: int| 0 <= i < items.len() implies !eq_ignore_case(#[trigger] items[i].0, n) by {
        assert(items[i].0 == input.passthrough_codex_headers@[i].0@);
    }
    lemma_passthrough_adds_only_its_names(g7, items, n);
    let g8 = if strip {
        g7
    } else {
        passthrough_all(g7, items)
    };
    lemma_len_differs("x-codex-turn-state"@, n);
    lemma_push_opt_other_name(g8, "x-codex-turn-state"@, opt_str_view(input.incoming_turn_state), n);
}


/// Pass-through headers are only appended: the list they start from is kept
/// as it is, and each header added carries a trimmed, non-blank value and a
/// name that no header before it carries (ignoring case).
pub proof fn lemma_passthrough_only_appends(h: HeaderSeq, items: HeaderSeq)
    ensures
        passthrough_all(h, items).len() >= h.len(),
        passthrough_all(h, items).take(h.len() as int) == h,
        forall|i: int|
            h.len() <= i < passthrough_all(h, items).len() ==> {
                &&& !has_header(
                    passthrough_all(h, items).take(i),
                    (#[trigger] passthrough_all(h, items)[i]).0,
                )
                &&& passthrough_all(h, items)[i].1.len() > 0
                &&& trim(passthrough_all(h, items)[i].1) == passthrough_all(h, items)[i].1
            },
    decreases items.len(),
{
    if items.len() > 0 {
        lemma_passthrough_only_appends(h, items.drop_last());
        let prev = passthrough_all(h, items.drop_last());
        let item = items.last();
        if !(trim(item.1).len() == 0 || has_header(prev, item.0)) {
            let next = prev.push((item.0, trim(item.1)));
            crate::text::lemma_trim_idempotent(item.1);
            assert(next.take(h.len() as int) =~= prev.take(h.len() as int));
            assert forall|i: int| h.len() <= i < next.len() implies {
                &&& !has_header(next.take(i), (#[trigger] next[i]).0)
                &&& next[i].1.len() > 0
                &&& trim(next[i].1) == next[i].1
            } by {
                if i < prev.len() {
                    assert(next[i] == prev[i]);
                    assert(next.take(i) =~= prev.take(i));
                } else {
                    assert(next.take(i) =~= prev);
                }
            }
        }
    }
}

/// The turn state header that ends a `/responses` header list, where one is sent.
pub open spec fn turn_state_tail(input: CodexUpstreamHeaderInput) -> HeaderSeq {
    if !input.strip_session_affinity && input.include_turn_state {
        push_opt(Seq::empty(), "x-codex-turn-state"@, opt_str_view(input.incoming_turn_state))
    } else {
        Seq::empty()
    }
}

/// The two inputs differ at most in their pass-through headers.
pub open spec fn same_but_passthrough(a: CodexUpstreamHeaderInput, b: CodexUpstreamHeaderInput) -> bool {
    &&& a.auth_token == b.auth_token
    &&& a.chatgpt_account_id == b.chatgpt_account_id
    &&& a.incoming_session_id == b.incoming_session_id
    &&& a.incoming_window_id == b.incoming_window_id
    &&& a.incoming_client_request_id == b.incoming_client_request_id
    &&& a.incoming_subagent == b.incoming_subagent
    &&& a.incoming_beta_features == b.incoming_beta_features
    &&& a.incoming_turn_metadata == b.incoming_turn_metadata
    &&& a.incoming_parent_thread_id == b.incoming_parent_thread_id
    &&& a.fallback_session_id == b.fallback_session_id
    &&& a.incoming_turn_state == b.incoming_turn_state
    &&& a.include_turn_state == b.include_turn_state
    &&& a.strip_session_affinity == b.strip_session_affinity
    &&& a.has_body == b.has_body
}

/// Pass-through headers go between the headers the gateway sets itself and
/// the turn state header: the `/responses` list of a request is the list
/// without pass-through headers, split before its turn state header, with
/// the pass-through headers appended to the first part (which they never
/// override, see `lemma_passthrough_only_appends`); where session affinity is
/// stripped they are not sent at all.
pub proof fn lemma_passthrough_between_base_and_turn_state(
    input: CodexUpstreamHeaderInput,
    bare: CodexUpstreamHeaderInput,
    rt: CodexRuntimeHeaders,
)
    requires
        same_but_passthrough(input, bare),
        bare.passthrough_codex_headers@.len() == 0,
    ensures
        ({
            let r0 = codex_upstream_headers_spec(bare, rt);
            let t = turn_state_tail(input);
            let b = r0.take(r0.len() - t.len());
            &&& r0 == b + t
            &&& input.strip_session_affinity ==> codex_upstream_headers_spec(input, rt) == r0
            &&& !input.strip_session_affinity ==> codex_upstream_headers_spec(input, rt)
                == passthrough_all(b, headers_view(input.passthrough_codex_headers@)) + t
        }),
{
    let r0 = codex_upstream_headers_spec(bare, rt);
    let t = turn_state_tail(input);
    assert(headers_view(bare.passthrough_codex_headers@) =~= Seq::<(Seq<char>, Seq<char>)>::empty());
    let b = r0.take(r0.len() - t.len());
    assert(r0 =~= b + t);
    let h7 = upstream_base_headers_spec(input, rt);
    assert(upstream_base_headers_spec(bare, rt) == h7);
    assert(b =~= h7);
    let items = headers_view(input.passthrough_codex_headers@);
    if !input.strip_session_affinity {
        let p = passthrough_all(b, items);
        assert(codex_upstream_headers_spec(input, rt) =~= p + t);
    }
}


/// Replacing the value of a header already in the list commutes with
/// appending one more.
proof fn lemma_push_opt_update(
    x: HeaderSeq,
    k: int,
    y: (Seq<char>, Seq<char>),
    name: Seq<char>,
    v: Option<Seq<char>>,
)
    requires
        0 <= k < x.len(),
    ensures
        push_opt(x.update(k, y), name, v) == push_opt(x, name, v).update(k, y),
{
    if let Some(val) = v {
        assert(x.update(k, y).push((name, val)) =~= x.push((name, val)).update(k, y));
    }
}

/// Pass-through headers are judged by names only, so replacing the value of
/// a header already in the list commutes with them.
proof fn lemma_passthrough_update(x: HeaderSeq, k: int, y: (Seq<char>, Seq<char>), items: HeaderSeq)
    requires
        0 <= k < x.len(),
        y.0 == x[k].0,
    ensures
        passthrough_all(x.update(k, y), items) == passthrough_all(x, items).update(k, y),
        passthrough_all(x, items).len() >= x.len(),
    decreases items.len(),
{
    if items.len() > 0 {
        lemma_passthrough_update(x, k, y, items.drop_last());
        lemma_passthrough_only_appends(x, items.drop_last());
        let prev = passthrough_all(x, items.drop_last());
        assert(prev[k] == prev.take(x.len() as int)[k]);
        let prev_u = prev.update(k, y);
        let item = items.last();
        assert(has_header(prev_u, item.0) == has_header(prev, item.0)) by {
            if has_header(prev_u, item.0) {
                let j = choose|j: int| 0 <= j < prev_u.len() && eq_ignore_case(#[trigger] prev_u[j].0, item.0);
                assert(prev[j].0 == prev_u[j].0);
            }
            if has_header(prev, item.0) {
                let j = choose|j: int| 0 <= j < prev.len() && eq_ignore_case(#[trigger] prev[j].0, item.0);
                assert(prev[j].0 == prev_u[j].0);
            }
        }
        if !(trim(item.1).len() == 0 || has_header(prev, item.0)) {
            assert(prev_u.push((item.0, trim(item.1))) =~= prev.push((item.0, trim(item.1))).update(k, y));
        }
    }
}

/// Where the `Accept` header stands in both header lists: after the
/// authorization, the account id where one is sent, and the content type
/// where there is a body.
pub open spec fn accept_pos(chatgpt_account_id: Option<Seq<char>>, has_body: bool) -> int {
    1 + (if opt_trimmed(chatgpt_account_id) is Some {
        1int
    } else {
        0int
    }) + (if has_body {
        1int
    } else {
        0int
    })
}

/// A `/responses` request that carries what a `/responses/compact` request
/// carries, and nothing that only `/responses` sends.
pub open spec fn stream_input_of_compact(c: CodexCompactUpstreamHeaderInput, f: CodexUpstreamHeaderInput) -> bool {
    &&& f.auth_token == c.auth_token
    &&& f.chatgpt_account_id == c.chatgpt_account_id
    &&& f.incoming_session_id == c.incoming_session_id
    &&& f.incoming_window_id == c.incoming_window_id
    &&& f.incoming_subagent == c.incoming_subagent
    &&& f.incoming_parent_thread_id == c.incoming_parent_thread_id
    &&& f.passthrough_codex_headers@ == c.passthrough_codex_headers@
    &&& f.fallback_session_id == c.fallback_session_id
    &&& f.strip_session_affinity == c.strip_session_affinity
    &&& f.has_body == c.has_body
    &&& f.incoming_client_request_id is None
    &&& f.incoming_beta_features is None
    &&& f.incoming_turn_metadata is None
    &&& !f.include_turn_state
}

/// The `/responses/compact` header list is the `/responses` list of the same
/// request (without the headers only `/responses` sends), with `Accept` asking
/// for `application/json` in place of `text/event-stream`: the same names in
/// the same order, and every other value the same.
pub proof fn lemma_compact_headers_are_stream_headers_with_json_accept(
    c: CodexCompactUpstreamHeaderInput,
    f: CodexUpstreamHeaderInput,
    rt: CodexRuntimeHeaders,
)
    requires
        stream_input_of_compact(c, f),
    ensures
        ({
            let s = codex_upstream_headers_spec(f, rt);
            let k = accept_pos(opt_str_view(c.chatgpt_account_id), c.has_body);
            &&& 0 <= k < s.len()
            &&& s[k] == ("Accept"@, "text/event-stream"@)
            &&& codex_compact_upstream_headers_spec(c, rt) == s.update(
                k,
                ("Accept"@, "application/json"@),
            )
        }),
{
    let y = ("Accept"@, "application/json"@);
    let account = opt_trimmed(opt_str_view(c.chatgpt_account_id));
    let h0 = seq![("Authorization"@, "Bearer "@ + c.auth_token@)];
    let h1 = push_opt(h0, "ChatGPT-Account-ID"@, account);
    let h2 = if c.has_body {
        h1.push(("Content-Type"@, "application/json"@))
    } else {
        h1
    };
    let k = h2.len() as int;
    assert(k == accept_pos(opt_str_view(c.chatgpt_account_id), c.has_body));
    let a_s = h2.push(("Accept"@, "text/event-stream"@)).push(("User-Agent"@, rt.user_agent@)).push(
        ("version"@, rt.user_agent_version@),
    );
    let a_c = h2.push(y).push(("User-Agent"@, rt.user_agent@)).push(
        ("version"@, rt.user_agent_version@),
    );
    assert(a_c =~= a_s.update(k, y));
    let org = opt_trimmed(opt_string_view(rt.organization));
    let proj = opt_trimmed(opt_string_view(rt.project));
    let b_s = push_opt(a_s, "OpenAI-Organization"@, org);
    lemma_push_opt_update(a_s, k, y, "OpenAI-Organization"@, org);
    let c_s = push_opt(b_s, "OpenAI-Project"@, proj);
    lemma_push_opt_update(b_s, k, y, "OpenAI-Project"@, proj);
    let d_s = c_s.push(("originator"@, rt.originator@));
    lemma_push_opt_update(c_s, k, y, "originator"@, Some(rt.originator@));
    let res = opt_string_view(rt.residency_requirement);
    let p_s = push_opt(d_s, "x-openai-internal-codex-residency"@, res);
    lemma_push_opt_update(d_s, k, y, "x-openai-internal-codex-residency"@, res);
    let strip = c.strip_session_affinity;
    assert(p_s == common_prefix_spec(
        c.auth_token@,
        opt_str_view(c.chatgpt_account_id),
        c.has_body,
        "text/event-stream"@,
        rt,
    ));
    assert(p_s.update(k, y) == common_prefix_spec(
        c.auth_token@,
        opt_str_view(c.chatgpt_account_id),
        c.has_body,
        "application/json"@,
        rt,
    ));
    assert(p_s[k] == ("Accept"@, "text/event-stream"@));
    let sub = opt_trimmed(opt_str_view(c.incoming_subagent));
    let parent = opt_trimmed(opt_str_view(c.incoming_parent_thread_id));
    let session = session_id_spec(
        opt_str_view(c.incoming_session_id),
        opt_str_view(c.fallback_session_id),
        strip,
    );
    let window = window_id_spec(opt_str_view(c.incoming_window_id), session, strip);
    let q1 = push_opt(p_s, "x-openai-subagent"@, sub);
    lemma_push_opt_update(p_s, k, y, "x-openai-subagent"@, sub);
    let q2 = push_opt(q1, "x-codex-parent-thread-id"@, parent);
    lemma_push_opt_update(q1, k, y, "x-codex-parent-thread-id"@, parent);
    let q3 = push_opt(q2, "session_id"@, session);
    lemma_push_opt_update(q2, k, y, "session_id"@, session);
    let q4 = push_opt(q3, "x-codex-window-id"@, window);
    lemma_push_opt_update(q3, k, y, "x-codex-window-id"@, window);
    assert(upstream_base_headers_spec(f, rt) == q4);
    assert(q4[k] == p_s[k]);
    let items = headers_view(c.passthrough_codex_headers@);
    assert(headers_view(f.passthrough_codex_headers@) == items);
    let r_s = codex_upstream_headers_spec(f, rt);
    let r_c = codex_compact_upstream_headers_spec(c, rt);
    if !strip {
        lemma_passthrough_update(q4, k, y, items);
        lemma_passthrough_only_appends(q4, items);
        let pa = passthrough_all(q4, items);
        assert(pa[k] == pa.take(q4.len() as int)[k]);
        assert(r_s == pa);
        assert(r_c == passthrough_all(q4.update(k, y), items));
    } else {
        assert(r_s == q4);
        assert(r_c == q4.update(k, y));
    }
}


/// Where the incoming turn metadata trims to a text that is not blank, the
/// `/responses` request carries it, trimmed, as `x-codex-turn-metadata`.
pub proof fn lemma_turn_metadata_is_sent(input: CodexUpstreamHeaderInput, rt: CodexRuntimeHeaders)
    ensures
        opt_trimmed(opt_str_view(input.incoming_turn_metadata)) matches Some(t) ==> exists|k: int|
            0 <= k < codex_upstream_headers_spec(input, rt).len() && codex_upstream_headers_spec(
                input,
                rt,
            )[k] == ("x-codex-turn-metadata"@, t),
{
    if let Some(t) = opt_trimmed(opt_str_view(input.incoming_turn_metadata)) {
        let h0 = common_prefix_spec(
            input.auth_token@,
            opt_str_view(input.chatgpt_account_id),
            input.has_body,
            "text/event-stream"@,
            rt,
        );
        let h1 = push_opt(
            h0,
            "x-client-request-id"@,
            opt_trimmed(opt_str_view(input.incoming_client_request_id)),
        );
        let h2 = push_opt(h1, "x-openai-subagent"@, opt_trimmed(opt_str_view(input.incoming_subagent)));
        let h3 = push_opt(
            h2,
            "x-codex-beta-features"@,
            opt_trimmed(opt_str_view(input.incoming_beta_features)),
        );
        let h4 = h3.push(("x-codex-turn-metadata"@, t));
        let k = h3.len() as int;
        let base = upstream_base_headers_spec(input, rt);
        assert(base.len() > k && base[k] == h4[k]);
        let items = headers_view(input.passthrough_codex_headers@);
        lemma_passthrough_only_appends(base, items);
        let pa = passthrough_all(base, items);
        assert(pa[k] == pa.take(base.len() as int)[k]);
        let r = codex_upstream_headers_spec(input, rt);
        let h8 = if input.strip_session_affinity {
            base
        } else {
            pa
        };
        assert(h8[k] == base[k]);
        assert(r.len() >= h8.len());
        assert(r[k] == h8[k]);
    }
}


/// A header present stays present when more headers are appended.
pub(crate) proof fn lemma_contains_after_push_opt(h: HeaderSeq, x: (Seq<char>, Seq<char>), name: Seq<char>, v: Option<Seq<char>>)
    requires
        h.contains(x),
    ensures
        push_opt(h, name, v).contains(x),
{
    let j = choose|j: int| 0 <= j < h.len() && h[j] == x;
    if let Some(val) = v {
        assert(h.push((name, val))[j] == x);
    }
}

/// A header present stays present when pass-through headers are added.
proof fn lemma_contains_after_passthrough(h: HeaderSeq, x: (Seq<char>, Seq<char>), items: HeaderSeq)
    requires
        h.contains(x),
    ensures
        passthrough_all(h, items).contains(x),
{
    let j = choose|j: int| 0 <= j < h.len() && h[j] == x;
    lemma_passthrough_only_appends(h, items);
    let p = passthrough_all(h, items);
    assert(p[j] == p.take(h.len() as int)[j]);
}

/// A header appended where a value is present is in the list.
pub(crate) proof fn lemma_push_opt_contains(h: HeaderSeq, name: Seq<char>, v: Option<Seq<char>>)
    ensures
        v matches Some(val) ==> push_opt(h, name, v).contains((name, val)),
{
    if let Some(val) = v {
        assert(h.push((name, val))[h.len() as int] == (name, val));
    }
}

/// Every client header that a `/responses` request brings is passed on,
/// trimmed, where it is not blank: the client request id, subagent, beta
/// features, turn metadata and parent thread id; the session id of the
/// thread anchor where affinity is kept; and the turn state where it is
/// asked for and affinity is kept.
pub proof fn lemma_client_headers_are_sent(input: CodexUpstreamHeaderInput, rt: CodexRuntimeHeaders)
    ensures
        ({
            let r = codex_upstream_headers_spec(input, rt);
            &&& opt_trimmed(opt_str_view(input.incoming_client_request_id)) matches Some(t)
                ==> r.contains(("x-client-request-id"@, t))
            &&& opt_trimmed(opt_str_view(input.incoming_subagent)) matches Some(t) ==> r.contains(
                ("x-openai-subagent"@, t),
            )
            &&& opt_trimmed(opt_str_view(input.incoming_beta_features)) matches Some(t)
                ==> r.contains(("x-codex-beta-features"@, t))
            &&& opt_trimmed(opt_str_view(input.incoming_turn_metadata)) matches Some(t)
                ==> r.contains(("x-codex-turn-metadata"@, t))
            &&& opt_trimmed(opt_str_view(input.incoming_parent_thread_id)) matches Some(t)
                ==> r.contains(("x-codex-parent-thread-id"@, t))
            &&& !input.strip_session_affinity ==> (opt_trimmed(
                opt_str_view(input.incoming_session_id),
            ) matches Some(t) ==> r.contains(("session_id"@, t)))
            &&& !input.strip_session_affinity && input.include_turn_state ==> (
            input.incoming_turn_state matches Some(t) ==> r.contains(("x-codex-turn-state"@, t@)))
        }),
{
    let strip = input.strip_session_affinity;
    let h0 = common_prefix_spec(
        input.auth_token@,
        opt_str_view(input.chatgpt_account_id),
        input.has_body,
        "text/event-stream"@,
        rt,
    );
    let v1 = opt_trimmed(opt_str_view(input.incoming_client_request_id));
    let v2 = opt_trimmed(opt_str_view(input.incoming_subagent));
    let v3 = opt_trimmed(opt_str_view(input.incoming_beta_features));
    let v4 = opt_trimmed(opt_str_view(input.incoming_turn_metadata));
    let v5 = opt_trimmed(opt_str_view(input.incoming_parent_thread_id));
    let session = session_id_spec(
        opt_str_view(input.incoming_session_id),
        opt_str_view(input.fallback_session_id),
        strip,
    );
    let window = window_id_spec(opt_str_view(input.incoming_window_id), session, strip);
    let h1 = push_opt(h0, "x-client-request-id"@, v1);
    let h2 = push_opt(h1, "x-openai-subagent"@, v2);
    let h3 = push_opt(h2, "x-codex-beta-features"@, v3);
    let h4 = push_opt(h3, "x-codex-turn-metadata"@, v4);
    let h5 = push_opt(h4, "x-codex-parent-thread-id"@, v5);
    let h6 = push_opt(h5, "session_id"@, session);
    let h7 = push_opt(h6, "x-codex-window-id"@, window);
    assert(h7 == upstream_base_headers_spec(input, rt));
    let items = headers_view(input.passthrough_codex_headers@);
    let h8 = if strip {
        h7
    } else {
        passthrough_all(h7, items)
    };
    let ts = opt_str_view(input.incoming_turn_state);
    let r = codex_upstream_headers_spec(input, rt);
    assert(r == if !strip && input.include_turn_state {
        push_opt(h8, "x-codex-turn-state"@, ts)
    } else {
        h8
    });
    // Carries one header present in `h7` to the final list.
    assert forall|x: (Seq<char>, Seq<char>)| h7.contains(x) implies r.contains(x) by {
        if !strip {
            lemma_contains_after_passthrough(h7, x, items);
        }
        if !strip && input.include_turn_state {
            lemma_contains_after_push_opt(h8, x, "x-codex-turn-state"@, ts);
        }
    }
    lemma_push_opt_contains(h0, "x-client-request-id"@, v1);
    if let Some(t) = v1 {
        let x = ("x-client-request-id"@, t);
        lemma_contains_after_push_opt(h1, x, "x-openai-subagent"@, v2);
        lemma_contains_after_push_opt(h2, x, "x-codex-beta-features"@, v3);
        lemma_contains_after_push_opt(h3, x, "x-codex-turn-metadata"@, v4);
        lemma_contains_after_push_opt(h4, x, "x-codex-parent-thread-id"@, v5);
        lemma_contains_after_push_opt(h5, x, "session_id"@, session);
        lemma_contains_after_push_opt(h6, x, "x-codex-window-id"@, window);
    }
    lemma_push_opt_contains(h1, "x-openai-subagent"@, v2);
    if let Some(t) = v2 {
        let x = ("x-openai-subagent"@, t);
        lemma_contains_after_push_opt(h2, x, "x-codex-beta-features"@, v3);
        lemma_contains_after_push_opt(h3, x, "x-codex-turn-metadata"@, v4);
        lemma_contains_after_push_opt(h4, x, "x-codex-parent-thread-id"@, v5);
        lemma_contains_after_push_opt(h5, x, "session_id"@, session);
        lemma_contains_after_push_opt(h6, x, "x-codex-window-id"@, window);
    }
    lemma_push_opt_contains(h2, "x-codex-beta-features"@, v3);
    if let Some(t) = v3 {
        let x = ("x-codex-beta-features"@, t);
        lemma_contains_after_push_opt(h3, x, "x-codex-turn-metadata"@, v4);
        lemma_contains_after_push_opt(h4, x, "x-codex-parent-thread-id"@, v5);
        lemma_contains_after_push_opt(h5, x, "session_id"@, session);
        lemma_contains_after_push_opt(h6, x, "x-codex-window-id"@, window);
    }
    lemma_push_opt_contains(h3, "x-codex-turn-metadata"@, v4);
    if let Some(t) = v4 {
        let x = ("x-codex-turn-metadata"@, t);
        lemma_contains_after_push_opt(h4, x, "x-codex-parent-thread-id"@, v5);
        lemma_contains_after_push_opt(h5, x, "session_id"@, session);
        lemma_contains_after_push_opt(h6, x, "x-codex-window-id"@, window);
    }
    lemma_push_opt_contains(h4, "x-codex-parent-thread-id"@, v5);
    if let Some(t) = v5 {
        let x = ("x-codex-parent-thread-id"@, t);
        lemma_contains_after_push_opt(h5, x, "session_id"@, session);
        lemma_contains_after_push_opt(h6, x, "x-codex-window-id"@, window);
    }
    lemma_push_opt_contains(h5, "session_id"@, session);
    if let Some(t) = session {
        let x = ("session_id"@, t);
        lemma_contains_after_push_opt(h6, x, "x-codex-window-id"@, window);
    }
    lemma_push_opt_contains(h8, "x-codex-turn-state"@, ts);
}

} // verus!
