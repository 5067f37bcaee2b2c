//! The rewrites that the gateway applies to a `/v1/responses` request body
//! before it is sent to the Codex backend.
use crate::json::{
    as_bool_spec, get_value, has_key, insert_spec, is_str, key_pos, keys_distinct, members_of, remove_spec,
    JsonMap, JsonValue, Members,
};
use crate::text::{chars_of, opt_str_view, str_eq};
use vstd::prelude::*;
use vstd::string::*;

verus! {

broadcast use vstd::string::group_string_axioms;

/// The request path that the rewrites apply to.
pub const RESPONSES_PATH: &'static str = "/v1/responses";

/// The part of a path before its query string.
pub open spec fn path_without_query(s: Seq<char>) -> Seq<char>
    decreases s.len(),
{
    if s.len() == 0 {
        s
    } else if s[0] == '?' {
        Seq::<char>::empty()
    } else {
        seq![s[0]] + path_without_query(s.drop_first())
    }
}

/// Whether a request path, without its query string, is `/v1/responses`.
pub open spec fn is_responses_path_spec(path: Seq<char>) -> bool {
    path_without_query(path) == RESPONSES_PATH@
}

proof fn lemma_path_without_query_prefix(s: Seq<char>, i: int)
    requires
        0 <= i <= s.len(),
        forall|j: int| 0 <= j < i ==> #[trigger] s[j] != '?',
        i == s.len() || s[i] == '?',
    ensures
        path_without_query(s) == s.take(i),
    decreases i,
{
    if i == 0 {
        assert(s.take(0) =~= Seq::<char>::empty());
        if s.len() == 0 {
            assert(s =~= Seq::<char>::empty());
        }
    } else {
        lemma_path_without_query_prefix(s.drop_first(), i - 1);
        assert(s.take(i) =~= seq![s[0]] + s.drop_first().take(i - 1));
    }
}

/// Whether the request path is `/v1/responses` (a query string aside).
pub fn is_responses_path(path: &str) -> (r: bool)
    ensures
        r == is_responses_path_spec(path@),
{
    let v = chars_of(path);
    let mut i: usize = 0;
    while i < v.len() && v[i] != '?'
        invariant
            i <= v@.len(),
            v@ == path@,
            forall|j: int| 0 <= j < i ==> #[trigger] v@[j] != '?',
        decreases v@.len() - i,
    {
        i = i + 1;
    }
    proof {
        lemma_path_without_query_prefix(path@, i as int);
        assert(path@.subrange(0, i as int) =~= path@.take(i as int));
    }
    str_eq(path.substring_char(0, i), RESPONSES_PATH)
}

/// Adds an empty `instructions` member to a `/v1/responses` body that has
/// none; says whether it did.
pub fn ensure_instructions(path: &str, obj: &mut JsonMap) -> (changed: bool)
    requires
        keys_distinct(old(obj)@),
    ensures
        changed == (is_responses_path_spec(path@) && !has_key(old(obj)@, "instructions"@)),
        changed ==> final(obj)@.len() == old(obj)@.len() + 1 && final(obj)@.drop_last()
            == old(obj)@ && final(obj)@.last().0 == "instructions"@ && is_str(
            final(obj)@.last().1,
            Seq::<char>::empty(),
        ),
        !changed ==> final(obj)@ == old(obj)@,
        keys_distinct(final(obj)@),
{
    if !is_responses_path(path) {
        return false;
    }
    if obj.contains_key("instructions") {
        return false;
    }
    obj.insert("instructions".to_string(), JsonValue::Str(String::new()));
    assert(final(obj)@.drop_last() =~= old(obj)@) by {
        assert(obj@ == old(obj)@.push(("instructions"@, obj@.last().1)));
    }
    true
}

/// The value is the one-message input list holding `text` as the user's
/// input text: `[{"type": "message", "role": "user", "content":
/// [{"type": "input_text", "text": text}]}]`.
pub open spec fn is_user_text_input(v: JsonValue, text: Seq<char>) -> bool {
    &&& v matches JsonValue::Array(items) && items@.len() == 1
    &&& v->Array_0@[0] matches JsonValue::Object(message) && message@.len() == 3
    &&& ({
        let message = v->Array_0@[0]->Object_0@;
        &&& message[0].0 == "type"@ && is_str(message[0].1, "message"@)
        &&& message[1].0 == "role"@ && is_str(message[1].1, "user"@)
        &&& message[2].0 == "content"@
        &&& message[2].1 matches JsonValue::Array(content) && content@.len() == 1
        &&& message[2].1->Array_0@[0] matches JsonValue::Object(part) && part@.len() == 2
        &&& ({
            let part = message[2].1->Array_0@[0]->Object_0@;
            &&& part[0].0 == "type"@ && is_str(part[0].1, "input_text"@)
            &&& part[1].0 == "text"@ && is_str(part[1].1, text)
        })
    })
}

/// The input list that stands for a text input.
fn user_text_input(text: String) -> (r: JsonValue)
    ensures
        is_user_text_input(r, text@),
{
    proof {
        reveal_strlit("type");
        reveal_strlit("text");
        reveal_strlit("role");
        reveal_strlit("content");
    }
    let mut content_part = JsonMap::new();
    let type_part = JsonValue::Str("input_text".to_string());
    content_part.insert("type".to_string(), type_part);
    assert(content_part@ == seq![("type"@, type_part)]);
    let text_part = JsonValue::Str(text);
    assert(!has_key(content_part@, "text"@)) by {
        assert("type"@[1] != "text"@[1]);
        assert(content_part@[0].0 != "text"@);
    }
    content_part.insert("text".to_string(), text_part);
    assert(content_part@ == seq![("type"@, type_part), ("text"@, text_part)]);
    let mut message_item = JsonMap::new();
    let type_message = JsonValue::Str("message".to_string());
    message_item.insert("type".to_string(), type_message);
    assert(message_item@ == seq![("type"@, type_message)]);
    let role = JsonValue::Str("user".to_string());
    assert(!has_key(message_item@, "role"@)) by {
        assert("type"@[0] != "role"@[0]);
        assert(message_item@[0].0 != "role"@);
    }
    message_item.insert("role".to_string(), role);
    assert(message_item@ == seq![("type"@, type_message), ("role"@, role)]);
    let mut content: Vec<JsonValue> = Vec::new();
    content.push(JsonValue::Object(content_part));
    let content_value = JsonValue::Array(content);
    assert(!has_key(message_item@, "content"@)) by {
        assert("type"@.len() != "content"@.len());
        assert("role"@.len() != "content"@.len());
        assert(message_item@[0].0 != "content"@);
        assert(message_item@[1].0 != "content"@);
    }
    message_item.insert("content".to_string(), content_value);
    assert(message_item@ == seq![("type"@, type_message), ("role"@, role), ("content"@, content_value)]);
    let mut items: Vec<JsonValue> = Vec::new();
    items.push(JsonValue::Object(message_item));
    JsonValue::Array(items)
}

/// Turns the `input` of a `/v1/responses` body into a list: a text becomes
/// one user message holding it, an object becomes a list of that object;
/// says whether it changed anything.
pub fn ensure_input_list(path: &str, obj: &mut JsonMap) -> (changed: bool)
    requires
        keys_distinct(old(obj)@),
    ensures
        keys_distinct(final(obj)@),
        changed == (is_responses_path_spec(path@) && has_key(old(obj)@, "input"@) && (old(
            obj,
        )@[key_pos(old(obj)@, "input"@)].1 is Str || old(obj)@[key_pos(
            old(obj)@,
            "input"@,
        )].1 is Object)),
        !changed ==> final(obj)@ == old(obj)@,
        changed ==> ({
            let p = key_pos(old(obj)@, "input"@);
            let before = old(obj)@[p].1;
            let after = final(obj)@[p].1;
            &&& final(obj)@ == old(obj)@.update(p, ("input"@, after))
            &&& before matches JsonValue::Str(t) ==> is_user_text_input(after, t@)
            &&& before is Object ==> (after matches JsonValue::Array(items) && items@ == seq![
                before,
            ])
        }),
{
    if !is_responses_path(path) {
        return false;
    }
    let Some(i) = obj.find("input") else {
        return false;
    };
    let ghost before_map = obj@;
    let (key, value) = obj.take_at(i);
    proof {
        assert(!has_key(obj@, key@)) by {
            if has_key(obj@, key@) {
                let q = choose|q: int| 0 <= q < obj@.len() && #[trigger] obj@[q].0 == key@;
                if q < i {
                    assert(before_map[q].0 == before_map[i as int].0);
                } else {
                    assert(before_map[q + 1].0 == before_map[i as int].0);
                }
            }
        }
    }
    let ghost removed = obj@;
    let (new_value, changed) = match value {
        JsonValue::Str(text) => (user_text_input(text), true),
        JsonValue::Object(m) => {
            let mut items: Vec<JsonValue> = Vec::new();
            items.push(JsonValue::Object(m));
            (JsonValue::Array(items), true)
        },
        other => (other, false),
    };
    let ghost k = key@;
    obj.put_at(i, key, new_value);
    assert(obj@ =~= before_map.update(i as int, (k, new_value)));
    proof {
        if !changed {
            assert(before_map.update(i as int, (k, new_value)) =~= before_map);
        }
    }
    changed
}

/// Sets `stream` of a `/v1/responses` body to `true`; says whether it was
/// not already `true`.
pub fn ensure_stream_true(path: &str, obj: &mut JsonMap) -> (changed: bool)
    requires
        keys_distinct(old(obj)@),
    ensures
        keys_distinct(final(obj)@),
        changed == (is_responses_path_spec(path@) && !(get_value(old(obj)@, "stream"@) matches Some(
            v,
        ) && as_bool_spec(v) == Some(true))),
        changed ==> final(obj)@ == insert_spec(old(obj)@, "stream"@, JsonValue::Bool(true)),
        !changed ==> final(obj)@ == old(obj)@,
{
    if !is_responses_path(path) {
        return false;
    }
    if let Some(v) = obj.get("stream") {
        if v.as_bool() == Some(true) {
            return false;
        }
    }
    obj.insert("stream".to_string(), JsonValue::Bool(true));
    true
}

/// Removes the `stream_passthrough` member of a `/v1/responses` body and
/// says whether it was `true`.
pub fn take_stream_passthrough_flag(path: &str, obj: &mut JsonMap) -> (flag: bool)
    requires
        keys_distinct(old(obj)@),
    ensures
        keys_distinct(final(obj)@),
        is_responses_path_spec(path@) ==> final(obj)@ == remove_spec(
            old(obj)@,
            "stream_passthrough"@,
        ) && flag == (get_value(old(obj)@, "stream_passthrough"@) == Some(JsonValue::Bool(true))),
        !is_responses_path_spec(path@) ==> final(obj)@ == old(obj)@ && !flag,
{
    if !is_responses_path(path) {
        return false;
    }
    match obj.remove("stream_passthrough") {
        Some(value) => match value.as_bool() {
            Some(b) => b,
            None => false,
        },
        None => false,
    }
}

/// Sets `store` of a `/v1/responses` body to `false` (adding it where it is
/// absent); says whether a present value other than `false` was replaced.
pub fn ensure_store_false(path: &str, obj: &mut JsonMap) -> (changed: bool)
    requires
        keys_distinct(old(obj)@),
    ensures
        keys_distinct(final(obj)@),
        changed == (is_responses_path_spec(path@) && (get_value(old(obj)@, "store"@) matches Some(
            v,
        ) && as_bool_spec(v) != Some(false))),
        is_responses_path_spec(path@) ==> final(obj)@ == insert_spec(
            old(obj)@,
            "store"@,
            JsonValue::Bool(false),
        ),
        !is_responses_path_spec(path@) ==> final(obj)@ == old(obj)@,
{
    if !is_responses_path(path) {
        return false;
    }
    let mut changed = true;
    if let Some(i) = obj.find("store") {
        if obj.entries[i].1.as_bool() == Some(false) {
            changed = false;
        }
    } else {
        changed = false;
    }
    proof {
        if !changed && has_key(obj@, "store"@) {
            let p = key_pos(obj@, "store"@);
            assert(obj@[p].1 == JsonValue::Bool(false));
            assert(obj@.update(p, ("store"@, JsonValue::Bool(false))) =~= obj@);
        }
    }
    obj.insert("store".to_string(), JsonValue::Bool(false));
    changed
}

/// The object that a reasoning override starts from: the present
/// `reasoning` object, or an empty one where it is absent or not an object.
pub open spec fn reasoning_base(m: Members) -> Members {
    match get_value(m, "reasoning"@) {
        Some(JsonValue::Object(r)) => r@,
        _ => Seq::<(Seq<char>, JsonValue)>::empty(),
    }
}

/// Sets `reasoning.effort` of a `/v1/responses` body to the given level
/// (making `reasoning` an object where it is absent or is not one); says
/// whether a level was given and set.
pub fn apply_reasoning_override(
    path: &str,
    obj: &mut JsonMap,
    reasoning_effort: Option<&str>,
) -> (changed: bool)
    requires
        keys_distinct(old(obj)@),
        get_value(old(obj)@, "reasoning"@) matches Some(JsonValue::Object(r)) ==> keys_distinct(
            r@,
        ),
    ensures
        keys_distinct(final(obj)@),
        changed == (is_responses_path_spec(path@) && reasoning_effort is Some),
        !changed ==> final(obj)@ == old(obj)@,
        changed ==> ({
            let reasoning = get_value(final(obj)@, "reasoning"@)->0;
            &&& has_key(final(obj)@, "reasoning"@)
            &&& final(obj)@ == insert_spec(old(obj)@, "reasoning"@, reasoning)
            &&& reasoning matches JsonValue::Object(r) && ({
                let effort = get_value(r@, "effort"@)->0;
                &&& has_key(r@, "effort"@)
                &&& is_str(effort, reasoning_effort->0@)
                &&& r@ == insert_spec(reasoning_base(old(obj)@), "effort"@, effort)
            })
        }),
{
    if !is_responses_path(path) {
        return false;
    }
    let Some(level) = reasoning_effort else {
        return false;
    };
    match obj.find("reasoning") {
        Some(i) => {
            let ghost before_map = obj@;
            let (key, value) = obj.take_at(i);
            proof {
                lemma_removed_key_absent(before_map, i as int);
            }
            let mut reasoning = match value {
                JsonValue::Object(m) => m,
                _ => JsonMap::new(),
            };
            let ghost base = reasoning@;
            let effort = JsonValue::Str(level.to_string());
            reasoning.insert("effort".to_string(), effort);
            proof {
                lemma_insert_get(base, "effort"@, effort, reasoning@);
                assert(get_value(before_map, "reasoning"@) == Some(value));
            }
            let ghost k = key@;
            let new_reasoning = JsonValue::Object(reasoning);
            obj.put_at(i, key, new_reasoning);
            assert(obj@ =~= before_map.update(i as int, (k, new_reasoning)));
            assert(obj@ == insert_spec(before_map, "reasoning"@, new_reasoning));
            proof {
                lemma_insert_get(before_map, "reasoning"@, new_reasoning, obj@);
            }
        },
        None => {
            let mut reasoning = JsonMap::new();
            let ghost base = reasoning@;
            let effort = JsonValue::Str(level.to_string());
            reasoning.insert("effort".to_string(), effort);
            proof {
                lemma_insert_get(base, "effort"@, effort, reasoning@);
            }
            let ghost before_map = obj@;
            let new_reasoning = JsonValue::Object(reasoning);
            obj.insert("reasoning".to_string(), new_reasoning);
            proof {
                lemma_insert_get(before_map, "reasoning"@, new_reasoning, obj@);
            }
        },
    }
    true
}

/// After an insert of key `k`, the key is present and its value is the
/// inserted one.
proof fn lemma_insert_get(m: Members, k: Seq<char>, v: JsonValue, after: Members)
    requires
        keys_distinct(m),
        keys_distinct(after),
        after == insert_spec(m, k, v),
    ensures
        has_key(after, k),
        get_value(after, k) == Some(v),
{
    if has_key(m, k) {
        crate::json::lemma_has_key_first(m, k);
    }
    let p = if has_key(m, k) {
        key_pos(m, k)
    } else {
        m.len() as int
    };
    assert(after[p].0 == k);
    crate::json::lemma_distinct_pos(after, k, p);
}

/// Once the member at `i` is taken out, its key is absent.
proof fn lemma_removed_key_absent(m: Members, i: int)
    requires
        keys_distinct(m),
        0 <= i < m.len(),
    ensures
        !has_key(m.remove(i), m[i].0),
{
    let r = m.remove(i);
    if has_key(r, m[i].0) {
        let q = choose|q: int| 0 <= q < r.len() && #[trigger] r[q].0 == m[i].0;
        if q < i {
            assert(m[q].0 == m[i].0);
        } else {
            assert(m[q + 1].0 == m[i].0);
        }
    }
}

/// Whether a key is one that the official `/v1/responses` API accepts.
pub open spec fn is_official_key(k: Seq<char>) -> bool {
    ||| k == "include"@
    ||| k == "input"@
    ||| k == "instructions"@
    ||| k == "max_output_tokens"@
    ||| k == "metadata"@
    ||| k == "model"@
    ||| k == "parallel_tool_calls"@
    ||| k == "previous_response_id"@
    ||| k == "reasoning"@
    ||| k == "service_tier"@
    ||| k == "store"@
    ||| k == "stream"@
    ||| k == "temperature"@
    ||| k == "text"@
    ||| k == "tool_choice"@
    ||| k == "tools"@
    ||| k == "top_p"@
    ||| k == "truncation"@
    ||| k == "user"@
    ||| k == "stream_passthrough"@
}

/// Whether a key is one that the Codex backend's `/responses` accepts.
pub open spec fn is_codex_key(k: Seq<char>) -> bool {
    ||| k == "model"@
    ||| k == "instructions"@
    ||| k == "input"@
    ||| k == "tools"@
    ||| k == "tool_choice"@
    ||| k == "parallel_tool_calls"@
    ||| k == "reasoning"@
    ||| k == "store"@
    ||| k == "stream"@
    ||| k == "include"@
    ||| k == "prompt_cache_key"@
    ||| k == "encrypted_content"@
    ||| k == "text"@
}

/// Whether a key is one that the official `/v1/responses` API accepts.
pub fn is_supported_openai_responses_key(key: &str) -> (r: bool)
    ensures
        r == is_official_key(key@),
{
    str_eq(key, "include") || str_eq(key, "input") || str_eq(key, "instructions") || str_eq(
        key,
        "max_output_tokens",
    ) || str_eq(key, "metadata") || str_eq(key, "model") || str_eq(key, "parallel_tool_calls")
        || str_eq(key, "previous_response_id") || str_eq(key, "reasoning") || str_eq(
        key,
        "service_tier",
    ) || str_eq(key, "store") || str_eq(key, "stream") || str_eq(key, "temperature") || str_eq(
        key,
        "text",
    ) || str_eq(key, "tool_choice") || str_eq(key, "tools") || str_eq(key, "top_p") || str_eq(
        key,
        "truncation",
    ) || str_eq(key, "user") || str_eq(key, "stream_passthrough")
}

/// Whether a key is one that the Codex backend's `/responses` accepts.
pub fn is_supported_codex_responses_key(key: &str) -> (r: bool)
    ensures
        r == is_codex_key(key@),
{
    str_eq(key, "model") || str_eq(key, "instructions") || str_eq(key, "input") || str_eq(
        key,
        "tools",
    ) || str_eq(key, "tool_choice") || str_eq(key, "parallel_tool_calls") || str_eq(
        key,
        "reasoning",
    ) || str_eq(key, "store") || str_eq(key, "stream") || str_eq(key, "include") || str_eq(
        key,
        "prompt_cache_key",
    ) || str_eq(key, "encrypted_content") || str_eq(key, "text")
}

/// Which key list a body is cut down to.
#[derive(Clone, Copy, Debug, PartialEq, Eq, Structural)]
pub enum Allowlist {
    /// The keys of the official `/v1/responses` API.
    Official,
    /// The keys of the Codex backend.
    Codex,
}

/// Whether the list allows a key.
pub open spec fn allows(list: Allowlist, k: Seq<char>) -> bool {
    match list {
        Allowlist::Official => is_official_key(k),
        Allowlist::Codex => is_codex_key(k),
    }
}

/// The members that the list allows, in order.
pub open spec fn kept_members(m: Members, list: Allowlist) -> Members
    decreases m.len(),
{
    if m.len() == 0 {
        m
    } else {
        let k = kept_members(m.drop_last(), list);
        if allows(list, m.last().0) {
            k.push(m.last())
        } else {
            k
        }
    }
}

/// The keys of the members that the list does not allow, in order.
pub open spec fn dropped_keys(m: Members, list: Allowlist) -> Seq<Seq<char>>
    decreases m.len(),
{
    if m.len() == 0 {
        Seq::<Seq<char>>::empty()
    } else {
        let k = dropped_keys(m.drop_last(), list);
        if allows(list, m.last().0) {
            k
        } else {
            k.push(m.last().0)
        }
    }
}

proof fn lemma_kept_keys_from_source(m: Members, list: Allowlist, k: Seq<char>)
    ensures
        has_key(kept_members(m, list), k) ==> has_key(m, k),
    decreases m.len(),
{
    if m.len() > 0 {
        lemma_kept_keys_from_source(m.drop_last(), list, k);
        let km = kept_members(m, list);
        if has_key(km, k) {
            let q = choose|q: int| 0 <= q < km.len() && #[trigger] km[q].0 == k;
            let prev = kept_members(m.drop_last(), list);
            if q < prev.len() {
                assert(prev[q].0 == k);
                let r = choose|r: int| 0 <= r < m.drop_last().len() && #[trigger] m.drop_last()[r].0 == k;
                assert(m[r].0 == k);
            } else {
                assert(m[m.len() - 1].0 == k);
            }
        }
    }
}

proof fn lemma_kept_distinct(m: Members, list: Allowlist)
    requires
        keys_distinct(m),
    ensures
        keys_distinct(kept_members(m, list)),
    decreases m.len(),
{
    if m.len() > 0 {
        let d = m.drop_last();
        assert(keys_distinct(d));
        lemma_kept_distinct(d, list);
        lemma_kept_keys_from_source(d, list, m.last().0);
        if has_key(d, m.last().0) {
            let r = choose|r: int| 0 <= r < d.len() && #[trigger] d[r].0 == m.last().0;
            assert(m[r].0 == m[m.len() - 1].0);
        }
        let prev = kept_members(d, list);
        if allows(list, m.last().0) {
            let km = prev.push(m.last());
            assert forall|i: int, j: int| 0 <= i < j < km.len() implies #[trigger] km[i].0
                != #[trigger] km[j].0 by {
                if j == km.len() - 1 {
                    if km[i].0 == km[j].0 {
                        assert(prev[i].0 == m.last().0);
                        assert(has_key(prev, m.last().0));
                    }
                } else {
                    assert(km[i] == prev[i]);
                    assert(km[j] == prev[j]);
                }
            }
        }
    }
}

/// Whether the list allows a key.
fn is_allowed(list: Allowlist, key: &str) -> (r: bool)
    ensures
        r == allows(list, key@),
{
    match list {
        Allowlist::Official => is_supported_openai_responses_key(key),
        Allowlist::Codex => is_supported_codex_responses_key(key),
    }
}

/// Keeps the members that the list allows, in order, and returns the keys
/// of those dropped, in order.
pub fn retain_fields_with_allowlist(obj: &mut JsonMap, list: Allowlist) -> (dropped: Vec<String>)
    requires
        keys_distinct(old(obj)@),
    ensures
        final(obj)@ == kept_members(old(obj)@, list),
        dropped@.map_values(|k: String| k@) == dropped_keys(old(obj)@, list),
        keys_distinct(final(obj)@),
{
    let ghost m0 = obj@;
    let mut rest: Vec<(String, JsonValue)> = Vec::new();
    std::mem::swap(&mut rest, &mut obj.entries);
    assert(members_of(rest@) == m0);
    let mut kept: Vec<(String, JsonValue)> = Vec::new();
    let mut dropped: Vec<String> = Vec::new();
    let ghost mut done: int = 0;
    assert(m0.take(0) =~= Seq::<(Seq<char>, JsonValue)>::empty());
    assert(members_of(kept@) =~= kept_members(m0.take(0), list));
    assert(dropped@.map_values(|k: String| k@) =~= dropped_keys(m0.take(0), list));
    while rest.len() > 0
        invariant
            0 <= done <= m0.len(),
            rest@.len() == m0.len() - done,
            members_of(rest@) == m0.skip(done),
            members_of(kept@) == kept_members(m0.take(done), list),
            dropped@.map_values(|k: String| k@) == dropped_keys(m0.take(done), list),
        decreases rest@.len(),
    {
        let ghost rest_before = rest@;
        let (key, value) = rest.remove(0);
        proof {
            assert(members_of(rest_before)[0] == m0.skip(done)[0]);
            assert(m0.take(done + 1).drop_last() =~= m0.take(done));
            assert(m0.take(done + 1).last() == m0[done]);
            assert forall|j: int| 0 <= j < rest@.len() implies #[trigger] members_of(rest@)[j] == m0.skip(done + 1)[j] by {
                assert(rest@[j] == rest_before[j + 1]);
                assert(members_of(rest_before)[j + 1]
                    == m0.skip(done)[j + 1]);
            }
            assert(members_of(rest@) =~= m0.skip(done + 1));
        }
        let ghost entry = (key@, value);
        let ghost kept_before = members_of(kept@);
        let ghost dropped_before = dropped@.map_values(|k: String| k@);
        if is_allowed(list, key.as_str()) {
            kept.push((key, value));
            assert(members_of(kept@) =~= kept_before.push(entry));
        } else {
            let ghost kv = key@;
            dropped.push(key);
            assert(dropped@.map_values(|k: String| k@) =~= dropped_before.push(kv));
        }
        proof {
            done = done + 1;
        }
    }
    assert(m0.take(m0.len() as int) =~= m0);
    obj.entries = kept;
    proof {
        lemma_kept_distinct(m0, list);
    }
    dropped
}

/// Cuts a `/v1/responses` body down to the keys of the official API;
/// returns the keys dropped.
pub fn retain_official_fields(path: &str, obj: &mut JsonMap) -> (dropped: Vec<String>)
    requires
        keys_distinct(old(obj)@),
    ensures
        keys_distinct(final(obj)@),
        is_responses_path_spec(path@) ==> final(obj)@ == kept_members(
            old(obj)@,
            Allowlist::Official,
        ) && dropped@.map_values(|k: String| k@) == dropped_keys(old(obj)@, Allowlist::Official),
        !is_responses_path_spec(path@) ==> final(obj)@ == old(obj)@ && dropped@.len() == 0,
{
    if !is_responses_path(path) {
        return Vec::new();
    }
    retain_fields_with_allowlist(obj, Allowlist::Official)
}

/// Cuts a `/v1/responses` body down to the keys of the Codex backend;
/// returns the keys dropped.
pub fn retain_codex_fields(path: &str, obj: &mut JsonMap) -> (dropped: Vec<String>)
    requires
        keys_distinct(old(obj)@),
    ensures
        keys_distinct(final(obj)@),
        is_responses_path_spec(path@) ==> final(obj)@ == kept_members(old(obj)@, Allowlist::Codex)
            && dropped@.map_values(|k: String| k@) == dropped_keys(old(obj)@, Allowlist::Codex),
        !is_responses_path_spec(path@) ==> final(obj)@ == old(obj)@ && dropped@.len() == 0,
{
    if !is_responses_path(path) {
        return Vec::new();
    }
    retain_fields_with_allowlist(obj, Allowlist::Codex)
}

/// After a body is cut down to a key list, every key left is on the list;
/// cutting it down again changes nothing and drops nothing; and every member
/// is either kept or has its key reported as dropped.
pub proof fn lemma_retain_keeps_only_allowed(m: Members, list: Allowlist)
    ensures
        forall|i: int| 0 <= i < kept_members(m, list).len() ==> allows(list, #[trigger] kept_members(m, list)[i].0),
        kept_members(kept_members(m, list), list) == kept_members(m, list),
        dropped_keys(kept_members(m, list), list).len() == 0,
        kept_members(m, list).len() + dropped_keys(m, list).len() == m.len(),
    decreases m.len(),
{
    if m.len() > 0 {
        lemma_retain_keeps_only_allowed(m.drop_last(), list);
        let prev = kept_members(m.drop_last(), list);
        if allows(list, m.last().0) {
            let k = prev.push(m.last());
            assert(k.drop_last() =~= prev);
            assert forall|i: int| 0 <= i < k.len() implies allows(list, #[trigger] k[i].0) by {
                if i < prev.len() {
                    assert(k[i] == prev[i]);
                }
            }
        }
    }
}

/// After the rewrite, a `/v1/responses` body streams.
pub proof fn lemma_stream_is_true_after_rewrite(m: Members)
    requires
        keys_distinct(m),
    ensures
        get_value(insert_spec(m, "stream"@, JsonValue::Bool(true)), "stream"@) == Some(
            JsonValue::Bool(true),
        ),
{
    crate::json::lemma_insert_value(m, "stream"@, JsonValue::Bool(true));
}

/// After the rewrite, a `/v1/responses` body is not stored.
pub proof fn lemma_store_is_false_after_rewrite(m: Members)
    requires
        keys_distinct(m),
    ensures
        get_value(insert_spec(m, "store"@, JsonValue::Bool(false)), "store"@) == Some(
            JsonValue::Bool(false),
        ),
{
    crate::json::lemma_insert_value(m, "store"@, JsonValue::Bool(false));
}


proof fn lemma_allowed_member_kept(m: Members, list: Allowlist, i: int)
    requires
        0 <= i < m.len(),
        allows(list, m[i].0),
    ensures
        kept_members(m, list).contains(m[i]),
    decreases m.len(),
{
    let k = kept_members(m.drop_last(), list);
    if i < m.len() - 1 {
        assert(m.drop_last()[i] == m[i]);
        lemma_allowed_member_kept(m.drop_last(), list, i);
        let j = choose|j: int| 0 <= j < k.len() && k[j] == m[i];
        if allows(list, m.last().0) {
            assert(k.push(m.last())[j] == m[i]);
        }
    } else {
        assert(k.push(m.last())[k.len() as int] == m[i]);
    }
}

/// Cutting a body down to the Codex fields keeps a member exactly when its
/// key is one of `model`, `instructions`, `input`, `tools`, `tool_choice`,
/// `parallel_tool_calls`, `reasoning`, `store`, `stream`, `include`,
/// `prompt_cache_key`, `encrypted_content` or `text`, and reports the key of
/// every other member as dropped.
pub proof fn lemma_codex_fields_are_exactly_the_codex_keys(m: Members, i: int)
    requires
        0 <= i < m.len(),
    ensures
        ({
            let k = m[i].0;
            let listed = k == "model"@ || k == "instructions"@ || k == "input"@ || k == "tools"@
                || k == "tool_choice"@ || k == "parallel_tool_calls"@ || k == "reasoning"@ || k
                == "store"@ || k == "stream"@ || k == "include"@ || k == "prompt_cache_key"@ || k
                == "encrypted_content"@ || k == "text"@;
            &&& kept_members(m, Allowlist::Codex).contains(m[i]) == listed
            &&& !listed ==> dropped_keys(m, Allowlist::Codex).contains(k)
        }),
{
    lemma_retain_keeps_only_allowed(m, Allowlist::Codex);
    lemma_dropped_key_reported(m, Allowlist::Codex, i);
    if allows(Allowlist::Codex, m[i].0) {
        lemma_allowed_member_kept(m, Allowlist::Codex, i);
    } else {
        let km = kept_members(m, Allowlist::Codex);
        if km.contains(m[i]) {
            let j = choose|j: int| 0 <= j < km.len() && km[j] == m[i];
            assert(allows(Allowlist::Codex, km[j].0));
        }
    }
}

proof fn lemma_dropped_key_reported(m: Members, list: Allowlist, i: int)
    requires
        0 <= i < m.len(),
    ensures
        !allows(list, m[i].0) ==> dropped_keys(m, list).contains(m[i].0),
    decreases m.len(),
{
    let d = dropped_keys(m.drop_last(), list);
    if !allows(list, m[i].0) {
        if i < m.len() - 1 {
            assert(m.drop_last()[i] == m[i]);
            lemma_dropped_key_reported(m.drop_last(), list, i);
            let j = choose|j: int| 0 <= j < d.len() && d[j] == m[i].0;
            if !allows(list, m.last().0) {
                assert(d.push(m.last().0)[j] == m[i].0);
            }
        } else {
            assert(d.push(m.last().0)[d.len() as int] == m[i].0);
        }
    }
}


/// Cutting a body down to the official `/v1/responses` fields keeps a member
/// exactly when its key is one of `include`, `input`, `instructions`,
/// `max_output_tokens`, `metadata`, `model`, `parallel_tool_calls`,
/// `previous_response_id`, `reasoning`, `service_tier`, `store`, `stream`,
/// `temperature`, `text`, `tool_choice`, `tools`, `top_p`, `truncation`,
/// `user` or `stream_passthrough`, and reports the key of every other member
/// as dropped.
pub proof fn lemma_official_fields_are_exactly_the_official_keys(m: Members, i: int)
    requires
        0 <= i < m.len(),
    ensures
        ({
            let k = m[i].0;
            let listed = k == "include"@ || k == "input"@ || k == "instructions"@ || k
                == "max_output_tokens"@ || k == "metadata"@ || k == "model"@ || k
                == "parallel_tool_calls"@ || k == "previous_response_id"@ || k == "reasoning"@
                || k == "service_tier"@ || k == "store"@ || k == "stream"@ || k == "temperature"@
                || k == "text"@ || k == "tool_choice"@ || k == "tools"@ || k == "top_p"@ || k
                == "truncation"@ || k == "user"@ || k == "stream_passthrough"@;
            &&& kept_members(m, Allowlist::Official).contains(m[i]) == listed
            &&& !listed ==> dropped_keys(m, Allowlist::Official).contains(k)
        }),
{
    lemma_retain_keeps_only_allowed(m, Allowlist::Official);
    lemma_dropped_key_reported(m, Allowlist::Official, i);
    if allows(Allowlist::Official, m[i].0) {
        lemma_allowed_member_kept(m, Allowlist::Official, i);
    } else {
        let km = kept_members(m, Allowlist::Official);
        if km.contains(m[i]) {
            let j = choose|j: int| 0 <= j < km.len() && km[j] == m[i];
            assert(allows(Allowlist::Official, km[j].0));
        }
    }
}

} // verus!
