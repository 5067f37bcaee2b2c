//! A JSON value held as plain data, and the object operations that the
//! request rewrites use.
//!
//! An object is a list of members whose keys are pairwise distinct; inserting
//! a key that is present replaces its value in place, inserting a new key
//! appends it.
use serde_json::{Number, Value};
use vstd::prelude::*;
use vstd::string::*;

verus! {

/// A value of `serde_json`, carried through the text boundary only.
#[verifier::external_type_specification]
#[verifier::external_body]
pub struct ExSerdeJsonValue(Value);

broadcast use vstd::string::group_string_axioms;

/// A JSON number: a non-negative integer, a negative integer, or another
/// number kept as the text it is written as.
#[derive(Debug, PartialEq)]
pub enum JsonNumber {
    PosInt(u64),
    NegInt(i64),
    Float(String),
}

/// A JSON value.
#[derive(Debug, PartialEq)]
pub enum JsonValue {
    Null,
    Bool(bool),
    Number(JsonNumber),
    Str(String),
    Array(Vec<JsonValue>),
    Object(JsonMap),
}

/// A JSON object: its members in order.
#[derive(Debug, PartialEq)]
pub struct JsonMap {
    pub entries: Vec<(String, JsonValue)>,
}

/// The members of an object, with keys as text.
pub type Members = Seq<(Seq<char>, JsonValue)>;

/// The members of a list of entries, with keys as text.
pub open spec fn members_of(s: Seq<(String, JsonValue)>) -> Members {
    s.map_values(|e: (String, JsonValue)| (e.0@, e.1))
}

impl View for JsonMap {
    type V = Members;

    open spec fn view(&self) -> Members {
        members_of(self.entries@)
    }
}

/// The object holds a member with this key.
pub open spec fn has_key(m: Members, k: Seq<char>) -> bool {
    exists|i: int| 0 <= i < m.len() && #[trigger] m[i].0 == k
}

/// `i` is the position of the first member with key `k`.
pub open spec fn is_first_pos(m: Members, k: Seq<char>, i: int) -> bool {
    &&& 0 <= i < m.len()
    &&& m[i].0 == k
    &&& forall|j: int| 0 <= j < i ==> #[trigger] m[j].0 != k
}

/// The position of the (first) member with this key.
pub open spec fn key_pos(m: Members, k: Seq<char>) -> int {
    choose|i: int| is_first_pos(m, k, i)
}

/// Where a key is present, its first position is where `key_pos` points.
pub proof fn lemma_key_pos(m: Members, k: Seq<char>, i: int)
    requires
        is_first_pos(m, k, i),
    ensures
        key_pos(m, k) == i,
        has_key(m, k),
{
    let p = key_pos(m, k);
    assert(is_first_pos(m, k, p));
    if p < i {
        assert(m[p].0 != k);
    } else if p > i {
        assert(m[i].0 != k);
    }
}

/// In an object whose keys are distinct, a member's position is the
/// position of its key.
pub proof fn lemma_distinct_pos(m: Members, k: Seq<char>, i: int)
    requires
        keys_distinct(m),
        0 <= i < m.len(),
        m[i].0 == k,
    ensures
        key_pos(m, k) == i,
        has_key(m, k),
{
    assert forall|j: int| 0 <= j < i implies #[trigger] m[j].0 != k by {
        assert(m[j].0 != m[i].0);
    }
    assert(is_first_pos(m, k, i));
    lemma_key_pos(m, k, i);
}

/// Where a key is present, it has a first position.
pub proof fn lemma_has_key_first(m: Members, k: Seq<char>)
    requires
        has_key(m, k),
    ensures
        is_first_pos(m, k, key_pos(m, k)),
    decreases m.len(),
{
    let w = choose|w: int| 0 <= w < m.len() && #[trigger] m[w].0 == k;
    let mut i: int = 0;
    if m[0].0 == k {
        lemma_key_pos(m, k, 0);
    } else {
        let d = m.drop_first();
        assert(d[w - 1].0 == k);
        lemma_has_key_first(d, k);
        let q = key_pos(d, k);
        assert forall|j: int| 0 <= j < q + 1 implies #[trigger] m[j].0 != k by {
            if j > 0 {
                assert(m[j] == d[j - 1]);
            }
        }
        assert(is_first_pos(m, k, q + 1));
        lemma_key_pos(m, k, q + 1);
    }
}

/// The value of the member with this key, where there is one.
pub open spec fn get_value(m: Members, k: Seq<char>) -> Option<JsonValue> {
    if has_key(m, k) {
        Some(m[key_pos(m, k)].1)
    } else {
        None
    }
}

/// No two members share a key.
pub open spec fn keys_distinct(m: Members) -> bool {
    forall|i: int, j: int| 0 <= i < j < m.len() ==> #[trigger] m[i].0 != #[trigger] m[j].0
}

/// The members after inserting `k` with `v`: replaced in place where the
/// key is present, appended otherwise.
pub open spec fn insert_spec(m: Members, k: Seq<char>, v: JsonValue) -> Members {
    if has_key(m, k) {
        m.update(key_pos(m, k), (k, v))
    } else {
        m.push((k, v))
    }
}

/// The members after removing the member with key `k`, where there is one.
pub open spec fn remove_spec(m: Members, k: Seq<char>) -> Members {
    if has_key(m, k) {
        m.remove(key_pos(m, k))
    } else {
        m
    }
}

/// The value is the text `s`.
pub open spec fn is_str(v: JsonValue, s: Seq<char>) -> bool {
    v matches JsonValue::Str(t) && t@ == s
}

/// The value as a boolean, as `Value::as_bool` reads it.
pub open spec fn as_bool_spec(v: JsonValue) -> Option<bool> {
    match v {
        JsonValue::Bool(b) => Some(b),
        _ => None,
    }
}

/// The value as a text, as `Value::as_str` reads it.
pub open spec fn as_str_spec(v: JsonValue) -> Option<Seq<char>> {
    match v {
        JsonValue::Str(s) => Some(s@),
        _ => None,
    }
}

/// The value as an unsigned integer, as `Value::as_u64` reads it.
pub open spec fn as_u64_spec(v: JsonValue) -> Option<u64> {
    match v {
        JsonValue::Number(JsonNumber::PosInt(n)) => Some(n),
        _ => None,
    }
}

/// The value as a signed integer, as `Value::as_i64` reads it.
pub open spec fn as_i64_spec(v: JsonValue) -> Option<i64> {
    match v {
        JsonValue::Number(JsonNumber::PosInt(n)) => if n <= i64::MAX {
            Some(n as i64)
        } else {
            None
        },
        JsonValue::Number(JsonNumber::NegInt(n)) => Some(n),
        _ => None,
    }
}

/// The members of the value, where it is an object.
pub open spec fn as_object_spec(v: JsonValue) -> Option<Members> {
    match v {
        JsonValue::Object(m) => Some(m@),
        _ => None,
    }
}

/// The value of member `k` of `v`, where `v` is an object holding one.
pub open spec fn member_spec(v: Option<JsonValue>, k: Seq<char>) -> Option<JsonValue> {
    match v {
        Some(JsonValue::Object(m)) => get_value(m@, k),
        _ => None,
    }
}

/// Two key texts are equal.
fn key_eq(a: &String, b: &str) -> (r: bool)
    ensures
        r == (a@ == b@),
{
    crate::text::str_eq(a.as_str(), b)
}

impl JsonMap {
    /// The empty object.
    pub fn new() -> (r: Self)
        ensures
            r@ == Seq::<(Seq<char>, JsonValue)>::empty(),
    {
        let r = JsonMap { entries: Vec::new() };
        assert(r@ =~= Seq::<(Seq<char>, JsonValue)>::empty());
        r
    }

    /// The number of members.
    pub fn len(&self) -> (r: usize)
        ensures
            r == self@.len(),
    {
        self.entries.len()
    }

    /// The position of the member with this key.
    pub fn find(&self, key: &str) -> (r: Option<usize>)
        ensures
            match r {
                Some(i) => has_key(self@, key@) && i == key_pos(self@, key@) && i < self@.len()
                    && is_first_pos(self@, key@, i as int),
                None => !has_key(self@, key@),
            },
    {
        let mut i: usize = 0;
        while i < self.entries.len()
            invariant
                i <= self.entries@.len(),
                forall|j: int| 0 <= j < i ==> #[trigger] self@[j].0 != key@,
            decreases self.entries@.len() - i,
        {
            if key_eq(&self.entries[i].0, key) {
                proof {
                    assert(is_first_pos(self@, key@, i as int));
                    lemma_key_pos(self@, key@, i as int);
                }
                return Some(i);
            }
            i = i + 1;
        }
        None
    }

    /// Whether a member with this key is present.
    pub fn contains_key(&self, key: &str) -> (r: bool)
        ensures
            r == has_key(self@, key@),
    {
        self.find(key).is_some()
    }

    /// The value of the member with this key.
    pub fn get(&self, key: &str) -> (r: Option<&JsonValue>)
        ensures
            match r {
                Some(v) => get_value(self@, key@) == Some(*v),
                None => get_value(self@, key@) is None,
            },
    {
        match self.find(key) {
            Some(i) => Some(&self.entries[i].1),
            None => None,
        }
    }

    /// Inserts a member: the value of a present key is replaced in place, a
    /// new key is appended.
    pub fn insert(&mut self, key: String, value: JsonValue)
        requires
            keys_distinct(old(self)@),
        ensures
            final(self)@ == insert_spec(old(self)@, key@, value),
            keys_distinct(final(self)@),
    {
        match self.find(key.as_str()) {
            Some(i) => {
                let ghost k = key@;
                self.entries.set(i, (key, value));
                assert(self@ =~= old(self)@.update(i as int, (k, value)));
                proof {
                    let m = self@;
                    let o = old(self)@;
                    assert forall|a: int, b: int| 0 <= a < b < m.len() implies #[trigger] m[a].0
                        != #[trigger] m[b].0 by {
                        if a == i {
                            assert(o[b].0 != o[a].0);
                        } else if b == i {
                            assert(o[a].0 != o[b].0);
                        } else {
                            assert(o[a].0 != o[b].0);
                        }
                    }
                }
            },
            None => {
                let ghost k = key@;
                self.entries.push((key, value));
                assert(self@ =~= old(self)@.push((k, value)));
                proof {
                    let m = self@;
                    let o = old(self)@;
                    assert forall|a: int, b: int| 0 <= a < b < m.len() implies #[trigger] m[a].0
                        != #[trigger] m[b].0 by {
                        if b == o.len() {
                            assert(o[a].0 != k);
                        } else {
                            assert(o[a].0 != o[b].0);
                        }
                    }
                }
            },
        }
    }

    /// Removes the member with this key and returns its value.
    pub fn remove(&mut self, key: &str) -> (r: Option<JsonValue>)
        requires
            keys_distinct(old(self)@),
        ensures
            final(self)@ == remove_spec(old(self)@, key@),
            r == get_value(old(self)@, key@),
            keys_distinct(final(self)@),
            !has_key(final(self)@, key@),
    {
        match self.find(key) {
            Some(i) => {
                let (_, v) = self.entries.remove(i);
                assert(self@ =~= old(self)@.remove(i as int));
                proof {
                    let m = self@;
                    assert forall|j: int| 0 <= j < m.len() implies m[j].0 != key@ by {
                        let o = old(self)@;
                        assert(o[i as int].0 == key@);
                        if j < i {
                            assert(m[j] == o[j]);
                            assert(o[j].0 != o[i as int].0);
                        } else {
                            assert(m[j] == o[j + 1]);
                            assert(o[i as int].0 != o[j + 1].0);
                        }
                    }
                }
                Some(v)
            },
            None => None,
        }
    }

    /// Takes the member at `i` out, keeping the other members in order.
    pub fn take_at(&mut self, i: usize) -> (r: (String, JsonValue))
        requires
            i < old(self)@.len(),
            keys_distinct(old(self)@),
        ensures
            final(self)@ == old(self)@.remove(i as int),
            (r.0@, r.1) == old(self)@[i as int],
            keys_distinct(final(self)@),
    {
        let r = self.entries.remove(i);
        assert(self@ =~= old(self)@.remove(i as int));
        r
    }

    /// Puts a member back at position `i`.
    pub fn put_at(&mut self, i: usize, key: String, value: JsonValue)
        requires
            i <= old(self)@.len(),
            keys_distinct(old(self)@),
            !has_key(old(self)@, key@),
        ensures
            final(self)@ == old(self)@.insert(i as int, (key@, value)),
            keys_distinct(final(self)@),
    {
        let ghost k = key@;
        self.entries.insert(i, (key, value));
        assert(self@ =~= old(self)@.insert(i as int, (k, value)));
    }
}

impl JsonValue {
    /// `Value::as_bool`.
    pub fn as_bool(&self) -> (r: Option<bool>)
        ensures
            r == as_bool_spec(*self),
    {
        match self {
            JsonValue::Bool(b) => Some(*b),
            _ => None,
        }
    }

    /// `Value::as_str`.
    pub fn as_str(&self) -> (r: Option<&str>)
        ensures
            crate::text::opt_str_view(r) == as_str_spec(*self),
    {
        match self {
            JsonValue::Str(s) => Some(s.as_str()),
            _ => None,
        }
    }

    /// `Value::as_u64`.
    pub fn as_u64(&self) -> (r: Option<u64>)
        ensures
            r == as_u64_spec(*self),
    {
        match self {
            JsonValue::Number(JsonNumber::PosInt(n)) => Some(*n),
            _ => None,
        }
    }

    /// `Value::as_i64`.
    pub fn as_i64(&self) -> (r: Option<i64>)
        ensures
            r == as_i64_spec(*self),
    {
        match self {
            JsonValue::Number(JsonNumber::PosInt(n)) => {
                if *n <= 9223372036854775807u64 {
                    Some(*n as i64)
                } else {
                    None
                }
            },
            JsonValue::Number(JsonNumber::NegInt(n)) => Some(*n),
            _ => None,
        }
    }

    /// `Value::as_object`.
    pub fn as_object(&self) -> (r: Option<&JsonMap>)
        ensures
            match r {
                Some(m) => as_object_spec(*self) == Some(m@),
                None => as_object_spec(*self) is None,
            },
    {
        match self {
            JsonValue::Object(m) => Some(m),
            _ => None,
        }
    }

    /// Whether the value is an object.
    pub fn is_object(&self) -> (r: bool)
        ensures
            r == (*self is Object),
    {
        match self {
            JsonValue::Object(_) => true,
            _ => false,
        }
    }
}

/// The value of member `key` of `value`, where `value` is an object that
/// holds one: `value.get(key)`.
pub fn member<'a>(value: Option<&'a JsonValue>, key: &str) -> (r: Option<&'a JsonValue>)
    ensures
        match r {
            Some(v) => member_spec(
                match value {
                    Some(x) => Some(*x),
                    None => None,
                },
                key@,
            ) == Some(*v),
            None => member_spec(
                match value {
                    Some(x) => Some(*x),
                    None => None,
                },
                key@,
            ) is None,
        },
{
    match value {
        Some(JsonValue::Object(m)) => m.get(key),
        _ => None,
    }
}

/// Removing one key leaves the values of the other keys as they were.
pub proof fn lemma_remove_keeps_others(m: Members, k: Seq<char>, other: Seq<char>)
    requires
        keys_distinct(m),
        other != k,
    ensures
        get_value(remove_spec(m, k), other) == get_value(m, other),
        keys_distinct(remove_spec(m, k)),
{
    if has_key(m, k) {
        lemma_has_key_first(m, k);
        let i = key_pos(m, k);
        let r = m.remove(i);
        assert forall|a: int, b: int| 0 <= a < b < r.len() implies #[trigger] r[a].0
            != #[trigger] r[b].0 by {
            let a2 = if a < i { a } else { a + 1 };
            let b2 = if b < i { b } else { b + 1 };
            assert(r[a] == m[a2]);
            assert(r[b] == m[b2]);
            assert(m[a2].0 != m[b2].0);
        }
        if has_key(m, other) {
            lemma_has_key_first(m, other);
            let j = key_pos(m, other);
            assert(j != i);
            let j2 = if j < i { j } else { j - 1 };
            assert(r[j2] == m[j]);
            lemma_distinct_pos(r, other, j2);
        } else {
            if has_key(r, other) {
                let q = choose|q: int| 0 <= q < r.len() && #[trigger] r[q].0 == other;
                let q2 = if q < i { q } else { q + 1 };
                assert(m[q2].0 == other);
            }
        }
    }
}

/// After inserting `k` with `v`, the value of `k` is `v`.
pub proof fn lemma_insert_value(m: Members, k: Seq<char>, v: JsonValue)
    requires
        keys_distinct(m),
    ensures
        has_key(insert_spec(m, k, v), k),
        get_value(insert_spec(m, k, v), k) == Some(v),
{
    let after = insert_spec(m, k, v);
    if has_key(m, k) {
        lemma_has_key_first(m, k);
        let p = key_pos(m, k);
        assert(after[p].0 == k);
        assert forall|j: int| 0 <= j < p implies #[trigger] after[j].0 != k by {
            assert(after[j] == m[j]);
        }
        assert(is_first_pos(after, k, p));
        lemma_key_pos(after, k, p);
    } else {
        let p = m.len() as int;
        assert(after[p].0 == k);
        assert forall|j: int| 0 <= j < p implies #[trigger] after[j].0 != k by {
            assert(after[j] == m[j]);
        }
        assert(is_first_pos(after, k, p));
        lemma_key_pos(after, k, p);
    }
}

/// Inserting a key where a value is present leaves the values of the other
/// keys as they were.
pub proof fn lemma_insert_keeps_others(m: Members, k: Seq<char>, v: Option<JsonValue>, other: Seq<char>)
    requires
        keys_distinct(m),
        other != k,
    ensures
        get_value(
            match v {
                Some(x) => insert_spec(m, k, x),
                None => m,
            },
            other,
        ) == get_value(m, other),
{
    if let Some(x) = v {
        let after = insert_spec(m, k, x);
        if has_key(m, other) {
            lemma_has_key_first(m, other);
            let j = key_pos(m, other);
            if has_key(m, k) {
                lemma_has_key_first(m, k);
                let pk = key_pos(m, k);
                assert(j != pk);
                assert(after == m.update(pk, (k, x)));
                assert(after[j] == m[j]);
                assert forall|q: int| 0 <= q < j implies #[trigger] after[q].0 != other by {
                    if q == pk {
                        assert(after[q].0 == k);
                    } else {
                        assert(after[q] == m[q]);
                    }
                }
            } else {
                assert(after == m.push((k, x)));
                assert(after[j] == m[j]);
                assert forall|q: int| 0 <= q < j implies #[trigger] after[q].0 != other by {
                    assert(after[q] == m[q]);
                }
            }
            assert(is_first_pos(after, other, j));
            lemma_key_pos(after, other, j);
        } else {
            if has_key(after, other) {
                let q = choose|q: int| 0 <= q < after.len() && #[trigger] after[q].0 == other;
                if has_key(m, k) {
                    lemma_has_key_first(m, k);
                    if q != key_pos(m, k) {
                        assert(m[q].0 == other);
                    }
                } else {
                    if q < m.len() {
                        assert(m[q].0 == other);
                    }
                }
            }
        }
    }
}


/// Whether the object and every object directly inside it have distinct keys.
pub open spec fn members_wf(m: Members) -> bool {
    &&& keys_distinct(m)
    &&& forall|k: Seq<char>| #[trigger] get_value(m, k) matches Some(JsonValue::Object(o)) ==> keys_distinct(o@)
}

/// What `serde_json::from_str` makes of a text, read into a `JsonValue`: the
/// value, or the text of the parse error.
pub uninterp spec fn json_parse(text: Seq<char>) -> Result<JsonValue, Seq<char>>;

/// The compact text that `serde_json` writes for an object with these members.
pub uninterp spec fn json_object_text(members: Members) -> Seq<char>;

/// A `serde_json` value read into a `JsonValue`, one value for one: numbers
/// that fit `u64` or `i64` are kept as integers, others as their text, and
/// object members keep the map's order. Makes no claim of its own; it is the
/// conversion part of `parse_json`.
#[verifier::external_body]
fn value_from_serde(value: Value) -> JsonValue {
    match value {
        Value::Null => JsonValue::Null,
        Value::Bool(b) => JsonValue::Bool(b),
        Value::Number(n) => JsonValue::Number(match (n.as_u64(), n.as_i64()) {
            (Some(u), _) => JsonNumber::PosInt(u),
            (None, Some(i)) => JsonNumber::NegInt(i),
            (None, None) => JsonNumber::Float(n.to_string()),
        }),
        Value::String(s) => JsonValue::Str(s),
        Value::Array(a) => JsonValue::Array(a.into_iter().map(value_from_serde).collect()),
        Value::Object(m) => JsonValue::Object(JsonMap {
            entries: m.into_iter().map(|(k, v)| (k, value_from_serde(v))).collect(),
        }),
    }
}

/// A `JsonValue` written as a `serde_json` value, one value for one; a
/// number text that `serde_json` does not read back becomes null. Makes no
/// claim of its own; it is the conversion part of `json_object_to_text`.
#[verifier::external_body]
fn value_to_serde(value: &JsonValue) -> Value {
    match value {
        JsonValue::Null => Value::Null,
        JsonValue::Bool(b) => Value::Bool(*b),
        JsonValue::Number(JsonNumber::PosInt(u)) => Value::from(*u),
        JsonValue::Number(JsonNumber::NegInt(i)) => Value::from(*i),
        JsonValue::Number(JsonNumber::Float(t)) => t.parse::<Number>().map_or(Value::Null, Value::Number),
        JsonValue::Str(s) => Value::String(s.clone()),
        JsonValue::Array(a) => Value::Array(a.iter().map(value_to_serde).collect()),
        JsonValue::Object(m) => Value::Object(m.entries.iter().map(|(k, v)| (k.clone(), value_to_serde(v))).collect()),
    }
}

/// `serde_json::from_str` into `serde_json::Value`, read into a `JsonValue`.
/// The claims: the outcome (the value, or the error's text) is a function of
/// the text alone, and every object that comes out has distinct keys, as
/// `serde_json::Map` keeps them. Which texts parse is left to the crate.
#[verifier::external_body]
pub(crate) fn parse_json(text: &str) -> (r: Result<JsonValue, String>)
    ensures
        match r {
            Ok(v) => json_parse(text@) == Ok::<JsonValue, Seq<char>>(v),
            Err(e) => json_parse(text@) == Err::<JsonValue, Seq<char>>(e@),
        },
        r matches Ok(JsonValue::Object(m)) ==> members_wf(m@),
{
    match serde_json::from_str::<Value>(text) {
        Ok(value) => Ok(value_from_serde(value)),
        Err(err) => Err(err.to_string()),
    }
}

/// The compact text of an object, as `serde_json::Value`'s `Display` writes
/// it. The claim is only that the text is a function of the members.
#[verifier::external_body]
pub(crate) fn json_object_to_text(m: &JsonMap) -> (r: String)
    ensures
        r@ == json_object_text(m@),
{
    Value::Object(m.entries.iter().map(|(k, v)| (k.clone(), value_to_serde(v))).collect()).to_string()
}

} // verus!
