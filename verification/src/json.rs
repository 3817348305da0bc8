use vstd::prelude::*;

use crate::errors::TwitterDataError;

verus! {

/// A JSON document held as plain values. Numbers keep only what the timeline
/// reader needs: a value representable as `u64`, another integer, or some
/// other number (kept opaque, since nothing here reads one).
pub enum JsonValue {
    Null,
    Bool(bool),
    UInt(u64),
    Int(i64),
    OtherNum,
    Str(String),
    Array(Vec<JsonValue>),
    Object(Vec<(String, JsonValue)>),
}

pub open spec fn spec_get_from(
    fields: Seq<(String, JsonValue)>,
    key: Seq<char>,
    start: int,
) -> Option<JsonValue>
    decreases fields.len() - start,
{
    if start < 0 || start >= fields.len() {
        None
    } else if fields[start].0@ == key {
        Some(fields[start].1)
    } else {
        spec_get_from(fields, key, start + 1)
    }
}

/// The value under the first member with this name, if any.
pub open spec fn spec_get(fields: Seq<(String, JsonValue)>, key: Seq<char>) -> Option<JsonValue> {
    spec_get_from(fields, key, 0)
}

/// The member an object lookup answers with, if the value is an object at all.
pub open spec fn spec_obj_get(v: JsonValue, key: Seq<char>) -> Option<JsonValue> {
    match v {
        JsonValue::Object(fields) => spec_get(fields@, key),
        _ => None,
    }
}

pub proof fn lemma_spec_get_from(fields: Seq<(String, JsonValue)>, key: Seq<char>, start: int)
    requires
        0 <= start <= fields.len(),
    ensures
        match spec_get_from(fields, key, start) {
            Some(x) => exists|i: int| start <= i < fields.len() && #[trigger] fields[i].1 == x,
            None => true,
        },
    decreases fields.len() - start,
{
    if start < fields.len() {
        if fields[start].0@ == key {
            assert(fields[start].1 == spec_get_from(fields, key, start)->Some_0);
        } else {
            lemma_spec_get_from(fields, key, start + 1);
        }
    }
}

/// Look a member up in an object; answers nothing on any other kind of value.
pub fn json_get<'a>(v: &'a JsonValue, key: &str) -> (r: Option<&'a JsonValue>)
    ensures
        match r {
            Some(x) => spec_obj_get(*v, key@) == Some(*x),
            None => spec_obj_get(*v, key@) is None,
        },
{
    match v {
        JsonValue::Object(fields) => {
            let owned = key.to_owned();
            let n = fields.len();
            for i in 0..n
                invariant
                    n == fields@.len(),
                    owned@ == key@,
                    spec_obj_get(*v, key@) == spec_get(fields@, key@),
                    spec_get(fields@, key@) == spec_get_from(fields@, key@, i as int),
            {
                if fields[i].0 == owned {
                    return Some(&fields[i].1);
                }
            }
            None
        },
        _ => None,
    }
}

/// The `u64` a required member holds, if the value is an object whose member
/// under this name is such a number.
pub open spec fn spec_read_u64(v: JsonValue, key: Seq<char>) -> Option<u64> {
    match spec_obj_get(v, key) {
        Some(JsonValue::UInt(u)) => Some(u),
        _ => None,
    }
}

/// The string a required member holds, under the same terms.
pub open spec fn spec_read_string(v: JsonValue, key: Seq<char>) -> Option<String> {
    match spec_obj_get(v, key) {
        Some(JsonValue::Str(s)) => Some(s),
        _ => None,
    }
}

/// The boolean a required member holds, under the same terms.
pub open spec fn spec_read_bool(v: JsonValue, key: Seq<char>) -> Option<bool> {
    match spec_obj_get(v, key) {
        Some(JsonValue::Bool(b)) => Some(b),
        _ => None,
    }
}

/// Read a required unsigned-integer member.
pub fn json_read_u64(v: &JsonValue, key: &str) -> (r: Result<u64, TwitterDataError>)
    ensures
        match r {
            Ok(u) => spec_read_u64(*v, key@) == Some(u),
            Err(e) => spec_read_u64(*v, key@) is None && e.field@ == key@,
        },
{
    match json_get(v, key) {
        Some(JsonValue::UInt(u)) => Ok(*u),
        _ => Err(TwitterDataError::new(key.to_owned(), String::new())),
    }
}

/// Read a required string member.
pub fn json_read_string(v: &JsonValue, key: &str) -> (r: Result<String, TwitterDataError>)
    ensures
        match r {
            Ok(s) => spec_read_string(*v, key@) == Some(s),
            Err(e) => spec_read_string(*v, key@) is None && e.field@ == key@,
        },
{
    match json_get(v, key) {
        Some(JsonValue::Str(s)) => Ok(s.clone()),
        _ => Err(TwitterDataError::new(key.to_owned(), String::new())),
    }
}

/// Read a required boolean member.
pub fn json_read_bool(v: &JsonValue, key: &str) -> (r: Result<bool, TwitterDataError>)
    ensures
        match r {
            Ok(b) => spec_read_bool(*v, key@) == Some(b),
            Err(e) => spec_read_bool(*v, key@) is None && e.field@ == key@,
        },
{
    match json_get(v, key) {
        Some(JsonValue::Bool(b)) => Ok(*b),
        _ => Err(TwitterDataError::new(key.to_owned(), String::new())),
    }
}

/// A value looked up in an object is structurally below the object, so a
/// walk through members may recurse on it.
pub proof fn lemma_obj_get_decreases(v: JsonValue, key: Seq<char>)
    requires
        spec_obj_get(v, key) is Some,
    ensures
        decreases_to!(v => spec_obj_get(v, key)->Some_0),
{
    let s = spec_obj_get(v, key)->Some_0;
    let fields = v->Object_0;
    lemma_spec_get_from(fields@, key, 0);
    let i = choose|i: int| 0 <= i < fields@.len() && #[trigger] fields@[i].1 == s;
    assert(decreases_to!(v => fields));
    assert(decreases_to!(fields => fields@));
    assert(decreases_to!(fields@ => fields@[i]));
    assert(decreases_to!(fields@[i] => fields@[i].1));
}

#[verifier::external_type_specification]
#[verifier::external_body]
pub struct ExSerdeValue(serde_json::Value);

/// What `serde_json::from_str` parses a text to, embedded member for member
/// in `JsonValue`: decided by the text alone, `None` when the text does not
/// parse.
pub uninterp spec fn spec_parse_json(s: Seq<char>) -> Option<JsonValue>;

/// Embeds a parsed `serde_json::Value` into `JsonValue`, one arm per variant,
/// moving members one for one. Used only by `parse_json_text`.
#[verifier::external_body]
fn embed_json(v: serde_json::Value) -> JsonValue {
    match v {
        serde_json::Value::Null => JsonValue::Null,
        serde_json::Value::Bool(b) => JsonValue::Bool(b),
        serde_json::Value::Number(n) => match (n.as_u64(), n.as_i64()) {
            (Some(u), _) => JsonValue::UInt(u),
            (None, Some(i)) => JsonValue::Int(i),
            (None, None) => JsonValue::OtherNum,
        },
        serde_json::Value::String(s) => JsonValue::Str(s),
        serde_json::Value::Array(a) => JsonValue::Array(a.into_iter().map(embed_json).collect()),
        serde_json::Value::Object(m) => JsonValue::Object(
            m.into_iter().map(|(k, x)| (k, embed_json(x))).collect(),
        ),
    }
}

/// Relies on serde_json::from_str: a text parses, or fails to, by its content
/// alone, and the parsed document is a function of the text.
#[verifier::external_body]
pub fn parse_json_text(s: &str) -> (r: Option<JsonValue>)
    ensures
        r == spec_parse_json(s@),
{
    match serde_json::from_str::<serde_json::Value>(s) {
        Ok(v) => Some(embed_json(v)),
        Err(_) => None,
    }
}

} // verus!
