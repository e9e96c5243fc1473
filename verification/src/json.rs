//! A plain-value model of decoded JSON documents, and the trusted parse
//! step that produces it from a text frame.
//!
//! Everything the protocol reads out of a frame (opcodes, sequence
//! numbers, event names, payload fields) is read from [`JsonValue`] by
//! verified code; only the parse from text into this model is trusted.

use vstd::prelude::*;

verus! {

/// A decoded JSON document held as plain values.
///
/// Integers keep their value; a number that is not an integer is marked
/// [`JsonValue::Frac`], since no protocol field carries one.
#[derive(Debug, PartialEq)]
pub enum JsonValue {
    /// The JSON `null` literal.
    Null,
    /// A boolean.
    Bool(bool),
    /// A non-negative integer.
    UInt(u64),
    /// A negative integer.
    NInt(i64),
    /// A number that is not an integer; its value is not carried.
    Frac,
    /// A string.
    Str(String),
    /// An array.
    Arr(Vec<JsonValue>),
    /// An object: its fields, each key held once.
    Obj(Vec<(String, JsonValue)>),
}

/// What parsing a text frame as JSON yields; a function of the text alone.
pub uninterp spec fn json_of(s: Seq<char>) -> Option<JsonValue>;

/// Relies on `serde_json::Value` being an ordinary owned value; the type
/// is opaque here and is only carried into [`convert_value`].
#[verifier::external_type_specification]
#[verifier::external_body]
pub struct ExValue(serde_json::Value);

/// Relies on `serde_json::from_str::<serde_json::Value>`: parses JSON
/// text, whose outcome depends on the text alone; the parsed document is
/// carried over into [`JsonValue`] by [`convert_value`].
#[verifier::external_body]
pub fn parse_json(text: &str) -> (r: Option<JsonValue>)
    ensures
        r == json_of(text@),
{
    serde_json::from_str::<serde_json::Value>(text).ok().map(convert_value)
}

/// Relies on `serde_json::Value` and its integer accessors `as_u64` /
/// `as_i64`: each variant is carried over one for one; integers keep
/// their value, any other number becomes [`JsonValue::Frac`]. Called
/// only from [`parse_json`].
#[verifier::external_body]
fn convert_value(v: serde_json::Value) -> JsonValue {
    match v {
        serde_json::Value::Null => JsonValue::Null,
        serde_json::Value::Bool(b) => JsonValue::Bool(b),
        serde_json::Value::Number(n) => match (n.as_u64(), n.as_i64()) {
            (Some(u), _) => JsonValue::UInt(u),
            (None, Some(i)) => JsonValue::NInt(i),
            (None, None) => JsonValue::Frac,
        },
        serde_json::Value::String(s) => JsonValue::Str(s),
        serde_json::Value::Array(a) => JsonValue::Arr(a.into_iter().map(convert_value).collect()),
        serde_json::Value::Object(o) => JsonValue::Obj(
            o.into_iter().map(|(k, w)| (k, convert_value(w))).collect(),
        ),
    }
}

/// The value under `key` in an object's field list: the first field whose
/// name matches, or nothing.
pub open spec fn obj_get(fields: Seq<(String, JsonValue)>, key: Seq<char>) -> Option<JsonValue>
    decreases fields.len(),
{
    if fields.len() == 0 {
        None
    } else if fields[0].0@ == key {
        Some(fields[0].1)
    } else {
        obj_get(fields.drop_first(), key)
    }
}

/// Looks `key` up in an object's field list.
pub fn lookup<'a>(fields: &'a Vec<(String, JsonValue)>, key: &str) -> (r: Option<&'a JsonValue>)
    ensures
        match r {
            Some(v) => obj_get(fields@, key@) == Some(*v),
            None => obj_get(fields@, key@) is None,
        },
{
    let key_owned: String = key.to_owned();
    let n = fields.len();
    proof {
        assert(fields@.subrange(0, n as int) =~= fields@);
    }
    let mut i: usize = 0;
    while i < n
        invariant
            i <= n,
            n == fields@.len(),
            key_owned@ == key@,
            obj_get(fields@, key@) == obj_get(fields@.subrange(i as int, n as int), key@),
        decreases n - i,
    {
        proof {
            assert(fields@.subrange(i as int, n as int)[0] == fields@[i as int]);
        }
        if fields[i].0 == key_owned {
            return Some(&fields[i].1);
        }
        proof {
            assert(fields@.subrange(i as int, n as int).drop_first() =~= fields@.subrange(
                i as int + 1,
                n as int,
            ));
        }
        i = i + 1;
    }
    proof {
        assert(fields@.subrange(n as int, n as int).len() == 0);
    }
    None
}

/// Position of the first field named `key`, so that its value can be
/// taken out of the list by value.
pub fn lookup_index(fields: &Vec<(String, JsonValue)>, key: &str) -> (r: Option<usize>)
    ensures
        match r {
            Some(i) => i < fields@.len() && obj_get(fields@, key@) == Some(fields@[i as int].1),
            None => obj_get(fields@, key@) is None,
        },
{
    let key_owned: String = key.to_owned();
    let n = fields.len();
    proof {
        assert(fields@.subrange(0, n as int) =~= fields@);
    }
    let mut i: usize = 0;
    while i < n
        invariant
            i <= n,
            n == fields@.len(),
            key_owned@ == key@,
            obj_get(fields@, key@) == obj_get(fields@.subrange(i as int, n as int), key@),
        decreases n - i,
    {
        proof {
            assert(fields@.subrange(i as int, n as int)[0] == fields@[i as int]);
        }
        if fields[i].0 == key_owned {
            return Some(i);
        }
        proof {
            assert(fields@.subrange(i as int, n as int).drop_first() =~= fields@.subrange(
                i as int + 1,
                n as int,
            ));
        }
        i = i + 1;
    }
    proof {
        assert(fields@.subrange(n as int, n as int).len() == 0);
    }
    None
}

/// A required string field: present and a string, or nothing.
pub open spec fn jstr(o: Option<JsonValue>) -> Option<String> {
    match o {
        Some(JsonValue::Str(s)) => Some(s),
        _ => None,
    }
}

/// An optional string field: absent or `null` reads as no value, a string
/// as that value, anything else as a failure.
pub open spec fn jopt_str(o: Option<JsonValue>) -> Option<Option<String>> {
    match o {
        None => Some(None),
        Some(JsonValue::Null) => Some(None),
        Some(JsonValue::Str(s)) => Some(Some(s)),
        _ => None,
    }
}

/// A required boolean field.
pub open spec fn jbool(o: Option<JsonValue>) -> Option<bool> {
    match o {
        Some(JsonValue::Bool(b)) => Some(b),
        _ => None,
    }
}

/// A boolean field that defaults to `false` when absent.
pub open spec fn jbool_default(o: Option<JsonValue>) -> Option<bool> {
    match o {
        None => Some(false),
        Some(JsonValue::Bool(b)) => Some(b),
        _ => None,
    }
}

/// An optional non-negative integer field: absent or `null` reads as no
/// value, an integer as that value, anything else as a failure.
pub open spec fn jopt_u64(o: Option<JsonValue>) -> Option<Option<u64>> {
    match o {
        None => Some(None),
        Some(JsonValue::Null) => Some(None),
        Some(JsonValue::UInt(n)) => Some(Some(n)),
        _ => None,
    }
}

/// Reads a required string field out of an object's field list.
pub fn get_str(fields: &Vec<(String, JsonValue)>, key: &str) -> (r: Option<String>)
    ensures
        r == jstr(obj_get(fields@, key@)),
{
    match lookup(fields, key) {
        Some(v) => match v {
            JsonValue::Str(s) => Some(s.clone()),
            _ => None,
        },
        None => None,
    }
}

/// Reads an optional string field out of an object's field list.
pub fn get_opt_str(fields: &Vec<(String, JsonValue)>, key: &str) -> (r: Option<Option<String>>)
    ensures
        r == jopt_str(obj_get(fields@, key@)),
{
    match lookup(fields, key) {
        Some(v) => match v {
            JsonValue::Null => Some(None),
            JsonValue::Str(s) => Some(Some(s.clone())),
            _ => None,
        },
        None => Some(None),
    }
}

/// Reads a required boolean field out of an object's field list.
pub fn get_bool(fields: &Vec<(String, JsonValue)>, key: &str) -> (r: Option<bool>)
    ensures
        r == jbool(obj_get(fields@, key@)),
{
    match lookup(fields, key) {
        Some(v) => match v {
            JsonValue::Bool(b) => Some(*b),
            _ => None,
        },
        None => None,
    }
}

/// Reads a boolean field that defaults to `false` when absent.
pub fn get_bool_default(fields: &Vec<(String, JsonValue)>, key: &str) -> (r: Option<bool>)
    ensures
        r == jbool_default(obj_get(fields@, key@)),
{
    match lookup(fields, key) {
        Some(v) => match v {
            JsonValue::Bool(b) => Some(*b),
            _ => None,
        },
        None => Some(false),
    }
}

/// Reads an optional non-negative integer field.
pub fn get_opt_u64(fields: &Vec<(String, JsonValue)>, key: &str) -> (r: Option<Option<u64>>)
    ensures
        r == jopt_u64(obj_get(fields@, key@)),
{
    match lookup(fields, key) {
        Some(v) => match v {
            JsonValue::Null => Some(None),
            JsonValue::UInt(n) => Some(Some(*n)),
            _ => None,
        },
        None => Some(None),
    }
}

} // verus!
