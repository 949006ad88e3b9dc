//! A JSON document model that the response parsers read. Numbers keep their
//! integer readings and whole-number roundings; documents are produced from parsed
//! JSON text by the caller.

use vstd::prelude::*;

use crate::text::text_eq;

verus! {

/// The readings of a JSON number that the parsers use: as an unsigned and as
/// a signed 64-bit integer, where it is one; rounded down and up to a whole
/// value (saturated to the `i64` range); and written with one decimal place.
pub struct JsonNumber {
    pub as_u64: Option<u64>,
    pub as_i64: Option<i64>,
    pub floor: i64,
    pub ceil: i64,
    pub one_decimal: String,
}

/// A JSON value. Object members keep their order; keys are unique.
pub enum JsonValue {
    Null,
    Bool(bool),
    Number(JsonNumber),
    String(String),
    Array(Vec<JsonValue>),
    Object(Vec<(String, JsonValue)>),
}

/// The first index `k >= i` whose member key is `key`.
pub open spec fn member_index_from(fields: Seq<(String, JsonValue)>, key: Seq<char>, i: int) -> Option<int>
    decreases fields.len() - i,
{
    if i < 0 || i >= fields.len() {
        None
    } else if fields[i].0@ == key {
        Some(i)
    } else {
        member_index_from(fields, key, i + 1)
    }
}

/// The member of an object with the given key (`Value::get` with a string key).
pub open spec fn json_get(v: JsonValue, key: Seq<char>) -> Option<JsonValue> {
    match v {
        JsonValue::Object(fields) => match member_index_from(fields@, key, 0) {
            Some(k) => Some(fields@[k].1),
            None => None,
        },
        _ => None,
    }
}

/// The member reached by following object keys in order (a JSON pointer whose
/// tokens are all plain, non-numeric object keys).
pub open spec fn json_path(v: JsonValue, keys: Seq<Seq<char>>) -> Option<JsonValue>
    decreases keys.len(),
{
    if keys.len() == 0 {
        Some(v)
    } else {
        match json_get(v, keys[0]) {
            Some(m) => json_path(m, keys.skip(1)),
            None => None,
        }
    }
}

/// The text of a JSON string.
pub open spec fn json_str(v: Option<JsonValue>) -> Option<Seq<char>> {
    match v {
        Some(JsonValue::String(s)) => Some(s@),
        _ => None,
    }
}

/// The elements of a JSON array.
pub open spec fn json_array(v: Option<JsonValue>) -> Option<Seq<JsonValue>> {
    match v {
        Some(JsonValue::Array(a)) => Some(a@),
        _ => None,
    }
}

/// A JSON number read as `u64`, where it is one.
pub open spec fn json_u64(v: Option<JsonValue>) -> Option<u64> {
    match v {
        Some(JsonValue::Number(n)) => n.as_u64,
        _ => None,
    }
}

/// A JSON number read as `i64`, where it is one.
pub open spec fn json_i64(v: Option<JsonValue>) -> Option<i64> {
    match v {
        Some(JsonValue::Number(n)) => n.as_i64,
        _ => None,
    }
}

/// A JSON boolean.
pub open spec fn json_bool(v: Option<JsonValue>) -> Option<bool> {
    match v {
        Some(JsonValue::Bool(b)) => Some(b),
        _ => None,
    }
}

impl JsonValue {
    /// The member with the given key, when `self` is an object that has one.
    pub fn get(&self, key: &str) -> (r: Option<&JsonValue>)
        ensures
            r matches Some(m) ==> json_get(*self, key@) == Some(*m),
            r is None ==> json_get(*self, key@) is None,
    {
        match self {
            JsonValue::Object(fields) => {
                let mut i: usize = 0;
                let ghost this = *self;
                assert(this == JsonValue::Object(*fields));
                while i < fields.len()
                    invariant
                        this == JsonValue::Object(*fields),
                        this == *self,
                        i <= fields@.len(),
                        member_index_from(fields@, key@, 0) == member_index_from(fields@, key@, i as int),
                    decreases fields@.len() - i,
                {
                    if text_eq(fields[i].0.as_str(), key) {
                        assert(member_index_from(fields@, key@, i as int) == Some(i as int));
                        return Some(&fields[i].1);
                    }
                    assert(member_index_from(fields@, key@, i as int) == member_index_from(fields@, key@, i + 1));
                    i += 1;
                }
                None
            },
            _ => None,
        }
    }

    /// The text, when `self` is a string.
    pub fn as_str(&self) -> (r: Option<&String>)
        ensures
            r matches Some(s) ==> json_str(Some(*self)) == Some(s@),
            r is None ==> json_str(Some(*self)) is None,
    {
        match self {
            JsonValue::String(s) => Some(s),
            _ => None,
        }
    }

    /// The elements, when `self` is an array.
    pub fn as_array(&self) -> (r: Option<&Vec<JsonValue>>)
        ensures
            r matches Some(a) ==> json_array(Some(*self)) == Some(a@),
            r is None ==> json_array(Some(*self)) is None,
    {
        match self {
            JsonValue::Array(a) => Some(a),
            _ => None,
        }
    }

    /// The number as `u64`, where it is one.
    pub fn as_u64(&self) -> (r: Option<u64>)
        ensures
            r == json_u64(Some(*self)),
    {
        match self {
            JsonValue::Number(n) => n.as_u64,
            _ => None,
        }
    }

    /// The number as `i64`, where it is one.
    pub fn as_i64(&self) -> (r: Option<i64>)
        ensures
            r == json_i64(Some(*self)),
    {
        match self {
            JsonValue::Number(n) => n.as_i64,
            _ => None,
        }
    }

    /// The boolean, when `self` is one.
    pub fn as_bool(&self) -> (r: Option<bool>)
        ensures
            r == json_bool(Some(*self)),
    {
        match self {
            JsonValue::Bool(b) => Some(*b),
            _ => None,
        }
    }
}

} // verus!
