use vstd::prelude::*;
use vstd::string::StringExecFns;
use crate::text::str_eq;

verus! {

/// The daemon's model of one structured wire value. Numbers are the
/// unsigned integers the protocol carries; object members keep their order.
#[derive(Debug)]
pub enum JsonValue {
    Null,
    Bool(bool),
    UInt(u64),
    Str(String),
    Arr(Vec<JsonValue>),
    Obj(Vec<(String, JsonValue)>),
}

/// The value of the first member named `key`, if any.
pub open spec fn spec_obj_get(fields: Seq<(String, JsonValue)>, key: Seq<char>) -> Option<
    JsonValue,
>
    decreases fields.len(),
{
    if fields.len() == 0 {
        None
    } else if fields[0].0@ == key {
        Some(fields[0].1)
    } else {
        spec_obj_get(fields.skip(1), key)
    }
}

/// Field lookup on a wire value: members of an object, nothing elsewhere.
pub open spec fn spec_get_field(params: JsonValue, key: Seq<char>) -> Option<JsonValue> {
    match params {
        JsonValue::Obj(fields) => spec_obj_get(fields@, key),
        _ => None,
    }
}

/// The text of field `key` when it is present and holds a string.
pub open spec fn spec_get_str(params: JsonValue, key: Seq<char>) -> Option<Seq<char>> {
    match spec_get_field(params, key) {
        Some(JsonValue::Str(s)) => Some(s@),
        _ => None,
    }
}

/// The value of field `key` when it is present and holds a boolean.
pub open spec fn spec_get_bool(params: JsonValue, key: Seq<char>) -> Option<bool> {
    match spec_get_field(params, key) {
        Some(JsonValue::Bool(b)) => Some(b),
        _ => None,
    }
}

/// The value of field `key` when it is present and holds a number.
pub open spec fn spec_get_u64(params: JsonValue, key: Seq<char>) -> Option<u64> {
    match spec_get_field(params, key) {
        Some(JsonValue::UInt(n)) => Some(n),
        _ => None,
    }
}

/// The elements of field `key` when it is present and holds an array.
pub open spec fn spec_get_arr(params: JsonValue, key: Seq<char>) -> Option<Seq<JsonValue>> {
    match spec_get_field(params, key) {
        Some(JsonValue::Arr(items)) => Some(items@),
        _ => None,
    }
}

/// A reference to the value of the first member named `key`, if any.
pub fn get_field<'a>(params: &'a JsonValue, key: &str) -> (r: Option<&'a JsonValue>)
    ensures
        match r {
            Some(v) => spec_get_field(*params, key@) == Some(*v),
            None => spec_get_field(*params, key@).is_none(),
        },
{
    match params {
        JsonValue::Obj(fields) => {
            let n = fields.len();
            let mut i: usize = 0;
            proof {
                assert(fields@.skip(0) =~= fields@);
            }
            while i < n
                invariant
                    n == fields@.len(),
                    i <= n,
                    *params == JsonValue::Obj(*fields),
                    spec_obj_get(fields@, key@) == spec_obj_get(fields@.skip(i as int), key@),
                decreases n - i,
            {
                proof {
                    assert(fields@.skip(i as int)[0] == fields@[i as int]);
                }
                if str_eq(fields[i].0.as_str(), key) {
                    proof {
                        assert(spec_obj_get(fields@.skip(i as int), key@) == Some(
                            fields@[i as int].1,
                        ));
                    }
                    return Some(&fields[i].1);
                }
                proof {
                    assert(fields@.skip(i as int).skip(1) =~= fields@.skip(i + 1));
                }
                i += 1;
            }
            proof {
                assert(fields@.skip(n as int) =~= Seq::<(String, JsonValue)>::empty());
            }
            None
        },
        _ => None,
    }
}

/// The string field `key`, as the handlers probe for it.
pub fn get_str<'a>(params: &'a JsonValue, key: &str) -> (r: Option<&'a String>)
    ensures
        match r {
            Some(s) => spec_get_str(*params, key@) == Some(s@),
            None => spec_get_str(*params, key@).is_none(),
        },
{
    match get_field(params, key) {
        Some(JsonValue::Str(s)) => Some(s),
        _ => None,
    }
}

/// The boolean field `key`, as the handlers probe for it.
pub fn get_bool(params: &JsonValue, key: &str) -> (r: Option<bool>)
    ensures
        r == spec_get_bool(*params, key@),
{
    match get_field(params, key) {
        Some(JsonValue::Bool(b)) => Some(*b),
        _ => None,
    }
}

/// The numeric field `key`, as the handlers probe for it.
pub fn get_u64(params: &JsonValue, key: &str) -> (r: Option<u64>)
    ensures
        r == spec_get_u64(*params, key@),
{
    match get_field(params, key) {
        Some(JsonValue::UInt(n)) => Some(*n),
        _ => None,
    }
}

/// The array field `key`, as the handlers probe for it.
pub fn get_arr<'a>(params: &'a JsonValue, key: &str) -> (r: Option<&'a Vec<JsonValue>>)
    ensures
        match r {
            Some(items) => spec_get_arr(*params, key@) == Some(items@),
            None => spec_get_arr(*params, key@).is_none(),
        },
{
    match get_field(params, key) {
        Some(JsonValue::Arr(items)) => Some(items),
        _ => None,
    }
}

/// The text of field `key`, or `default` when the field is absent or not
/// a string — the handlers' `unwrap_or` probing.
pub open spec fn spec_str_or(params: JsonValue, key: Seq<char>, default: Seq<char>) -> Seq<char> {
    match spec_get_str(params, key) {
        Some(s) => s,
        None => default,
    }
}

/// The number in field `key`, or `default` when absent or not a number.
pub open spec fn spec_u64_or(params: JsonValue, key: Seq<char>, default: u64) -> u64 {
    match spec_get_u64(params, key) {
        Some(n) => n,
        None => default,
    }
}

/// The boolean in field `key`, or `default` when absent or not a boolean.
pub open spec fn spec_bool_or(params: JsonValue, key: Seq<char>, default: bool) -> bool {
    match spec_get_bool(params, key) {
        Some(b) => b,
        None => default,
    }
}

/// The string field `key`, or a copy of `default` when it is missing.
pub fn str_or(params: &JsonValue, key: &str, default: &str) -> (r: String)
    ensures
        r@ == spec_str_or(*params, key@, default@),
{
    match get_str(params, key) {
        Some(s) => s.clone(),
        None => String::from_str(default),
    }
}

/// The numeric field `key`, or `default` when it is missing.
pub fn u64_or(params: &JsonValue, key: &str, default: u64) -> (r: u64)
    ensures
        r == spec_u64_or(*params, key@, default),
{
    match get_u64(params, key) {
        Some(n) => n,
        None => default,
    }
}

/// The boolean field `key`, or `default` when it is missing.
pub fn bool_or(params: &JsonValue, key: &str, default: bool) -> (r: bool)
    ensures
        r == spec_bool_or(*params, key@, default),
{
    match get_bool(params, key) {
        Some(b) => b,
        None => default,
    }
}

} // verus!
