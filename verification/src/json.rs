//! A JSON document as the models read it, and the lenient field decoding the
//! models use: a field that is missing or has the wrong type takes its default.

use vstd::prelude::*;

verus! {

/// A JSON number. The models only read unsigned integers, so a fractional
/// number keeps no value.
#[derive(Clone, Debug, PartialEq, Eq)]
pub enum JsonNumber {
    /// A non-negative integer.
    PosInt(u64),
    /// A negative integer.
    NegInt(i64),
    /// A number with a fraction or exponent.
    Float,
}

/// A JSON value. Object members keep their document order; a well-formed
/// document names each member once.
#[derive(Debug, PartialEq, Eq)]
pub enum Json {
    Null,
    Bool(bool),
    Number(JsonNumber),
    String(String),
    Array(Vec<Json>),
    Object(Vec<(String, Json)>),
}

/// The value of the first member named `key`.
pub open spec fn member(entries: Seq<(String, Json)>, key: Seq<char>) -> Option<Json>
    decreases entries.len(),
{
    if entries.len() == 0 {
        None
    } else if entries[0].0@ == key {
        Some(entries[0].1)
    } else {
        member(entries.drop_first(), key)
    }
}

/// `value[key]`: the member named `key` when `value` is an object, else nothing.
pub open spec fn get(value: Json, key: Seq<char>) -> Option<Json> {
    match value {
        Json::Object(entries) => member(entries@, key),
        _ => None,
    }
}

/// The slot a struct field is decoded from: the member named `name` of an
/// object, or the element at position `index` of an array.
pub open spec fn field_slot(value: Json, name: Seq<char>, index: int) -> Option<Json> {
    match value {
        Json::Object(entries) => member(entries@, name),
        Json::Array(items) => if 0 <= index < items@.len() {
            Some(items@[index])
        } else {
            None
        },
        _ => None,
    }
}

/// Whether a struct with `fields` fields can be decoded from `value`: an
/// object, or an array with no more elements than the struct has fields.
pub open spec fn decodes_as_struct(value: Json, fields: nat) -> bool {
    match value {
        Json::Object(_) => true,
        Json::Array(items) => items@.len() <= fields,
        _ => false,
    }
}

/// A string field: the text when the slot holds a string, else empty.
pub open spec fn text_or_empty(slot: Option<Json>) -> Seq<char> {
    match slot {
        Some(Json::String(s)) => s@,
        _ => Seq::empty(),
    }
}

/// An optional string field: the text when the slot holds a string, else nothing.
pub open spec fn text_or_none(slot: Option<Json>) -> Option<Seq<char>> {
    match slot {
        Some(Json::String(s)) => Some(s@),
        _ => None,
    }
}

/// A boolean field: the value when the slot holds a boolean, else `false`.
pub open spec fn flag_or_false(slot: Option<Json>) -> bool {
    match slot {
        Some(Json::Bool(b)) => b,
        _ => false,
    }
}

/// A byte field: the value when the slot holds an integer from 0 to 255, else 0.
pub open spec fn byte_or_zero(slot: Option<Json>) -> u8 {
    match slot {
        Some(Json::Number(JsonNumber::PosInt(n))) => if n <= 255 {
            n as u8
        } else {
            0
        },
        Some(Json::Number(JsonNumber::NegInt(n))) => if 0 <= n <= 255 {
            n as u8
        } else {
            0
        },
        _ => 0,
    }
}

/// The character view of an optional string.
pub open spec fn opt_text(s: Option<String>) -> Option<Seq<char>> {
    match s {
        Some(x) => Some(x@),
        None => None,
    }
}

/// The value of the first member named `key`.
pub fn member_of<'a>(entries: &'a Vec<(String, Json)>, key: &str) -> (r: Option<&'a Json>)
    ensures
        match r {
            Some(v) => member(entries@, key@) == Some(*v),
            None => member(entries@, key@) is None,
        },
{
    let mut i: usize = 0;
    assert(entries@.skip(0) =~= entries@);
    while i < entries.len()
        invariant
            i <= entries.len(),
            member(entries@, key@) == member(entries@.skip(i as int), key@),
        decreases entries.len() - i,
    {
        let ghost rest = entries@.skip(i as int);
        assert(rest[0] == entries@[i as int]);
        if entries[i].0.as_str().to_owned() == key.to_owned() {
            return Some(&entries[i].1);
        }
        assert(rest.drop_first() =~= entries@.skip(i + 1));
        i = i + 1;
    }
    assert(entries@.skip(i as int).len() == 0);
    None
}

/// `value[key]`.
pub fn get_member<'a>(value: &'a Json, key: &str) -> (r: Option<&'a Json>)
    ensures
        match r {
            Some(v) => get(*value, key@) == Some(*v),
            None => get(*value, key@) is None,
        },
{
    match value {
        Json::Object(entries) => member_of(entries, key),
        _ => None,
    }
}

/// The slot a struct field is decoded from.
pub fn field_slot_of<'a>(value: &'a Json, name: &str, index: usize) -> (r: Option<&'a Json>)
    ensures
        match r {
            Some(v) => field_slot(*value, name@, index as int) == Some(*v),
            None => field_slot(*value, name@, index as int) is None,
        },
{
    match value {
        Json::Object(entries) => member_of(entries, name),
        Json::Array(items) => if index < items.len() {
            Some(&items[index])
        } else {
            None
        },
        _ => None,
    }
}

/// The view of an optional reference, as the decoders read it.
pub open spec fn deref_opt(slot: Option<&Json>) -> Option<Json> {
    match slot {
        Some(v) => Some(*v),
        None => None,
    }
}

/// Decodes a string field leniently.
pub fn decode_text(slot: Option<&Json>) -> (s: String)
    ensures
        s@ == text_or_empty(deref_opt(slot)),
{
    match slot {
        Some(Json::String(s)) => s.clone(),
        _ => String::new(),
    }
}

/// Decodes an optional string field leniently.
pub fn decode_opt_text(slot: Option<&Json>) -> (s: Option<String>)
    ensures
        opt_text(s) == text_or_none(deref_opt(slot)),
{
    match slot {
        Some(Json::String(s)) => Some(s.clone()),
        _ => None,
    }
}

/// Decodes a boolean field leniently.
pub fn decode_flag(slot: Option<&Json>) -> (b: bool)
    ensures
        b == flag_or_false(deref_opt(slot)),
{
    match slot {
        Some(Json::Bool(b)) => *b,
        _ => false,
    }
}

/// Decodes a byte field leniently.
pub fn decode_byte(slot: Option<&Json>) -> (b: u8)
    ensures
        b == byte_or_zero(deref_opt(slot)),
{
    match slot {
        Some(Json::Number(JsonNumber::PosInt(n))) => if *n <= 255 {
            *n as u8
        } else {
            0
        },
        Some(Json::Number(JsonNumber::NegInt(n))) => if 0 <= *n && *n <= 255 {
            *n as u8
        } else {
            0
        },
        _ => 0,
    }
}

/// Whether a struct with `fields` fields can be decoded from `value`.
pub fn is_struct_like(value: &Json, fields: usize) -> (b: bool)
    ensures
        b == decodes_as_struct(*value, fields as nat),
{
    match value {
        Json::Object(_) => true,
        Json::Array(items) => items.len() <= fields,
        _ => false,
    }
}

} // verus!
