//! JSON documents as plain data.
//!
//! Parsing is left to `serde_json`; what it returns is copied into [`Json`],
//! a tree of this crate's own, so that the readers below and every decoder
//! built on them are ordinary verified code.

use vstd::prelude::*;
use serde_json::Value;
use crate::binary64::Binary64;
use crate::text::str_eq;

verus! {

/// A JSON number, kept as the three readings that its parser offers.
///
/// `unsigned` is there for an integer from 0 up, `signed` for an integer that
/// fits 64 bits with sign, `binary64` for the number read as floating point.
#[derive(Clone, Copy, Debug, PartialEq, Eq)]
pub struct Number {
    pub unsigned: Option<u64>,
    pub signed: Option<i64>,
    pub binary64: Option<Binary64>,
}

/// A JSON document. An object is the list of its members, in the order in
/// which the parser hands them out; a name is looked up from the front.
#[derive(Debug, PartialEq, Eq)]
pub enum Json {
    Null,
    Bool(bool),
    Number(Number),
    Text(String),
    Array(Vec<Json>),
    Object(Vec<(String, Json)>),
}

/// The mathematical value of a [`Json`].
pub enum JsonValue {
    Null,
    Bool(bool),
    Number(Number),
    Text(Seq<char>),
    Array(Seq<JsonValue>),
    Object(Seq<(Seq<char>, JsonValue)>),
}

/// The mathematical value of a document: strings by their characters,
/// arrays and objects element by element.
pub open spec fn value_of(json: Json) -> JsonValue
    decreases json,
{
    match json {
        Json::Null => JsonValue::Null,
        Json::Bool(b) => JsonValue::Bool(b),
        Json::Number(n) => JsonValue::Number(n),
        Json::Text(s) => JsonValue::Text(s@),
        Json::Array(items) => JsonValue::Array(
            Seq::new(
                items@.len(),
                |i: int|
                    if 0 <= i < items@.len() {
                        value_of(items@[i])
                    } else {
                        JsonValue::Null
                    },
            ),
        ),
        Json::Object(members) => JsonValue::Object(
            Seq::new(
                members@.len(),
                |i: int|
                    if 0 <= i < members@.len() {
                        (members@[i].0@, value_of(members@[i].1))
                    } else {
                        (Seq::empty(), JsonValue::Null)
                    },
            ),
        ),
    }
}

impl View for Json {
    type V = JsonValue;

    open spec fn view(&self) -> JsonValue {
        value_of(*self)
    }
}

/// The value of the first member named `key`, if there is one.
pub open spec fn lookup(members: Seq<(Seq<char>, JsonValue)>, key: Seq<char>) -> Option<JsonValue>
    decreases members.len(),
{
    if members.len() == 0 {
        None
    } else if members[0].0 == key {
        Some(members[0].1)
    } else {
        lookup(members.skip(1), key)
    }
}

impl JsonValue {
    /// The member `key` of an object; `None` for a missing member and for
    /// anything that is not an object.
    pub open spec fn member(self, key: Seq<char>) -> Option<JsonValue> {
        match self {
            JsonValue::Object(members) => lookup(members, key),
            _ => None,
        }
    }

    /// The first element of an array; `None` for an empty array and for
    /// anything that is not an array.
    pub open spec fn first_item(self) -> Option<JsonValue> {
        match self {
            JsonValue::Array(items) => if items.len() > 0 {
                Some(items[0])
            } else {
                None
            },
            _ => None,
        }
    }

    /// The characters of a string.
    pub open spec fn text(self) -> Option<Seq<char>> {
        match self {
            JsonValue::Text(s) => Some(s),
            _ => None,
        }
    }

    /// The truth value of a boolean.
    pub open spec fn flag(self) -> Option<bool> {
        match self {
            JsonValue::Bool(b) => Some(b),
            _ => None,
        }
    }

    /// A number that is a non-negative integer below 2^64.
    pub open spec fn unsigned(self) -> Option<u64> {
        match self {
            JsonValue::Number(n) => n.unsigned,
            _ => None,
        }
    }

    /// A number that is an integer of 32 bits with sign.
    pub open spec fn int32(self) -> Option<i32> {
        match self {
            JsonValue::Number(n) => match n.signed {
                Some(i) => if i32::MIN <= i <= i32::MAX {
                    Some(i as i32)
                } else {
                    None
                },
                None => None,
            },
            _ => None,
        }
    }

    /// Any number, in its floating-point reading.
    pub open spec fn binary64(self) -> Option<Binary64> {
        match self {
            JsonValue::Number(n) => n.binary64,
            _ => None,
        }
    }
}

impl JsonValue {
    /// The string held by the member `key`.
    pub open spec fn text_at(self, key: Seq<char>) -> Option<Seq<char>> {
        match self.member(key) {
            Some(v) => v.text(),
            None => None,
        }
    }

    /// The boolean held by the member `key`.
    pub open spec fn flag_at(self, key: Seq<char>) -> Option<bool> {
        match self.member(key) {
            Some(v) => v.flag(),
            None => None,
        }
    }

    /// The unsigned integer held by the member `key`.
    pub open spec fn unsigned_at(self, key: Seq<char>) -> Option<u64> {
        match self.member(key) {
            Some(v) => v.unsigned(),
            None => None,
        }
    }

    /// The 32-bit integer held by the member `key`.
    pub open spec fn int32_at(self, key: Seq<char>) -> Option<i32> {
        match self.member(key) {
            Some(v) => v.int32(),
            None => None,
        }
    }

    /// The floating-point reading of the number held by the member `key`.
    pub open spec fn binary64_at(self, key: Seq<char>) -> Option<Binary64> {
        match self.member(key) {
            Some(v) => v.binary64(),
            None => None,
        }
    }
}

impl Json {
    /// Looks up a member of an object by name.
    pub fn get(&self, key: &str) -> (r: Option<&Json>)
        ensures
            match r {
                Some(j) => self@.member(key@) == Some(j@),
                None => self@.member(key@) is None,
            },
    {
        match self {
            Json::Object(members) => {
                let ghost all = self@->Object_0;
                assert(all.skip(0) =~= all);
                let mut i: usize = 0;
                while i < members.len()
                    invariant
                        i <= members@.len(),
                        all.len() == members@.len(),
                        forall|k: int|
                            0 <= k < all.len() ==> all[k] == (
                                #[trigger] members@[k].0@,
                                members@[k].1@,
                            ),
                        self@.member(key@) == lookup(all.skip(i as int), key@),
                    decreases members@.len() - i,
                {
                    let ghost rest = all.skip(i as int);
                    if str_eq(members[i].0.as_str(), key) {
                        return Some(&members[i].1);
                    }
                    assert(rest.skip(1) =~= all.skip(i + 1));
                    i += 1;
                }
                None
            },
            _ => None,
        }
    }

    /// The first element of an array.
    pub fn first(&self) -> (r: Option<&Json>)
        ensures
            match r {
                Some(j) => self@.first_item() == Some(j@),
                None => self@.first_item() is None,
            },
    {
        match self {
            Json::Array(items) => {
                if items.len() > 0 {
                    Some(&items[0])
                } else {
                    None
                }
            },
            _ => None,
        }
    }

    /// Whether this is an object.
    pub fn is_object(&self) -> (r: bool)
        ensures
            r == (self@ is Object),
    {
        match self {
            Json::Object(_) => true,
            _ => false,
        }
    }

    /// The characters of a string.
    pub fn as_str(&self) -> (r: Option<&str>)
        ensures
            match r {
                Some(s) => self@.text() == Some(s@),
                None => self@.text() is None,
            },
    {
        match self {
            Json::Text(s) => Some(s.as_str()),
            _ => None,
        }
    }

    /// The truth value of a boolean.
    pub fn as_bool(&self) -> (r: Option<bool>)
        ensures
            r == self@.flag(),
    {
        match self {
            Json::Bool(b) => Some(*b),
            _ => None,
        }
    }

    /// A number that is a non-negative integer below 2^64.
    pub fn as_u64(&self) -> (r: Option<u64>)
        ensures
            r == self@.unsigned(),
    {
        match self {
            Json::Number(n) => n.unsigned,
            _ => None,
        }
    }

    /// A number that is an integer of 32 bits with sign.
    pub fn as_i32(&self) -> (r: Option<i32>)
        ensures
            r == self@.int32(),
    {
        match self {
            Json::Number(n) => match n.signed {
                Some(i) => if -2147483648 <= i && i <= 2147483647 {
                    Some(i as i32)
                } else {
                    None
                },
                None => None,
            },
            _ => None,
        }
    }

    /// Any number, in its floating-point reading.
    pub fn as_binary64(&self) -> (r: Option<Binary64>)
        ensures
            r == self@.binary64(),
    {
        match self {
            Json::Number(n) => n.binary64,
            _ => None,
        }
    }
}

impl Json {
    /// The string held by the member `key`.
    pub fn text_at(&self, key: &str) -> (r: Option<&str>)
        ensures
            match r {
                Some(s) => self@.text_at(key@) == Some(s@),
                None => self@.text_at(key@) is None,
            },
    {
        match self.get(key) {
            Some(v) => v.as_str(),
            None => None,
        }
    }

    /// The boolean held by the member `key`.
    pub fn flag_at(&self, key: &str) -> (r: Option<bool>)
        ensures
            r == self@.flag_at(key@),
    {
        match self.get(key) {
            Some(v) => v.as_bool(),
            None => None,
        }
    }

    /// The unsigned integer held by the member `key`.
    pub fn unsigned_at(&self, key: &str) -> (r: Option<u64>)
        ensures
            r == self@.unsigned_at(key@),
    {
        match self.get(key) {
            Some(v) => v.as_u64(),
            None => None,
        }
    }

    /// The 32-bit integer held by the member `key`.
    pub fn int32_at(&self, key: &str) -> (r: Option<i32>)
        ensures
            r == self@.int32_at(key@),
    {
        match self.get(key) {
            Some(v) => v.as_i32(),
            None => None,
        }
    }

    /// The floating-point reading of the number held by the member `key`.
    pub fn binary64_at(&self, key: &str) -> (r: Option<Binary64>)
        ensures
            r == self@.binary64_at(key@),
    {
        match self.get(key) {
            Some(v) => v.as_binary64(),
            None => None,
        }
    }
}

/// `serde_json::Value`, opaque here: it is only carried from the parser to
/// [`json_of`].
#[verifier::external_type_specification]
#[verifier::external_body]
pub struct ExValue(serde_json::Value);

/// `serde_json::Error`, opaque here: why a text was refused is not looked at.
#[verifier::external_type_specification]
#[verifier::external_body]
pub struct ExSyntaxError(serde_json::Error);

/// The document that `serde_json` reads from a text, `None` where it reports
/// an error.
pub uninterp spec fn document(bytes: Seq<u8>) -> Option<JsonValue>;

/// The document that a `serde_json::Value` holds.
pub uninterp spec fn held(value: serde_json::Value) -> JsonValue;

/// `serde_json::from_slice`, asked for a `Value`. Trusted: it succeeds exactly
/// on the texts that have a [`document`], and what it returns holds that
/// document.
#[verifier::external_body]
fn value_from_slice(bytes: &[u8]) -> (r: Result<serde_json::Value, serde_json::Error>)
    ensures
        match r {
            Ok(value) => document(bytes@) == Some(held(value)),
            Err(_) => document(bytes@) is None,
        },
{
    serde_json::from_slice::<Value>(bytes)
}

/// Copies a `serde_json::Value` into a [`Json`], variant by variant, a number
/// by `Number::as_u64`, `as_i64` and `as_f64`. Trusted: the copy has the value
/// that the `Value` [`held`].
#[verifier::external_body]
fn json_of(value: &serde_json::Value) -> (json: Json)
    ensures
        json@ == held(*value),
{
    match value {
        Value::Null => Json::Null,
        Value::Bool(b) => Json::Bool(*b),
        Value::Number(n) => Json::Number(
            Number {
                unsigned: n.as_u64(),
                signed: n.as_i64(),
                binary64: n.as_f64().map(|x| Binary64 { bits: x.to_bits() }),
            },
        ),
        Value::String(s) => Json::Text(s.clone()),
        Value::Array(items) => Json::Array(items.iter().map(json_of).collect()),
        Value::Object(map) => Json::Object(map.iter().map(|(k, v)| (k.clone(), json_of(v))).collect()),
    }
}

impl Json {
    /// Reads a JSON text.
    ///
    /// Succeeds exactly on the texts that `serde_json` accepts, with the
    /// document it reads from them.
    pub fn parse(bytes: &[u8]) -> (r: Option<Json>)
        ensures
            match r {
                Some(json) => document(bytes@) == Some(json@),
                None => document(bytes@) is None,
            },
    {
        match value_from_slice(bytes) {
            Ok(value) => Some(json_of(&value)),
            Err(_) => None,
        }
    }
}

} // verus!
