//! The relay's model of a parsed JSON value: what the journal-event rules
//! read of it, with the accessors those rules use, and the parse of a
//! message's text into it.
//!
//! Numbers keep the decimal parts that the JSON text gave (sign, integer
//! mantissa, decimal exponent) and their printed text; arrays and objects keep
//! their compact serialisation beside their members. An object's keys are
//! distinct, in the order in which the text first gave them.

use vstd::prelude::*;
use ::json::JsonValue;
use ::json::number::Number;
use crate::text::text_eq;

verus! {

/// A JSON number: `mantissa * 10^exponent`, negative unless `positive`,
/// with the text it prints as.
#[derive(Debug)]
pub struct JsonNumber {
    pub positive: bool,
    pub mantissa: u64,
    pub exponent: i16,
    pub text: String,
}

/// One member of a JSON object.
#[derive(Debug)]
pub struct JsonMember {
    pub key: String,
    pub value: Json,
}

/// A parsed JSON value.
#[derive(Debug)]
pub enum Json {
    Null,
    Str(String),
    Number(JsonNumber),
    Boolean(bool),
    /// The members and the compact serialisation of the array.
    Array(Vec<Json>, String),
    /// The members and the compact serialisation of the object.
    Object(Vec<JsonMember>, String),
}

/// The value of the first member named `key`, or `Null`.
pub open spec fn lookup(members: Seq<JsonMember>, key: Seq<char>) -> Json
    decreases members.len(),
{
    if members.len() == 0 {
        Json::Null
    } else if members[0].key@ == key {
        members[0].value
    } else {
        lookup(members.drop_first(), key)
    }
}

/// The text that `json` prints for a number that it parsed, with these parts:
/// its `Display`, which writes the parts as a decimal or in scientific
/// notation. The parser never makes a NaN, the one number whose text its parts
/// do not give.
pub uninterp spec fn number_text(positive: bool, mantissa: u64, exponent: i16) -> Seq<char>;

/// No two members share a key.
pub open spec fn distinct_keys(members: Seq<JsonMember>) -> bool {
    forall|i: int, j: int|
        0 <= i < j < members.len() ==> (#[trigger] members[i]).key@ != (#[trigger] members[j]).key@
}

/// In an object with distinct keys, a key reads the value of the one member
/// that has it, wherever that member stands.
pub proof fn lemma_lookup_finds_the_member(members: Seq<JsonMember>, key: Seq<char>, i: int)
    requires
        distinct_keys(members),
        0 <= i < members.len(),
        members[i].key@ == key,
    ensures
        lookup(members, key) == members[i].value,
    decreases i,
{
    if i > 0 {
        assert(members[0].key@ != members[i].key@);
        let rest = members.drop_first();
        assert(rest[i - 1] == members[i]);
        assert forall|a: int, b: int| 0 <= a < b < rest.len() implies
            (#[trigger] rest[a]).key@ != (#[trigger] rest[b]).key@ by {
            assert(rest[a] == members[a + 1] && rest[b] == members[b + 1]);
        }
        lemma_lookup_finds_the_member(rest, key, i - 1);
    }
}

/// Some member is named `key`.
pub open spec fn has_member(members: Seq<JsonMember>, key: Seq<char>) -> bool {
    exists|i: int| 0 <= i < members.len() && (#[trigger] members[i]).key@ == key
}

impl Json {
    /// A value as `json` parses it: each number's text is what `json` prints
    /// for its parts, each object has distinct keys, and so on all the way down.
    pub open spec fn wf(self) -> bool
        decreases self,
    {
        match self {
            Json::Number(n) => n.text@ == number_text(n.positive, n.mantissa, n.exponent),
            Json::Array(items, _) => forall|i: int|
                0 <= i < items.len() ==> (#[trigger] items@[i]).wf(),
            Json::Object(members, _) => {
                &&& distinct_keys(members@)
                &&& forall|i: int| 0 <= i < members.len() ==> (#[trigger] members@[i]).value.wf()
            },
            _ => true,
        }
    }

    /// `value[key]`: the member's value, `Null` when there is none or this is no object.
    pub open spec fn spec_get(self, key: Seq<char>) -> Json {
        match self {
            Json::Object(members, _) => lookup(members@, key),
            _ => Json::Null,
        }
    }

    /// `value[i]`: the element, `Null` when out of range or this is no array.
    pub open spec fn spec_at(self, i: int) -> Json {
        match self {
            Json::Array(items, _) => if 0 <= i < items.len() {
                items@[i]
            } else {
                Json::Null
            },
            _ => Json::Null,
        }
    }

    /// `as_u64`: a positive number with exponent 0.
    pub open spec fn spec_as_u64(self) -> Option<u64> {
        match self {
            Json::Number(n) => if n.positive && n.exponent == 0 {
                Some(n.mantissa)
            } else {
                None
            },
            _ => None,
        }
    }

    /// `as_u32`: `as_u64` where it fits.
    pub open spec fn spec_as_u32(self) -> Option<u32> {
        match self.spec_as_u64() {
            Some(v) => if v <= u32::MAX { Some(v as u32) } else { None },
            None => None,
        }
    }

    /// `as_u16`: `as_u64` where it fits.
    pub open spec fn spec_as_u16(self) -> Option<u16> {
        match self.spec_as_u64() {
            Some(v) => if v <= u16::MAX { Some(v as u16) } else { None },
            None => None,
        }
    }

    /// `as_u8`: `as_u64` where it fits.
    pub open spec fn spec_as_u8(self) -> Option<u8> {
        match self.spec_as_u64() {
            Some(v) => if v <= u8::MAX { Some(v as u8) } else { None },
            None => None,
        }
    }

    /// `as_bool`.
    pub open spec fn spec_as_bool(self) -> Option<bool> {
        match self {
            Json::Boolean(b) => Some(b),
            _ => None,
        }
    }

    /// `as_str`.
    pub open spec fn spec_as_str(self) -> Option<Seq<char>> {
        match self {
            Json::Str(s) => Some(s@),
            _ => None,
        }
    }

    /// `has_key`.
    pub open spec fn spec_has_key(self, key: Seq<char>) -> bool {
        match self {
            Json::Object(members, _) => has_member(members@, key),
            _ => false,
        }
    }

    /// `len`: elements of an array, members of an object, 0 otherwise.
    pub open spec fn spec_len(self) -> int {
        match self {
            Json::Array(items, _) => items.len() as int,
            Json::Object(members, _) => members.len() as int,
            _ => 0,
        }
    }

    /// `is_empty`: null, `""`, 0, `false`, `[]` and `{}`.
    pub open spec fn spec_is_empty(self) -> bool {
        match self {
            Json::Null => true,
            Json::Str(s) => s@.len() == 0,
            Json::Number(n) => n.mantissa == 0,
            Json::Boolean(b) => !b,
            Json::Array(items, _) => items.len() == 0,
            Json::Object(members, _) => members.len() == 0,
        }
    }

    /// `to_string`: a string as it is, `null`, `true`, `false`, a number's
    /// text, the serialisation of an array or object.
    pub open spec fn spec_text(self) -> Seq<char> {
        match self {
            Json::Null => seq!['n', 'u', 'l', 'l'],
            Json::Str(s) => s@,
            Json::Number(n) => n.text@,
            Json::Boolean(b) => if b {
                seq!['t', 'r', 'u', 'e']
            } else {
                seq!['f', 'a', 'l', 's', 'e']
            },
            Json::Array(_, dump) => dump@,
            Json::Object(_, dump) => dump@,
        }
    }

    /// `value[key]`.
    pub fn get<'a>(&'a self, key: &str) -> (r: &'a Json)
        requires
            self.wf(),
        ensures
            *r == self.spec_get(key@),
            r.wf(),
    {
        match self {
            Json::Object(members, _) => {
                let mut i: usize = 0;
                assert(members@.skip(0) =~= members@);
                while i < members.len()
                    invariant
                        i <= members.len(),
                        self.spec_get(key@) == lookup(members@.skip(i as int), key@),
                        forall|j: int| 0 <= j < members.len() ==> (#[trigger] members@[j]).value.wf(),
                    decreases members.len() - i,
                {
                    assert(members@.skip(i as int)[0] == members@[i as int]);
                    let m = &members[i];
                    if text_eq(m.key.as_str(), key) {
                        assert(m.key@ == key@);
                        return &m.value;
                    }
                    assert(members@.skip(i as int).drop_first() =~= members@.skip(i + 1));
                    i = i + 1;
                }
                &Json::Null
            },
            _ => &Json::Null,
        }
    }

    /// `value[i]`.
    pub fn at<'a>(&'a self, i: usize) -> (r: &'a Json)
        requires
            self.wf(),
        ensures
            *r == self.spec_at(i as int),
            r.wf(),
    {
        match self {
            Json::Array(items, _) => if i < items.len() {
                &items[i]
            } else {
                &Json::Null
            },
            _ => &Json::Null,
        }
    }

    /// `as_u64`.
    pub fn as_u64(&self) -> (r: Option<u64>)
        ensures
            r == self.spec_as_u64(),
    {
        match self {
            Json::Number(n) => if n.positive && n.exponent == 0 {
                Some(n.mantissa)
            } else {
                None
            },
            _ => None,
        }
    }

    /// `as_u32`.
    pub fn as_u32(&self) -> (r: Option<u32>)
        ensures
            r == self.spec_as_u32(),
    {
        match self.as_u64() {
            Some(v) => if v <= 4294967295u64 { Some(v as u32) } else { None },
            None => None,
        }
    }

    /// `as_u16`.
    pub fn as_u16(&self) -> (r: Option<u16>)
        ensures
            r == self.spec_as_u16(),
    {
        match self.as_u64() {
            Some(v) => if v <= 65535u64 { Some(v as u16) } else { None },
            None => None,
        }
    }

    /// `as_u8`.
    pub fn as_u8(&self) -> (r: Option<u8>)
        ensures
            r == self.spec_as_u8(),
    {
        match self.as_u64() {
            Some(v) => if v <= 255u64 { Some(v as u8) } else { None },
            None => None,
        }
    }

    /// `as_bool`.
    pub fn as_bool(&self) -> (r: Option<bool>)
        ensures
            r == self.spec_as_bool(),
    {
        match self {
            Json::Boolean(b) => Some(*b),
            _ => None,
        }
    }

    /// `as_str`.
    pub fn as_str<'a>(&'a self) -> (r: Option<&'a str>)
        ensures
            match r {
                Some(s) => self.spec_as_str() == Some(s@),
                None => self.spec_as_str() is None,
            },
    {
        match self {
            Json::Str(s) => Some(s.as_str()),
            _ => None,
        }
    }

    /// `has_key`.
    pub fn has_key(&self, key: &str) -> (r: bool)
        ensures
            r == self.spec_has_key(key@),
    {
        match self {
            Json::Object(members, _) => {
                let mut i: usize = 0;
                while i < members.len()
                    invariant
                        i <= members.len(),
                        forall|j: int| 0 <= j < i ==> (#[trigger] members@[j]).key@ != key@,
                        self.spec_has_key(key@) == has_member(members@, key@),
                    decreases members.len() - i,
                {
                    let m = &members[i];
                    if text_eq(m.key.as_str(), key) {
                        assert(members@[i as int].key@ == key@);
                        return true;
                    }
                    i = i + 1;
                }
                false
            },
            _ => false,
        }
    }

    /// `len`.
    pub fn len(&self) -> (r: usize)
        ensures
            r == self.spec_len(),
    {
        match self {
            Json::Array(items, _) => items.len(),
            Json::Object(members, _) => members.len(),
            _ => 0,
        }
    }

    /// `is_empty`.
    pub fn is_empty(&self) -> (r: bool)
        ensures
            r == self.spec_is_empty(),
    {
        match self {
            Json::Null => true,
            Json::Str(s) => s.as_str().is_empty(),
            Json::Number(n) => n.mantissa == 0,
            Json::Boolean(b) => !*b,
            Json::Array(items, _) => items.len() == 0,
            Json::Object(members, _) => members.len() == 0,
        }
    }

    /// `to_string`.
    pub fn text(&self) -> (r: String)
        ensures
            r@ == self.spec_text(),
    {
        match self {
            Json::Null => {
                let s = String::from_str("null");
                proof { reveal_strlit("null"); }
                s
            },
            Json::Str(s) => s.clone(),
            Json::Number(n) => n.text.clone(),
            Json::Boolean(b) => if *b {
                let s = String::from_str("true");
                proof { reveal_strlit("true"); }
                s
            } else {
                let s = String::from_str("false");
                proof { reveal_strlit("false"); }
                s
            },
            Json::Array(_, dump) => dump.clone(),
            Json::Object(_, dump) => dump.clone(),
        }
    }
}

/// `json`'s parsed value, carried opaquely into the conversion below.
#[verifier::external_type_specification]
#[verifier::external_body]
pub struct ExJsonValue(::json::JsonValue);

/// `json`'s number, carried opaquely into the conversion below.
#[verifier::external_type_specification]
#[verifier::external_body]
pub struct ExJsonNumber(::json::number::Number);

/// What `json::parse` makes of a text, in the library's model; `None` where
/// it refuses the text.
pub uninterp spec fn json_of_text(text: Seq<char>) -> Option<Json>;

/// `json::parse(text)`, the value converted to the library's model. The
/// contract names the result, which depends on the text alone, and claims that
/// a parsed value is well formed: `json` keeps one member per key in an object
/// and prints each number it parsed from its parts (the last clause says so of
/// a value that is itself a number). What the parser accepts and how it
/// prints arrays and objects is left to the name.
#[verifier::external_body]
pub(crate) fn parse_json(text: &str) -> (r: Option<Json>)
    ensures
        r == json_of_text(text@),
        r matches Some(j) ==> j.wf(),
        r matches Some(Json::Number(n)) ==> n.text@ == number_text(n.positive, n.mantissa, n.exponent),
{
    match ::json::parse(text) {
        Ok(value) => Some(json_model(&value)),
        Err(_) => None,
    }
}

/// The library's model of a value that `json` parsed: the same variant and
/// members, a number by its parts and printed text, an array or object with its
/// compact serialisation. Only `parse_json` converts through it.
#[verifier::external_body]
fn json_model(value: &JsonValue) -> (r: Json) {
    match value {
        JsonValue::Null => Json::Null,
        JsonValue::Short(s) => Json::Str(s.to_string()),
        JsonValue::String(s) => Json::Str(s.clone()),
        JsonValue::Number(n) => Json::Number(number_model(n)),
        JsonValue::Boolean(b) => Json::Boolean(*b),
        JsonValue::Array(items) => Json::Array(items.iter().map(json_model).collect(), value.dump()),
        JsonValue::Object(o) => Json::Object(
            o.iter().map(|(k, v)| JsonMember { key: k.to_string(), value: json_model(v) }).collect(),
            value.dump(),
        ),
    }
}

/// A number that `json` parsed: `as_parts()` and the `Display` text. Nothing
/// is claimed here: a NaN and a negative zero have the same parts and print
/// differently; `parse_json` states what holds of the numbers it gives.
#[verifier::external_body]
fn number_model(n: &Number) -> (r: JsonNumber) {
    let (positive, mantissa, exponent) = n.as_parts();
    JsonNumber { positive, mantissa, exponent, text: n.to_string() }
}

} // verus!
