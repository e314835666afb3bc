//! A JSON value as the protocol reads it.
use vstd::prelude::*;
use vstd::string::*;
use crate::text::{all_digits, digits_value, i64_to_decimal, int_decimal, is_digit, parse_digits_bounded, str_eq};

verus! {

/// A JSON value. Numbers are kept as their literal text, as they travel on the wire.
pub enum Json {
    Null,
    Bool(bool),
    Number(String),
    Str(String),
    Array(Vec<Json>),
    Object(Vec<(String, Json)>),
}

/// The mathematical model of a JSON value.
pub enum JsonV {
    Null,
    Bool(bool),
    Number(Seq<char>),
    Str(Seq<char>),
    Array(Seq<JsonV>),
    Object(Seq<(Seq<char>, JsonV)>),
}

pub open spec fn json_view(j: &Json) -> JsonV
    decreases j,
{
    match j {
        Json::Null => JsonV::Null,
        Json::Bool(b) => JsonV::Bool(*b),
        Json::Number(s) => JsonV::Number(s@),
        Json::Str(s) => JsonV::Str(s@),
        Json::Array(v) => JsonV::Array(Seq::new(v@.len(), |i: int| {
            if 0 <= i < v@.len() { json_view(&v@[i]) } else { JsonV::Null }
        })),
        Json::Object(v) => JsonV::Object(Seq::new(v@.len(), |i: int| {
            if 0 <= i < v@.len() { (v@[i].0@, json_view(&v@[i].1)) } else { (Seq::empty(), JsonV::Null) }
        })),
    }
}

impl View for Json {
    type V = JsonV;

    open spec fn view(&self) -> JsonV {
        json_view(self)
    }
}

} // verus!

verus! {

/// The first value stored under `key` among object entries.
pub open spec fn entries_get(entries: Seq<(Seq<char>, JsonV)>, key: Seq<char>) -> Option<JsonV>
    decreases entries.len(),
{
    if entries.len() == 0 {
        None
    } else if entries[0].0 == key {
        Some(entries[0].1)
    } else {
        entries_get(entries.drop_first(), key)
    }
}

/// `Value::get` with a string key: the member of an object, nothing for any other value.
pub open spec fn spec_get(v: JsonV, key: Seq<char>) -> Option<JsonV> {
    match v {
        JsonV::Object(entries) => entries_get(entries, key),
        _ => None,
    }
}

/// `Value::as_bool`.
pub open spec fn spec_as_bool(v: JsonV) -> Option<bool> {
    match v {
        JsonV::Bool(b) => Some(b),
        _ => None,
    }
}

/// `Value::as_str`.
pub open spec fn spec_as_str(v: JsonV) -> Option<Seq<char>> {
    match v {
        JsonV::Str(s) => Some(s),
        _ => None,
    }
}

/// Digits without a superfluous leading zero, as JSON writes integers.
pub open spec fn canonical_digits(s: Seq<char>) -> bool {
    s.len() > 0 && all_digits(s) && (s[0] == '0' ==> s.len() == 1)
}

/// The integer that a JSON number text stands for when it is held as an `i64`:
/// an integer literal in range. A fraction, an exponent or `-0` make it a float.
pub open spec fn number_as_i64(s: Seq<char>) -> Option<int> {
    if canonical_digits(s) && digits_value(s) <= i64::MAX {
        Some(digits_value(s) as int)
    } else if s.len() > 1 && s[0] == '-' && canonical_digits(s.drop_first()) && s[1] != '0'
        && digits_value(s.drop_first()) <= 0x8000_0000_0000_0000 {
        Some(-(digits_value(s.drop_first()) as int))
    } else {
        None
    }
}

/// `Value::as_i64`.
pub open spec fn spec_as_i64(v: JsonV) -> Option<int> {
    match v {
        JsonV::Number(s) => number_as_i64(s),
        _ => None,
    }
}

/// A payload member read as a boolean.
pub open spec fn payload_bool(payload: Option<JsonV>, key: Seq<char>) -> Option<bool> {
    match payload {
        Some(p) => match spec_get(p, key) {
            Some(v) => spec_as_bool(v),
            None => None,
        },
        None => None,
    }
}

/// A payload member read as an `i32`: an integer that fits.
pub open spec fn payload_i32(payload: Option<JsonV>, key: Seq<char>) -> Option<i32> {
    match payload {
        Some(p) => match spec_get(p, key) {
            Some(v) => match spec_as_i64(v) {
                Some(n) => if i32::MIN <= n <= i32::MAX { Some(n as i32) } else { None },
                None => None,
            },
            None => None,
        },
        None => None,
    }
}

/// A payload member read as a string.
pub open spec fn payload_str(payload: Option<JsonV>, key: Seq<char>) -> Option<Seq<char>> {
    match payload {
        Some(p) => match spec_get(p, key) {
            Some(v) => spec_as_str(v),
            None => None,
        },
        None => None,
    }
}

/// The view of an optional JSON value.
pub open spec fn opt_view(j: Option<Json>) -> Option<JsonV> {
    match j {
        Some(v) => Some(v@),
        None => None,
    }
}

impl Json {
    /// `Value::get`: the member stored under `key` when this is an object.
    pub fn get(&self, key: &str) -> (r: Option<&Json>)
        ensures
            match r {
                Some(v) => spec_get(self@, key@) == Some(v@),
                None => spec_get(self@, key@).is_none(),
            },
    {
        match self {
            Json::Object(entries) => {
                let n = entries.len();
                let mut i: usize = 0;
                while i < n
                    invariant
                        n == entries@.len(),
                        i <= n,
                        self@ == json_view(self),
                        *self == Json::Object(*entries),
                        forall|k: int| 0 <= k < i ==> entries@[k].0@ != key@,
                    decreases n - i,
                {
                    if str_eq(entries[i].0.as_str(), key) {
                        proof {
                            lemma_entries_get_at(self@, key@, i as int);
                        }
                        return Some(&entries[i].1);
                    }
                    i = i + 1;
                }
                proof {
                    lemma_entries_get_none(self@, key@);
                }
                None
            },
            _ => None,
        }
    }

    /// `Value::as_bool`.
    pub fn as_bool(&self) -> (r: Option<bool>)
        ensures
            r == spec_as_bool(self@),
    {
        match self {
            Json::Bool(b) => Some(*b),
            _ => None,
        }
    }

    /// `Value::as_str`.
    pub fn as_str(&self) -> (r: Option<&String>)
        ensures
            match r {
                Some(s) => spec_as_str(self@) == Some(s@),
                None => spec_as_str(self@).is_none(),
            },
    {
        match self {
            Json::Str(s) => Some(s),
            _ => None,
        }
    }

    /// `Value::as_i64`.
    pub fn as_i64(&self) -> (r: Option<i64>)
        ensures
            match r {
                Some(n) => spec_as_i64(self@) == Some(n as int),
                None => spec_as_i64(self@).is_none(),
            },
    {
        match self {
            Json::Number(text) => number_text_as_i64(text.as_str()),
            _ => None,
        }
    }
}

/// The member `key` of an object is its first entry under that key.
pub proof fn lemma_entries_get_at(v: JsonV, key: Seq<char>, i: int)
    requires
        v matches JsonV::Object(entries) && 0 <= i < entries.len() && entries[i].0 == key
            && forall|k: int| 0 <= k < i ==> entries[k].0 != key,
    ensures
        spec_get(v, key) == Some(v->Object_0[i].1),
{
    let entries = v->Object_0;
    lemma_entries_get_prefix(entries, key, i);
}

proof fn lemma_entries_get_prefix(entries: Seq<(Seq<char>, JsonV)>, key: Seq<char>, i: int)
    requires
        0 <= i < entries.len(),
        entries[i].0 == key,
        forall|k: int| 0 <= k < i ==> entries[k].0 != key,
    ensures
        entries_get(entries, key) == Some(entries[i].1),
    decreases i,
{
    if i > 0 {
        let rest = entries.drop_first();
        assert forall|k: int| 0 <= k < i - 1 implies rest[k].0 != key by {
            assert(rest[k] == entries[k + 1]);
        }
        lemma_entries_get_prefix(rest, key, i - 1);
    }
}

proof fn lemma_entries_get_none(v: JsonV, key: Seq<char>)
    requires
        v matches JsonV::Object(entries) && forall|k: int| 0 <= k < entries.len() ==> entries[k].0 != key,
    ensures
        spec_get(v, key).is_none(),
{
    lemma_entries_absent(v->Object_0, key);
}

proof fn lemma_entries_absent(entries: Seq<(Seq<char>, JsonV)>, key: Seq<char>)
    requires
        forall|k: int| 0 <= k < entries.len() ==> entries[k].0 != key,
    ensures
        entries_get(entries, key).is_none(),
    decreases entries.len(),
{
    if entries.len() > 0 {
        let rest = entries.drop_first();
        assert forall|k: int| 0 <= k < rest.len() implies rest[k].0 != key by {
            assert(rest[k] == entries[k + 1]);
        }
        lemma_entries_absent(rest, key);
    }
}

/// Reads a JSON number text as an `i64`, as `Number::as_i64` does.
pub fn number_text_as_i64(s: &str) -> (r: Option<i64>)
    ensures
        match r {
            Some(n) => number_as_i64(s@) == Some(n as int),
            None => number_as_i64(s@).is_none(),
        },
{
    let n = s.unicode_len();
    if n == 0 {
        return None;
    }
    if s.get_char(0) == '-' {
        if n < 2 || s.get_char(1) == '0' {
            proof {
                if n >= 2 {
                    assert(s@.drop_first()[0] == s@[1]);
                    assert(!(canonical_digits(s@) && digits_value(s@) <= i64::MAX)) by {
                        assert(!is_digit(s@[0]));
                    }
                }
            }
            return None;
        }
        assert(s@.skip(1) =~= s@.drop_first());
        assert(!is_digit(s@[0]));
        match parse_digits_bounded(s, 1, 0x8000_0000_0000_0000u64) {
            Some(v) => {
                assert(s@.drop_first()[0] == s@[1]);
                let r: i64 = if v == 0x8000_0000_0000_0000u64 { i64::MIN } else { -(v as i64) };
                Some(r)
            },
            None => None,
        }
    } else {
        if s.get_char(0) == '0' && n > 1 {
            return None;
        }
        assert(s@.skip(0) =~= s@);
        match parse_digits_bounded(s, 0, 0x7FFF_FFFF_FFFF_FFFFu64) {
            Some(v) => Some(v as i64),
            None => {
                proof {
                    if s.len() > 1 && s@[0] == '-' {
                    }
                }
                None
            },
        }
    }
}

/// Reads `payload[key]` as a boolean.
pub fn parse_bool_payload(payload: &Option<Json>, key: &str) -> (r: Option<bool>)
    ensures
        r == payload_bool(opt_view(*payload), key@),
{
    match payload {
        Some(p) => match p.get(key) {
            Some(v) => v.as_bool(),
            None => None,
        },
        None => None,
    }
}

/// Reads `payload[key]` as an `i32`; an integer out of range reads as nothing.
pub fn parse_i32_payload(payload: &Option<Json>, key: &str) -> (r: Option<i32>)
    ensures
        r == payload_i32(opt_view(*payload), key@),
{
    match payload {
        Some(p) => match p.get(key) {
            Some(v) => match v.as_i64() {
                Some(n) => if i32::MIN as i64 <= n && n <= i32::MAX as i64 {
                    Some(n as i32)
                } else {
                    None
                },
                None => None,
            },
            None => None,
        },
        None => None,
    }
}

/// Reads `payload[key]` as an owned string.
pub fn parse_string_payload(payload: &Option<Json>, key: &str) -> (r: Option<String>)
    ensures
        match r {
            Some(s) => payload_str(opt_view(*payload), key@) == Some(s@),
            None => payload_str(opt_view(*payload), key@).is_none(),
        },
{
    match payload {
        Some(p) => match p.get(key) {
            Some(v) => match v.as_str() {
                Some(s) => Some(s.clone()),
                None => None,
            },
            None => None,
        },
        None => None,
    }
}

} // verus!

verus! {

/// A JSON string holding `s`.
pub fn json_string(s: &str) -> (r: Json)
    ensures
        r@ == JsonV::Str(s@),
{
    Json::Str(String::from_str(s))
}

/// A JSON number holding `n`, written in decimal.
pub fn json_i64(n: i64) -> (r: Json)
    ensures
        r@ == JsonV::Number(int_decimal(n as int)),
{
    Json::Number(i64_to_decimal(n))
}

/// An object with one member.
pub fn json_object1(k: &str, v: Json) -> (r: Json)
    ensures
        r@ == JsonV::Object(seq![(k@, v@)]),
{
    let entries = vec![(String::from_str(k), v)];
    let r = Json::Object(entries);
    assert(json_view(&r)->Object_0 =~= seq![(k@, v@)]);
    r
}

/// An object with two members, in this order.
pub fn json_object2(k1: &str, v1: Json, k2: &str, v2: Json) -> (r: Json)
    ensures
        r@ == JsonV::Object(seq![(k1@, v1@), (k2@, v2@)]),
{
    let entries = vec![(String::from_str(k1), v1), (String::from_str(k2), v2)];
    let r = Json::Object(entries);
    assert(json_view(&r)->Object_0 =~= seq![(k1@, v1@), (k2@, v2@)]);
    r
}

} // verus!
