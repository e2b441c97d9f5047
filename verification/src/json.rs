//! JSON values as the Deezer APIs answer them, and the lookups that the
//! response readers use.

use vstd::prelude::*;
use crate::text::dec;
use crate::offline::str_eq;

verus! {

/// A JSON number.
#[derive(Debug)]
pub enum JsonNumber {
    /// A non-negative integer.
    PosInt(u64),
    /// A negative integer.
    NegInt(i64),
    /// Any other number, by its shortest decimal text.
    Float(String),
}

/// A JSON value. Object entries keep their order; keys are distinct.
#[derive(Debug)]
pub enum Json {
    Null,
    Bool(bool),
    Number(JsonNumber),
    Str(String),
    Array(Vec<Json>),
    Object(Vec<(String, Json)>),
}

/// The value of the first entry with key `key`.
pub open spec fn entries_get(entries: Seq<(String, Json)>, key: Seq<char>) -> Option<Json>
    decreases entries.len(),
{
    if entries.len() == 0 {
        None
    } else if entries[0].0@ == key {
        Some(entries[0].1)
    } else {
        entries_get(entries.drop_first(), key)
    }
}

/// `v[key]` of an object, `None` for a missing key or another kind of value.
pub open spec fn json_get(v: Json, key: Seq<char>) -> Option<Json> {
    match v {
        Json::Object(entries) => entries_get(entries@, key),
        _ => None,
    }
}

/// `v[i]` of an array.
pub open spec fn json_at(v: Json, i: int) -> Option<Json> {
    match v {
        Json::Array(items) => if 0 <= i < items@.len() { Some(items@[i]) } else { None },
        _ => None,
    }
}

/// `as_u64`: a non-negative integer.
pub open spec fn json_u64(v: Option<Json>) -> Option<u64> {
    match v {
        Some(Json::Number(JsonNumber::PosInt(n))) => Some(n),
        _ => None,
    }
}

/// `as_str`: a string's text.
pub open spec fn json_str(v: Option<Json>) -> Option<Seq<char>> {
    match v {
        Some(Json::Str(s)) => Some(s@),
        _ => None,
    }
}

/// `as_array`: an array's items.
pub open spec fn json_array(v: Option<Json>) -> Option<Seq<Json>> {
    match v {
        Some(Json::Array(items)) => Some(items@),
        _ => None,
    }
}

/// The text of a string field, or the empty text.
pub open spec fn str_field(v: Json, key: Seq<char>) -> Seq<char> {
    match json_str(json_get(v, key)) {
        Some(s) => s,
        None => seq![],
    }
}

/// A non-negative integer field, or 0.
pub open spec fn u64_field(v: Json, key: Seq<char>) -> u64 {
    match json_u64(json_get(v, key)) {
        Some(n) => n,
        None => 0,
    }
}

/// The decimal text of the `id` field, when it is a non-negative integer.
pub open spec fn id_field(v: Json) -> Option<Seq<char>> {
    match json_u64(json_get(v, "id"@)) {
        Some(n) => Some(dec(n as nat)),
        None => None,
    }
}

/// The text of `v[outer][inner]`, or the empty text.
pub open spec fn nested_str_field(v: Json, outer: Seq<char>, inner: Seq<char>) -> Seq<char> {
    match json_get(v, outer) {
        Some(o) => str_field(o, inner),
        None => seq![],
    }
}

impl Json {
    /// `self[key]` of an object.
    pub fn get(&self, key: &str) -> (r: Option<&Json>)
        ensures
            r is Some == json_get(*self, key@) is Some,
            r is Some ==> *r->0 == json_get(*self, key@)->0,
    {
        match self {
            Json::Object(entries) => {
                let n = entries.len();
                let mut i: usize = 0;
                assert(entries@.skip(0) =~= entries@);
                while i < n
                    invariant
                        n == entries@.len(),
                        i <= n,
                        json_get(*self, key@) == entries_get(entries@, key@),
                        entries_get(entries@, key@) == entries_get(entries@.skip(i as int), key@),
                    decreases n - i,
                {
                    proof {
                        let rest = entries@.skip(i as int);
                        assert(rest[0] == entries@[i as int]);
                        assert(rest.drop_first() =~= entries@.skip(i + 1));
                    }
                    if str_eq(entries[i].0.as_str(), key) {
                        return Some(&entries[i].1);
                    }
                    i += 1;
                }
                None
            }
            _ => None,
        }
    }

    /// `self[i]` of an array.
    pub fn at(&self, i: usize) -> (r: Option<&Json>)
        ensures
            r is Some == json_at(*self, i as int) is Some,
            r is Some ==> *r->0 == json_at(*self, i as int)->0,
    {
        match self {
            Json::Array(items) => if i < items.len() { Some(&items[i]) } else { None },
            _ => None,
        }
    }

    pub fn as_u64(&self) -> (r: Option<u64>)
        ensures
            r == json_u64(Some(*self)),
    {
        match self {
            Json::Number(JsonNumber::PosInt(n)) => Some(*n),
            _ => None,
        }
    }

    pub fn as_str(&self) -> (r: Option<&str>)
        ensures
            r is Some == json_str(Some(*self)) is Some,
            r is Some ==> r->0@ == json_str(Some(*self))->0,
    {
        match self {
            Json::Str(s) => Some(s.as_str()),
            _ => None,
        }
    }

    pub fn as_array(&self) -> (r: Option<&Vec<Json>>)
        ensures
            r is Some == json_array(Some(*self)) is Some,
            r is Some ==> r->0@ == json_array(Some(*self))->0,
    {
        match self {
            Json::Array(items) => Some(items),
            _ => None,
        }
    }

    /// An object without entries.
    pub fn is_empty_object(&self) -> (b: bool)
        ensures
            b == (*self matches Json::Object(e) && e@.len() == 0),
    {
        match self {
            Json::Object(e) => e.len() == 0,
            _ => false,
        }
    }
}

pub fn get_str<'a>(v: &'a Json, key: &str) -> (r: &'a str)
    ensures
        r@ == str_field(*v, key@),
{
    proof { reveal_strlit(""); }
    match v.get(key) {
        Some(x) => match x.as_str() {
            Some(s) => s,
            None => "",
        },
        None => "",
    }
}

pub fn get_u64(v: &Json, key: &str) -> (r: u64)
    ensures
        r == u64_field(*v, key@),
{
    match v.get(key) {
        Some(x) => match x.as_u64() {
            Some(n) => n,
            None => 0,
        },
        None => 0,
    }
}

pub fn get_nested_str<'a>(v: &'a Json, outer: &str, inner: &str) -> (r: &'a str)
    ensures
        r@ == nested_str_field(*v, outer@, inner@),
{
    proof { reveal_strlit(""); }
    match v.get(outer) {
        Some(o) => get_str(o, inner),
        None => "",
    }
}

pub fn get_id(v: &Json) -> (r: Option<String>)
    ensures
        r is Some == id_field(*v) is Some,
        r is Some ==> r->0@ == id_field(*v)->0,
{
    proof { reveal_strlit("id"); }
    match v.get("id") {
        Some(x) => match x.as_u64() {
            Some(n) => Some(crate::text::u64_to_string(n)),
            None => None,
        },
        None => None,
    }
}

} // verus!
