//! JSON values as the pending configuration changes carry them: the shape of
//! `serde_json::Value`, with the float of a number left to the caller.
use vstd::prelude::*;
use crate::text::eq_lit;

verus! {

/// A JSON number: a non-negative integer, a negative integer, or a float.
#[derive(Clone, Copy)]
pub enum JsonNumber<F> {
    PosInt(u64),
    NegInt(i64),
    Float(F),
}

/// A JSON value; an object lists its entries in order, each key once.
pub enum Json<F> {
    Null,
    Bool(bool),
    Number(JsonNumber<F>),
    String(String),
    Array(Vec<Json<F>>),
    Object(Vec<(String, Json<F>)>),
}

/// The entry of `key` in an object's entries, if any.
pub open spec fn entry_of<F>(entries: Seq<(String, Json<F>)>, key: Seq<char>) -> Option<Json<F>>
    decreases entries.len(),
{
    if entries.len() == 0 {
        None
    } else if entries[0].0@ == key {
        Some(entries[0].1)
    } else {
        entry_of(entries.drop_first(), key)
    }
}

/// The value of `key` in `v`, when `v` is an object that has it.
pub open spec fn field_of<F>(v: Json<F>, key: Seq<char>) -> Option<Json<F>> {
    match v {
        Json::Object(entries) => entry_of(entries@, key),
        _ => None,
    }
}

/// `serde_json::Value::as_u64`.
pub open spec fn as_u64<F>(v: Json<F>) -> Option<u64> {
    match v {
        Json::Number(JsonNumber::PosInt(u)) => Some(u),
        _ => None,
    }
}

/// `serde_json::Value::as_i64`.
pub open spec fn as_i64<F>(v: Json<F>) -> Option<i64> {
    match v {
        Json::Number(JsonNumber::PosInt(u)) => if u <= i64::MAX {
            Some(u as i64)
        } else {
            None
        },
        Json::Number(JsonNumber::NegInt(i)) => Some(i),
        _ => None,
    }
}

/// `serde_json::Value::as_bool`.
pub open spec fn as_bool<F>(v: Json<F>) -> Option<bool> {
    match v {
        Json::Bool(b) => Some(b),
        _ => None,
    }
}

/// The text of `v`, when it is a string.
pub open spec fn as_text<F>(v: Json<F>) -> Option<String> {
    match v {
        Json::String(s) => Some(s),
        _ => None,
    }
}

impl<F: Copy> Json<F> {
    /// The value of `key`, when this is an object that has it.
    pub fn get(&self, key: &str) -> (r: Option<&Json<F>>)
        ensures
            match r {
                Some(x) => field_of(*self, key@) == Some(*x),
                None => field_of(*self, key@) is None,
            },
    {
        match self {
            Json::Object(entries) => {
                let mut i: usize = 0;
                assert(entries@.skip(0) =~= entries@);
                while i < entries.len()
                    invariant
                        i <= entries@.len(),
                        field_of(*self, key@) == entry_of(entries@.skip(i as int), key@),
                    decreases entries@.len() - i,
                {
                    assert(entries@.skip(i as int).drop_first() =~= entries@.skip(i + 1));
                    let k = crate::text::chars_of(entries[i].0.as_str());
                    assert(entries@.skip(i as int)[0] == entries@[i as int]);
                    if eq_lit(&k, key) {
                        assert(entries@.skip(i as int)[0].0@ == key@);
                        return Some(&entries[i].1);
                    }
                    i = i + 1;
                }
                None
            },
            _ => None,
        }
    }

    /// `serde_json::Value::as_u64`.
    pub fn as_u64(&self) -> (r: Option<u64>)
        ensures
            r == as_u64(*self),
    {
        match self {
            Json::Number(JsonNumber::PosInt(u)) => Some(*u),
            _ => None,
        }
    }

    /// `serde_json::Value::as_i64`.
    pub fn as_i64(&self) -> (r: Option<i64>)
        ensures
            r == as_i64(*self),
    {
        match self {
            Json::Number(JsonNumber::PosInt(u)) => if *u <= 0x7fff_ffff_ffff_ffff {
                Some(*u as i64)
            } else {
                None
            },
            Json::Number(JsonNumber::NegInt(i)) => Some(*i),
            _ => None,
        }
    }

    /// `serde_json::Value::as_bool`.
    pub fn as_bool(&self) -> (r: Option<bool>)
        ensures
            r == as_bool(*self),
    {
        match self {
            Json::Bool(b) => Some(*b),
            _ => None,
        }
    }

    /// `serde_json::Value::as_str`.
    pub fn as_str(&self) -> (r: Option<&str>)
        ensures
            match r {
                Some(s) => as_text(*self) matches Some(t) && s@ == t@,
                None => as_text(*self) is None,
            },
    {
        match self {
            Json::String(s) => Some(s.as_str()),
            _ => None,
        }
    }

    /// A copy of the text, when this is a string.
    pub fn text(&self) -> (r: Option<String>)
        ensures
            r == as_text(*self),
    {
        match self {
            Json::String(s) => Some(s.clone()),
            _ => None,
        }
    }

    /// The number, when this is one.
    pub fn as_number(&self) -> (r: Option<JsonNumber<F>>)
        ensures
            match *self {
                Json::Number(n) => r == Some(n),
                _ => r is None,
            },
    {
        match self {
            Json::Number(n) => Some(*n),
            _ => None,
        }
    }
}

} // verus!
