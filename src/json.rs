//! A JSON document as the adapters read it.
use vstd::prelude::*;
use crate::text::same_text;

verus! {

/// A parsed JSON value. An object keeps its members in document order, and a
/// lookup by name finds the first member of that name; a number is kept as
/// its decimal text, since nothing here computes with it.
#[derive(Debug)]
pub enum Json {
    Null,
    Bool(bool),
    Number(String),
    Str(String),
    Array(Vec<Json>),
    Object(Vec<(String, Json)>),
}

/// The value of the first member named `key` among `members`.
pub open spec fn member_value(members: Seq<(String, Json)>, key: Seq<char>) -> Option<Json>
    decreases members.len(),
{
    if members.len() == 0 {
        None
    } else if members[0].0@ == key {
        Some(members[0].1)
    } else {
        member_value(members.drop_first(), key)
    }
}

/// The member `key` of `v`, where `v` is an object that has one.
pub open spec fn member(v: Option<Json>, key: Seq<char>) -> Option<Json> {
    match v {
        Some(Json::Object(members)) => member_value(members@, key),
        _ => None,
    }
}

/// The element at `i` of `v`, where `v` is an array that long.
pub open spec fn element(v: Option<Json>, i: int) -> Option<Json> {
    match v {
        Some(Json::Array(xs)) => if 0 <= i < xs@.len() {
            Some(xs@[i])
        } else {
            None
        },
        _ => None,
    }
}

/// The elements of `v`, where `v` is an array.
pub open spec fn elements(v: Option<Json>) -> Option<Seq<Json>> {
    match v {
        Some(Json::Array(xs)) => Some(xs@),
        _ => None,
    }
}

/// The text of `v`, where `v` is a string.
pub open spec fn text(v: Option<Json>) -> Option<Seq<char>> {
    match v {
        Some(Json::Str(s)) => Some(s@),
        _ => None,
    }
}

/// The text of `v` where `v` is a string, else `default`.
pub open spec fn text_or(v: Option<Json>, default: Seq<char>) -> Seq<char> {
    match text(v) {
        Some(t) => t,
        None => default,
    }
}

/// Reads `Some(x)` of a reference as `Some` of the value.
pub open spec fn deref(v: Option<&Json>) -> Option<Json> {
    match v {
        Some(x) => Some(*x),
        None => None,
    }
}

impl Json {
    /// The member `key` of this value, where it is an object that has one.
    pub fn member<'a>(&'a self, key: &str) -> (r: Option<&'a Json>)
        ensures
            deref(r) == member(Some(*self), key@),
    {
        match self {
            Json::Object(members) => {
                let mut i: usize = 0;
                assert(members@.subrange(0, members@.len() as int) == members@);
                while i < members.len()
                    invariant
                        i <= members@.len(),
                        member(Some(*self), key@) == member_value(members@, key@),
                        member_value(members@, key@) == member_value(
                            members@.subrange(i as int, members@.len() as int),
                            key@,
                        ),
                    decreases members@.len() - i,
                {
                    let ghost rest = members@.subrange(i as int, members@.len() as int);
                    assert(rest[0] == members@[i as int]);
                    assert(rest.drop_first() == members@.subrange(i + 1, members@.len() as int));
                    if same_text(members[i].0.as_str(), key) {
                        return Some(&members[i].1);
                    }
                    i = i + 1;
                }
                None
            },
            _ => None,
        }
    }

    /// The element at `i` of this value, where it is an array that long.
    pub fn element(&self, i: usize) -> (r: Option<&Json>)
        ensures
            deref(r) == element(Some(*self), i as int),
    {
        match self {
            Json::Array(xs) => if i < xs.len() {
                Some(&xs[i])
            } else {
                None
            },
            _ => None,
        }
    }

    /// The elements of this value, where it is an array.
    pub fn as_array(&self) -> (r: Option<&Vec<Json>>)
        ensures
            match r {
                Some(xs) => elements(Some(*self)) == Some(xs@),
                None => elements(Some(*self)) is None,
            },
    {
        match self {
            Json::Array(xs) => Some(xs),
            _ => None,
        }
    }
}

/// The text of `v` where it is a string, else a copy of `default`.
pub fn text_or_default(v: Option<&Json>, default: &str) -> (r: String)
    ensures
        r@ == text_or(deref(v), default@),
{
    match v {
        Some(Json::Str(s)) => s.clone(),
        _ => String::from_str(default),
    }
}

} // verus!
