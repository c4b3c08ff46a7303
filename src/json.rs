//! A JSON document as plain values: what the logic reads of result files
//! and merged results.

use vstd::prelude::*;

use crate::text::same_text;

verus! {

/// A JSON value. Numbers keep the text they were written with.
#[derive(Debug)]
pub enum Json {
    Null,
    Bool(bool),
    Number(String),
    Str(String),
    Array(Vec<Json>),
    Object(Vec<(String, Json)>),
}

/// The value of the first member named `key`.
pub open spec fn lookup(fields: Seq<(String, Json)>, key: Seq<char>) -> Option<Json>
    decreases fields.len(),
{
    if fields.len() == 0 {
        None
    } else if fields[0].0@ == key {
        Some(fields[0].1)
    } else {
        lookup(fields.drop_first(), key)
    }
}

/// The value behind an optional reference.
pub open spec fn deref_opt(o: Option<&Json>) -> Option<Json> {
    match o {
        Some(v) => Some(*v),
        None => None,
    }
}

/// The member `key` of an optional object.
pub open spec fn then_field(o: Option<Json>, key: Seq<char>) -> Option<Json> {
    match o {
        Some(v) => v.field_spec(key),
        None => None,
    }
}

/// The text of an optional string value.
pub open spec fn text_of(o: Option<Json>) -> Option<Seq<char>> {
    match o {
        Some(Json::Str(s)) => Some(s@),
        _ => None,
    }
}

impl Json {
    /// The member `key` of an object; `None` for other values.
    pub open spec fn field_spec(self, key: Seq<char>) -> Option<Json> {
        match self {
            Json::Object(f) => lookup(f@, key),
            _ => None,
        }
    }

    /// The element `i` of an array; `None` for other values.
    pub open spec fn item_spec(self, i: int) -> Option<Json> {
        match self {
            Json::Array(a) => if 0 <= i < a@.len() {
                Some(a@[i])
            } else {
                None
            },
            _ => None,
        }
    }

    /// The number of elements of an array; an other value has none.
    pub open spec fn member_count(self) -> nat {
        match self {
            Json::Array(a) => a@.len(),
            _ => 0,
        }
    }

    /// The member `key` of an object.
    pub fn field(&self, key: &str) -> (r: Option<&Json>)
        ensures
            deref_opt(r) == self.field_spec(key@),
    {
        match self {
            Json::Object(fields) => {
                let n = fields.len();
                let mut i: usize = 0;
                assert(fields@.skip(0) =~= fields@);
                while i < n
                    invariant
                        i <= n,
                        n == fields@.len(),
                        lookup(fields@, key@) == lookup(fields@.skip(i as int), key@),
                        self.field_spec(key@) == lookup(fields@, key@),
                    decreases n - i,
                {
                    assert(fields@.skip(i as int)[0] == fields@[i as int]);
                    assert(fields@.skip(i as int).drop_first() =~= fields@.skip(i + 1));
                    if same_text(fields[i].0.as_str(), key) {
                        assert(lookup(fields@.skip(i as int), key@) == Some(fields@[i as int].1));
                        return Some(&fields[i].1);
                    }
                    i += 1;
                }
                None
            },
            _ => None,
        }
    }

    /// The element `i` of an array.
    pub fn item(&self, i: usize) -> (r: Option<&Json>)
        ensures
            deref_opt(r) == self.item_spec(i as int),
    {
        match self {
            Json::Array(a) => if i < a.len() {
                Some(&a[i])
            } else {
                None
            },
            _ => None,
        }
    }

    /// How many elements an array has (none for other values).
    pub fn members_len(&self) -> (r: usize)
        ensures
            r == self.member_count(),
    {
        match self {
            Json::Array(a) => a.len(),
            _ => 0,
        }
    }

    /// Whether the value is the string `s`.
    pub fn is_text(&self, s: &str) -> (r: bool)
        ensures
            r == (text_of(Some(*self)) == Some(s@)),
    {
        match self {
            Json::Str(t) => same_text(t.as_str(), s),
            _ => false,
        }
    }
}

/// The member `key` of an optional value.
pub fn opt_field<'a>(o: Option<&'a Json>, key: &str) -> (r: Option<&'a Json>)
    ensures
        deref_opt(r) == then_field(deref_opt(o), key@),
{
    match o {
        Some(v) => v.field(key),
        None => None,
    }
}

/// The text of an optional string value.
pub fn opt_text(o: Option<&Json>) -> (r: Option<&String>)
    ensures
        r matches Some(s) ==> text_of(deref_opt(o)) == Some(s@),
        r is None ==> text_of(deref_opt(o)) is None,
{
    match o {
        Some(Json::Str(s)) => Some(s),
        _ => None,
    }
}

} // verus!
