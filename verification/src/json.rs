//! An explicit model of the JSON payloads the relay inspects.
//!
//! Inbound webhook bodies and outbound response bodies are untyped,
//! dynamically shaped JSON. The relay models them as a tagged value type with
//! checked field access, so that every field read is explicit and total:
//! a missing field is an `Option::None`, never an abort.

use vstd::prelude::*;

verus! {

/// A JSON value. Objects are field lists in document order; a lookup takes
/// the first binding of a key, so duplicate keys behave as in a map built by
/// first-wins insertion.
#[derive(Debug, PartialEq, Eq)]
pub enum Json {
    Null,
    Bool(bool),
    /// A JSON number, carrying its value when it is an integer representable
    /// as `u64` — the only way the relay ever reads a number. Any other
    /// number (negative, fractional, or too large) carries `None`.
    Num(Option<u64>),
    Str(String),
    Arr(Vec<Json>),
    Obj(Vec<(String, Json)>),
}

/// The first value bound to `key` in a field list, if any.
pub open spec fn spec_lookup(fields: Seq<(String, Json)>, key: Seq<char>) -> Option<Json>
    decreases fields.len(),
{
    if fields.len() == 0 {
        None
    } else if fields[0].0@ == key {
        Some(fields[0].1)
    } else {
        spec_lookup(fields.drop_first(), key)
    }
}

impl Json {
    /// The value at `key`, when this is an object that has the field.
    pub open spec fn spec_get(self, key: Seq<char>) -> Option<Json> {
        match self {
            Json::Obj(fields) => spec_lookup(fields@, key),
            _ => None,
        }
    }

    pub open spec fn is_object(self) -> bool {
        self matches Json::Obj(_)
    }
}

/// Relies on `str`'s `PartialEq`: two string slices are equal exactly when
/// their character sequences are equal.
#[verifier::external_body]
pub(crate) fn str_eq(a: &str, b: &str) -> (r: bool)
    ensures
        r == (a@ == b@),
{
    a == b
}

/// Borrowing lookup of `key` in a field list: the first binding, if any.
pub fn lookup_field<'a>(fields: &'a Vec<(String, Json)>, key: &str) -> (r: Option<&'a Json>)
    ensures
        match r {
            Some(v) => spec_lookup(fields@, key@) == Some(*v),
            None => spec_lookup(fields@, key@) is None,
        },
{
    let mut i: usize = 0;
    proof {
        assert(fields@.skip(0) =~= fields@);
    }
    while i < fields.len()
        invariant
            i <= fields@.len(),
            spec_lookup(fields@, key@) == spec_lookup(fields@.skip(i as int), key@),
        decreases fields@.len() - i,
    {
        proof {
            assert(fields@.skip(i as int)[0] == fields@[i as int]);
        }
        if str_eq(fields[i].0.as_str(), key) {
            return Some(&fields[i].1);
        }
        proof {
            assert(fields@.skip(i as int).drop_first() =~= fields@.skip(i as int + 1));
        }
        i = i + 1;
    }
    proof {
        assert(fields@.skip(fields@.len() as int) =~= Seq::<(String, Json)>::empty());
    }
    None
}

impl Json {
    /// Borrowing field access: the value at `key` when this is an object
    /// that has the field.
    pub fn get<'a>(&'a self, key: &str) -> (r: Option<&'a Json>)
        ensures
            match r {
                Some(v) => self.spec_get(key@) == Some(*v),
                None => self.spec_get(key@) is None,
            },
    {
        match self {
            Json::Obj(fields) => lookup_field(fields, key),
            _ => None,
        }
    }
}

/// Consuming lookup: hands out the first value bound to `key`, owned,
/// draining the field list as it goes.
pub fn take_field(fields: &mut Vec<(String, Json)>, key: &str) -> (r: Option<Json>)
    ensures
        r == spec_lookup(old(fields)@, key@),
{
    while fields.len() > 0
        invariant
            spec_lookup(old(fields)@, key@) == spec_lookup(fields@, key@),
        decreases fields@.len(),
    {
        let ghost prev = fields@;
        let pair = fields.remove(0);
        proof {
            assert(prev.remove(0) =~= prev.drop_first());
        }
        if str_eq(pair.0.as_str(), key) {
            proof {
                assert(pair == prev[0]);
                assert(spec_lookup(prev, key@) == Some(pair.1));
            }
            return Some(pair.1);
        }
    }
    None
}

/// Consuming lookup of two distinct keys in one pass: the first value bound
/// to each, owned, draining the field list as it goes.
pub fn take_two_fields(fields: &mut Vec<(String, Json)>, key1: &str, key2: &str) -> (r: (
    Option<Json>,
    Option<Json>,
))
    requires
        key1@ != key2@,
    ensures
        r.0 == spec_lookup(old(fields)@, key1@),
        r.1 == spec_lookup(old(fields)@, key2@),
{
    let ghost orig = old(fields)@;
    let mut r1: Option<Json> = None;
    let mut r2: Option<Json> = None;
    while fields.len() > 0
        invariant
            key1@ != key2@,
            match r1 {
                Some(v) => spec_lookup(orig, key1@) == Some(v),
                None => spec_lookup(orig, key1@) == spec_lookup(fields@, key1@),
            },
            match r2 {
                Some(v) => spec_lookup(orig, key2@) == Some(v),
                None => spec_lookup(orig, key2@) == spec_lookup(fields@, key2@),
            },
        decreases fields@.len(),
    {
        let ghost prev = fields@;
        let pair = fields.remove(0);
        proof {
            assert(prev.remove(0) =~= prev.drop_first());
        }
        let is1 = str_eq(pair.0.as_str(), key1);
        let is2 = str_eq(pair.0.as_str(), key2);
        if is1 && r1.is_none() {
            r1 = Some(pair.1);
        } else if is2 && r2.is_none() {
            r2 = Some(pair.1);
        }
    }
    (r1, r2)
}

} // verus!
