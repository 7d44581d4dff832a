//! A flattened model of one JSON object: its top-level members, each reduced
//! to a scalar summary. Nested arrays and objects are marked composite; the
//! response shapes of the service only ever read scalar members.

use vstd::prelude::*;

verus! {

/// The scalar summary of one JSON value: null, a boolean, a number that fits
/// a signed 64-bit integer, any other number as its decimal text, a string,
/// or a composite (array or object).
#[derive(Debug, Clone)]
pub enum JsonVal {
    Null,
    Bool(bool),
    Int(i64),
    Num(String),
    Str(String),
    Composite,
}

/// The first member with the given name, if any.
pub open spec fn lookup_field(fields: Seq<(String, JsonVal)>, key: Seq<char>) -> Option<JsonVal>
    decreases fields.len(),
{
    if fields.len() == 0 {
        None
    } else if fields[0].0@ == key {
        Some(fields[0].1)
    } else {
        lookup_field(fields.drop_first(), key)
    }
}

proof fn lemma_lookup_skip(fields: Seq<(String, JsonVal)>, key: Seq<char>, i: int)
    requires
        0 <= i <= fields.len(),
        forall|j: int| 0 <= j < i ==> fields[j].0@ != key,
    ensures
        lookup_field(fields, key) == lookup_field(fields.skip(i), key),
    decreases i,
{
    if i == 0 {
        assert(fields.skip(0) =~= fields);
    } else {
        lemma_lookup_skip(fields, key, i - 1);
        let s = fields.skip(i - 1);
        assert(s.len() > 0);
        assert(s[0] == fields[i - 1]);
        assert(s[0].0@ != key);
        assert(lookup_field(s, key) == lookup_field(s.drop_first(), key));
        assert(s.drop_first() =~= fields.skip(i));
    }
}

/// Finds the first member named `key`.
pub fn get_field<'a>(fields: &'a Vec<(String, JsonVal)>, key: &str) -> (r: Option<&'a JsonVal>)
    ensures
        (r matches Some(v) ==> lookup_field(fields@, key@) == Some(*v)),
        (r is None ==> lookup_field(fields@, key@) is None),
{
    let owned_key = key.to_owned();
    let mut i: usize = 0;
    while i < fields.len()
        invariant
            i <= fields@.len(),
            owned_key@ == key@,
            forall|j: int| 0 <= j < i ==> fields@[j].0@ != key@,
        decreases fields@.len() - i,
    {
        let p = &fields[i];
        if p.0 == owned_key {
            proof {
                lemma_lookup_skip(fields@, key@, i as int);
                assert(fields@.skip(i as int)[0] == fields@[i as int]);
            }
            return Some(&p.1);
        }
        i = i + 1;
    }
    proof {
        lemma_lookup_skip(fields@, key@, fields@.len() as int);
        assert(fields@.skip(fields@.len() as int) =~= Seq::<(String, JsonVal)>::empty());
    }
    None
}

/// A string member: the empty string where absent, its text where a string,
/// and no value at all where present with another shape.
pub open spec fn str_field(fields: Seq<(String, JsonVal)>, key: Seq<char>) -> Option<Seq<char>> {
    match lookup_field(fields, key) {
        None => Some(Seq::empty()),
        Some(JsonVal::Str(s)) => Some(s@),
        Some(_) => None,
    }
}

/// A boolean member: `false` where absent.
pub open spec fn bool_field(fields: Seq<(String, JsonVal)>, key: Seq<char>) -> Option<bool> {
    match lookup_field(fields, key) {
        None => Some(false),
        Some(JsonVal::Bool(b)) => Some(b),
        Some(_) => None,
    }
}

/// An integer member: zero where absent.
pub open spec fn int_field(fields: Seq<(String, JsonVal)>, key: Seq<char>) -> Option<i64> {
    match lookup_field(fields, key) {
        None => Some(0),
        Some(JsonVal::Int(i)) => Some(i),
        Some(_) => None,
    }
}

/// A JSON number carried through without loss: either a number that fits a
/// signed 64-bit integer, or any other number as its decimal text.
#[derive(Debug, Clone)]
pub enum JsonNumber {
    Int(i64),
    Dec(String),
}

/// The mathematical shadow of [`JsonNumber`].
pub ghost enum JsonNumberV {
    Int(i64),
    Dec(Seq<char>),
}

impl View for JsonNumber {
    type V = JsonNumberV;

    open spec fn view(&self) -> JsonNumberV {
        match self {
            JsonNumber::Int(i) => JsonNumberV::Int(*i),
            JsonNumber::Dec(s) => JsonNumberV::Dec(s@),
        }
    }
}

/// A numeric member: zero where absent.
pub open spec fn num_field(fields: Seq<(String, JsonVal)>, key: Seq<char>) -> Option<JsonNumberV> {
    match lookup_field(fields, key) {
        None => Some(JsonNumberV::Int(0)),
        Some(JsonVal::Int(i)) => Some(JsonNumberV::Int(i)),
        Some(JsonVal::Num(s)) => Some(JsonNumberV::Dec(s@)),
        Some(_) => None,
    }
}

/// Reads a string member, with the empty string as its default.
pub fn take_str(fields: &Vec<(String, JsonVal)>, key: &str) -> (r: Option<String>)
    ensures
        (r matches Some(s) ==> str_field(fields@, key@) == Some(s@)),
        (r is None ==> str_field(fields@, key@) is None),
{
    match get_field(fields, key) {
        None => Some(String::new()),
        Some(JsonVal::Str(s)) => Some(s.clone()),
        Some(_) => None,
    }
}

/// Reads a boolean member, with `false` as its default.
pub fn take_bool(fields: &Vec<(String, JsonVal)>, key: &str) -> (r: Option<bool>)
    ensures
        (r matches Some(b) ==> bool_field(fields@, key@) == Some(b)),
        (r is None ==> bool_field(fields@, key@) is None),
{
    match get_field(fields, key) {
        None => Some(false),
        Some(JsonVal::Bool(b)) => Some(*b),
        Some(_) => None,
    }
}

/// Reads an integer member, with zero as its default.
pub fn take_int(fields: &Vec<(String, JsonVal)>, key: &str) -> (r: Option<i64>)
    ensures
        (r matches Some(i) ==> int_field(fields@, key@) == Some(i)),
        (r is None ==> int_field(fields@, key@) is None),
{
    match get_field(fields, key) {
        None => Some(0),
        Some(JsonVal::Int(i)) => Some(*i),
        Some(_) => None,
    }
}

/// Reads a numeric member, with zero as its default.
pub fn take_num(fields: &Vec<(String, JsonVal)>, key: &str) -> (r: Option<JsonNumber>)
    ensures
        (r matches Some(n) ==> num_field(fields@, key@) == Some(n@)),
        (r is None ==> num_field(fields@, key@) is None),
{
    match get_field(fields, key) {
        None => Some(JsonNumber::Int(0)),
        Some(JsonVal::Int(i)) => Some(JsonNumber::Int(*i)),
        Some(JsonVal::Num(s)) => Some(JsonNumber::Dec(s.clone())),
        Some(_) => None,
    }
}

} // verus!
