//! A model of parsed JSON values and typed reads of object fields.
use vstd::prelude::*;

verus! {

/// A parsed JSON value. Object members keep the order they were given in.
#[derive(Debug, PartialEq)]
pub enum Json {
    Null,
    Bool(bool),
    /// A number: its value when it is an integer in the range of `u64`,
    /// `None` for any other number (negative or fractional).
    Number(Option<u64>),
    Str(String),
    Array(Vec<Json>),
    Object(Vec<(String, Json)>),
}

/// The value of the first member named `key`.
pub open spec fn field(fields: Seq<(String, Json)>, key: Seq<char>) -> Option<Json>
    decreases fields.len(),
{
    if fields.len() == 0 {
        None
    } else if fields[0].0@ == key {
        Some(fields[0].1)
    } else {
        field(fields.drop_first(), key)
    }
}

/// A required string member.
pub open spec fn req_str(fields: Seq<(String, Json)>, key: Seq<char>) -> Option<String> {
    match field(fields, key) {
        Some(Json::Str(s)) => Some(s),
        _ => None,
    }
}

/// An optional string member: absent or null reads as `None`, a string as
/// `Some`, and anything else is a mismatch (the outer `None`).
pub open spec fn opt_str(fields: Seq<(String, Json)>, key: Seq<char>) -> Option<Option<String>> {
    match field(fields, key) {
        None => Some(None),
        Some(Json::Null) => Some(None),
        Some(Json::Str(s)) => Some(Some(s)),
        _ => None,
    }
}

/// A required unsigned 64-bit member.
pub open spec fn req_u64(fields: Seq<(String, Json)>, key: Seq<char>) -> Option<u64> {
    match field(fields, key) {
        Some(Json::Number(Some(n))) => Some(n),
        _ => None,
    }
}

/// An optional unsigned 32-bit member; a number out of that range is a mismatch.
pub open spec fn opt_u32(fields: Seq<(String, Json)>, key: Seq<char>) -> Option<Option<u32>> {
    match field(fields, key) {
        None => Some(None),
        Some(Json::Null) => Some(None),
        Some(Json::Number(Some(n))) => if n <= u32::MAX {
            Some(Some(n as u32))
        } else {
            None
        },
        _ => None,
    }
}

/// A required boolean member.
pub open spec fn req_bool(fields: Seq<(String, Json)>, key: Seq<char>) -> Option<bool> {
    match field(fields, key) {
        Some(Json::Bool(b)) => Some(b),
        _ => None,
    }
}

/// An optional boolean member.
pub open spec fn opt_bool(fields: Seq<(String, Json)>, key: Seq<char>) -> Option<Option<bool>> {
    match field(fields, key) {
        None => Some(None),
        Some(Json::Null) => Some(None),
        Some(Json::Bool(b)) => Some(Some(b)),
        _ => None,
    }
}

/// Finds the first member named `key`.
pub fn get_field<'a>(fields: &'a Vec<(String, Json)>, key: &str) -> (r: Option<&'a Json>)
    ensures
        match r {
            Some(j) => field(fields@, key@) == Some(*j),
            None => field(fields@, key@) is None,
        },
{
    let name = key.to_owned();
    let mut i: usize = 0;
    assert(fields@.subrange(0, fields@.len() as int) =~= fields@);
    while i < fields.len()
        invariant
            i <= fields@.len(),
            name@ == key@,
            field(fields@, key@) == field(fields@.subrange(i as int, fields@.len() as int), key@),
        decreases fields@.len() - i,
    {
        let ghost rest = fields@.subrange(i as int, fields@.len() as int);
        assert(rest.drop_first() =~= fields@.subrange(i + 1, fields@.len() as int));
        if fields[i].0 == name {
            return Some(&fields[i].1);
        }
        i = i + 1;
    }
    None
}

pub fn read_req_str(fields: &Vec<(String, Json)>, key: &str) -> (r: Option<String>)
    ensures
        r == req_str(fields@, key@),
{
    match get_field(fields, key) {
        Some(Json::Str(s)) => Some(s.clone()),
        _ => None,
    }
}

pub fn read_opt_str(fields: &Vec<(String, Json)>, key: &str) -> (r: Option<Option<String>>)
    ensures
        r == opt_str(fields@, key@),
{
    match get_field(fields, key) {
        None => Some(None),
        Some(Json::Null) => Some(None),
        Some(Json::Str(s)) => Some(Some(s.clone())),
        _ => None,
    }
}

pub fn read_req_u64(fields: &Vec<(String, Json)>, key: &str) -> (r: Option<u64>)
    ensures
        r == req_u64(fields@, key@),
{
    match get_field(fields, key) {
        Some(Json::Number(Some(n))) => Some(*n),
        _ => None,
    }
}

pub fn read_opt_u32(fields: &Vec<(String, Json)>, key: &str) -> (r: Option<Option<u32>>)
    ensures
        r == opt_u32(fields@, key@),
{
    match get_field(fields, key) {
        None => Some(None),
        Some(Json::Null) => Some(None),
        Some(Json::Number(Some(n))) => {
            if *n <= 0xffff_ffff {
                Some(Some(*n as u32))
            } else {
                None
            }
        },
        _ => None,
    }
}

pub fn read_req_bool(fields: &Vec<(String, Json)>, key: &str) -> (r: Option<bool>)
    ensures
        r == req_bool(fields@, key@),
{
    match get_field(fields, key) {
        Some(Json::Bool(b)) => Some(*b),
        _ => None,
    }
}

pub fn read_opt_bool(fields: &Vec<(String, Json)>, key: &str) -> (r: Option<Option<bool>>)
    ensures
        r == opt_bool(fields@, key@),
{
    match get_field(fields, key) {
        None => Some(None),
        Some(Json::Null) => Some(None),
        Some(Json::Bool(b)) => Some(Some(*b)),
        _ => None,
    }
}

} // verus!
