// The JSON documents that cross the plugin boundary.
use vstd::prelude::*;

use crate::text::str_eq;

verus! {

/// A JSON document, the self-describing form in which sources hand over their results.
/// Numbers that are not non-negative integers within 64 bits are kept only as `OtherNumber`.
#[derive(Debug, PartialEq, Eq)]
pub enum Json {
    Null,
    Bool(bool),
    Number(u64),
    OtherNumber,
    Str(String),
    Array(Vec<Json>),
    Object(Vec<(String, Json)>),
}

/// Whether entry `i` is the first entry of `fs` whose key is `k`.
pub open spec fn is_first_key(fs: Seq<(String, Json)>, k: Seq<char>, i: int) -> bool {
    &&& 0 <= i < fs.len()
    &&& fs[i].0@ == k
    &&& forall|j: int| 0 <= j < i ==> fs[j].0@ != k
}

/// The value of the first entry of an object whose key is `k`.
pub open spec fn field(fs: Seq<(String, Json)>, k: Seq<char>) -> Option<Json> {
    if exists|i: int| is_first_key(fs, k, i) {
        Some(fs[choose|i: int| is_first_key(fs, k, i)].1)
    } else {
        None
    }
}

/// The characters of a JSON string, if `j` is one.
pub open spec fn as_str(j: Option<Json>) -> Option<Seq<char>> {
    match j {
        Some(Json::Str(s)) => Some(s@),
        _ => None,
    }
}

/// Looks up the first entry of an object whose key is `k`.
pub fn get_field<'a>(fs: &'a Vec<(String, Json)>, k: &str) -> (r: Option<&'a Json>)
    ensures
        match r {
            Some(j) => field(fs@, k@) == Some(*j),
            None => field(fs@, k@) is None,
        },
{
    let mut i: usize = 0;
    while i < fs.len()
        invariant
            i <= fs@.len(),
            forall|j: int| 0 <= j < i ==> fs@[j].0@ != k@,
        decreases fs@.len() - i,
    {
        if str_eq(fs[i].0.as_str(), k) {
            assert(is_first_key(fs@, k@, i as int));
            assert forall|x: int| is_first_key(fs@, k@, x) implies x == i by {
                if x < i {
                } else if x > i {
                    assert(fs@[i as int].0@ == k@);
                }
            }
            return Some(&fs[i].1);
        }
        i = i + 1;
    }
    assert(!exists|x: int| is_first_key(fs@, k@, x));
    None
}

/// Looks up a string entry of an object.
pub fn get_str_field<'a>(fs: &'a Vec<(String, Json)>, k: &str) -> (r: Option<&'a String>)
    ensures
        match r {
            Some(s) => as_str(field(fs@, k@)) == Some(s@),
            None => as_str(field(fs@, k@)) is None,
        },
{
    match get_field(fs, k) {
        Some(Json::Str(s)) => Some(s),
        _ => None,
    }
}

} // verus!
