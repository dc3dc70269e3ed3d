use vstd::prelude::*;
use vstd::string::StringExecFns;

verus! {

/// A JSON document as the library models it: objects keep their bindings in
/// order, and a number is kept only when it is an integer that fits in
/// `i64` (the one numeric shape the wire schema uses); any other number is
/// recorded as `UnsupportedNumber` and rejected by the schema decoder.
#[derive(Debug, PartialEq, Eq)]
pub enum Json {
    Null,
    Bool(bool),
    Int(i64),
    UnsupportedNumber,
    Str(String),
    Arr(Vec<Json>),
    Obj(Vec<(String, Json)>),
}

/// The value bound to `name` in an object's field list: the first binding
/// whose key is exactly (case-sensitively) `name`, if any.
pub open spec fn lookup(fields: Seq<(String, Json)>, name: Seq<char>) -> Option<Json>
    decreases fields.len(),
{
    if fields.len() == 0 {
        None
    } else if fields[0].0@ == name {
        Some(fields[0].1)
    } else {
        lookup(fields.skip(1), name)
    }
}

/// Exact, case-sensitive comparison of a field name against an expected
/// wire name.
pub fn name_is(name: &String, expected: &str) -> (r: bool)
    ensures
        r == (name@ == expected@),
{
    let e = String::from_str(expected);
    *name == e
}

} // verus!
