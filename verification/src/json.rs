//! Structured values: what this library reads from and writes to a value of
//! `serde_json`. Nothing here is proved; each item says what it takes from
//! `serde_json` on trust.

use vstd::prelude::*;
use serde_json::Value;

verus! {

/// A structured value of `serde_json`. Nothing of its inside is known to the
/// proofs: contracts speak of it through the four functions below.
#[verifier::external_type_specification]
#[verifier::external_body]
pub struct ExValue(serde_json::Value);

/// What a structured value holds under a key: the member of that name where
/// the value is an object that has one, `None` otherwise.
pub uninterp spec fn json_member(v: Value, key: Seq<char>) -> Option<Value>;

/// The boolean that a structured value is, `None` where it is anything else.
pub uninterp spec fn json_bool(v: Value) -> Option<bool>;

/// The number that a structured value is, where it is a whole number from 0
/// to 2^64 - 1; `None` where it is anything else.
pub uninterp spec fn json_u64(v: Value) -> Option<u64>;

/// The elements of a structured value, where it is an array; `None` where it
/// is anything else.
pub uninterp spec fn json_array(v: Value) -> Option<Seq<Value>>;

/// Whether a structured value is the null value, as `serde_json::Value::is_null`
/// tells.
pub uninterp spec fn json_null(v: Value) -> bool;

/// `serde_json::Value::get` with a string key: a reference to the member of
/// that name if the value is an object that has one.
#[verifier::external_body]
pub(crate) fn member<'a>(v: &'a Value, key: &str) -> (r: Option<&'a Value>)
    ensures
        r is Some <==> json_member(*v, key@) is Some,
        r matches Some(m) ==> json_member(*v, key@) == Some(*m),
{
    v.get(key)
}

/// `serde_json::Value::as_bool`: the boolean if the value is one.
#[verifier::external_body]
pub(crate) fn bool_of(v: &Value) -> (r: Option<bool>)
    ensures
        r == json_bool(*v),
{
    v.as_bool()
}

/// `serde_json::Value::as_u64`: the number if the value is a whole number
/// that fits in 64 bits without a sign.
#[verifier::external_body]
pub(crate) fn u64_of(v: &Value) -> (r: Option<u64>)
    ensures
        r == json_u64(*v),
{
    v.as_u64()
}

/// `serde_json::Value::as_array`: the elements if the value is an array.
#[verifier::external_body]
pub(crate) fn elements_of<'a>(v: &'a Value) -> (r: Option<&'a Vec<Value>>)
    ensures
        r is Some <==> json_array(*v) is Some,
        r matches Some(elements) ==> json_array(*v) == Some(elements@),
{
    v.as_array()
}

/// `serde_json::Value::from` on a `bool`: the value that is this boolean.
#[verifier::external_body]
pub(crate) fn bool_value(b: bool) -> (v: Value)
    ensures
        json_bool(v) == Some(b),
{
    Value::from(b)
}

/// `serde_json::Value::default`: the null value, which is no boolean and has
/// no members.
#[verifier::external_body]
pub(crate) fn null_value() -> (v: Value)
    ensures
        json_null(v),
        json_bool(v) is None,
        forall|key: Seq<char>| json_member(v, key) is None,
{
    Value::default()
}

/// `serde_json::Value::from` on a `u64`: the value that is this number.
#[verifier::external_body]
pub(crate) fn number_value(n: u64) -> (v: Value)
    ensures
        json_u64(v) == Some(n),
{
    Value::from(n)
}

/// `serde_json::Value::from` on a vector of values: the array of these
/// elements, in their order.
#[verifier::external_body]
pub(crate) fn array_value(elements: Vec<Value>) -> (v: Value)
    ensures
        json_array(v) == Some(elements@),
{
    Value::from(elements)
}

/// No two of the members have the same key.
pub open spec fn distinct_keys(members: Seq<(String, Value)>) -> bool {
    forall|i: int, j: int| 0 <= i < j < members.len() ==> members[i].0@ != members[j].0@
}

/// No member has this key.
pub open spec fn no_member_named(members: Seq<(String, Value)>, key: Seq<char>) -> bool {
    forall|i: int| 0 <= i < members.len() ==> (#[trigger] members[i]).0@ != key
}

/// `serde_json::Value::from_iter` on pairs of a key and a value, no two with
/// the same key: the object that holds each value under its key, and nothing
/// else.
#[verifier::external_body]
pub(crate) fn object_of(members: Vec<(String, Value)>) -> (v: Value)
    requires
        distinct_keys(members@),
    ensures
        forall|i: int|
            0 <= i < members@.len() ==> json_member(v, (#[trigger] members@[i]).0@) == Some(
                members@[i].1,
            ),
        forall|key: Seq<char>|
            no_member_named(members@, key) ==> (#[trigger] json_member(v, key)) is None,
{
    Value::from_iter(members)
}

} // verus!
