//! JSON values, as `serde_json` holds them.

use serde_json::{Error as JsonError, Value};
use vstd::prelude::*;

verus! {

/// A JSON value.
#[verifier::external_type_specification]
#[verifier::external_body]
pub struct ExValue(serde_json::Value);

/// What `serde_json` says when a value has no JSON form.
#[verifier::external_type_specification]
#[verifier::external_body]
pub struct ExJsonError(JsonError);

/// The members of a JSON object by name; none for any other value.
pub uninterp spec fn members_of(value: Value) -> Map<Seq<char>, Value>;

/// What `Value::as_u64` returns.
pub uninterp spec fn json_u64(value: Value) -> Option<u64>;

/// What `Value::as_str` returns.
pub uninterp spec fn json_str(value: Value) -> Option<Seq<char>>;

/// What `Value::is_null` returns.
pub uninterp spec fn json_null(value: Value) -> bool;

/// Whether a JSON value is neither an array nor an object.
pub uninterp spec fn is_scalar(value: Value) -> bool;

/// What `Value::from` makes of a `u64`.
pub uninterp spec fn number_json(n: u64) -> Value;

/// What `Value::from` makes of a text.
pub uninterp spec fn text_json(text: Seq<char>) -> Value;

/// What `Value::from_iter` makes of the names and values of members.
pub uninterp spec fn object_json(members: Seq<(Seq<char>, Value)>) -> Value;

/// What `serde_json` reads back from the JSON text that it writes for a value.
/// The text of a value nested deeper than its parser follows is not read back.
pub uninterp spec fn reparsed(value: Value) -> Option<Value>;

/// The characters of the names of members, and their values.
pub open spec fn named(members: Seq<(String, Value)>) -> Seq<(Seq<char>, Value)> {
    members.map_values(|member: (String, Value)| (member.0@, member.1))
}

/// The members that there are once the given ones were put in one after the other,
/// a later one in the place of an earlier one of its name.
pub open spec fn inserted(members: Seq<(Seq<char>, Value)>) -> Map<Seq<char>, Value>
    decreases members.len(),
{
    if members.len() == 0 {
        Map::empty()
    } else {
        inserted(members.drop_last()).insert(members.last().0, members.last().1)
    }
}

/// Whether a JSON object has that many members.
pub open spec fn is_member_count(value: Value, count: nat) -> bool {
    &&& members_of(value).dom().finite()
    &&& members_of(value).dom().len() == count
}

/// `Value::from_iter`, on pairs of a name and a value: makes the JSON object with
/// these members.
#[verifier::external_body]
pub(crate) fn object_value(members: Vec<(String, Value)>) -> (value: Value)
    ensures
        value == object_json(named(members@)),
        members_of(value) == inserted(named(members@)),
{
    Value::from_iter(members)
}

/// `Value::from` makes the JSON number of a `u64`, which `as_u64` reads back.
#[verifier::external_body]
pub(crate) fn number_value(n: u64) -> (value: Value)
    ensures
        value == number_json(n),
        json_u64(value) == Some(n),
        is_scalar(value),
{
    Value::from(n)
}

/// `Value::from` makes the JSON text of a `&str`, which `as_str` reads back.
#[verifier::external_body]
pub(crate) fn text_value(text: &str) -> (value: Value)
    ensures
        value == text_json(text@),
        json_str(value) == Some(text@),
        is_scalar(value),
{
    Value::from(text)
}

/// `Value::get` finds the member of a JSON object by its name, and nothing in
/// any other value.
#[verifier::external_body]
pub(crate) fn member<'a>(value: &'a Value, name: &str) -> (found: Option<&'a Value>)
    ensures
        found == if members_of(*value).dom().contains(name@) {
            Some(&members_of(*value)[name@])
        } else {
            None
        },
{
    value.get(name)
}

/// `serde_json::Map::len`, on what `Value::as_object` returns: the number of members
/// of a JSON object, and nothing for any other value.
#[verifier::external_body]
pub(crate) fn member_count(value: &Value) -> (count: Option<usize>)
    ensures
        count matches Some(n) ==> is_member_count(*value, n as nat),
        count is None ==> members_of(*value).dom() == Set::<Seq<char>>::empty(),
{
    value.as_object().map(serde_json::Map::len)
}

/// `Value::as_u64` returns the number that a value is, if it is an unsigned
/// integer of that size.
pub assume_specification[ Value::as_u64 ](value: &Value) -> (n: Option<u64>)
    ensures
        n == json_u64(*value),
;

/// `Value::as_str` returns the text that a value is, if it is one.
pub assume_specification[ Value::as_str ](value: &Value) -> (text: Option<&str>)
    ensures
        text matches Some(t) ==> json_str(*value) == Some(t@),
        text is None ==> json_str(*value) is None,
;

/// `Value::is_null` tells whether a value is null.
pub assume_specification[ Value::is_null ](value: &Value) -> (null: bool)
    ensures
        null == json_null(*value),
;

} // verus!
