//! JSON values, as `serde_json` holds them, and what contracts say of them.

use serde_json::Value;
use vstd::prelude::*;

verus! {

/// The outside type `serde_json::Value`, opaque to the verifier. What a value
/// holds is [`json_of`].
#[verifier::external_type_specification]
#[verifier::external_body]
pub struct ExValue(Value);

/// The contents of a JSON value.
pub ghost enum Json {
    Null,
    Bool(bool),
    /// A number that fits in an `i64`.
    Integer(int),
    /// Any other number, by the text it is written as.
    Number(Seq<char>),
    Text(Seq<char>),
    Array(Seq<Json>),
    Object(Map<Seq<char>, Json>),
}

/// What a JSON value holds: its scalars, its items in order, its members by key.
pub uninterp spec fn json_of(value: Value) -> Json;

/// The compact text that `serde_json` writes for a JSON value.
pub uninterp spec fn json_text(json: Json) -> Seq<char>;

/// Whether no key comes twice in a list of entries.
pub open spec fn has_distinct_keys(entries: Seq<(String, Value)>) -> bool {
    forall|i: int, j: int|
        0 <= i < j < entries.len() ==> #[trigger] entries[i].0@ != #[trigger] entries[j].0@
}

/// The members that a list of entries with distinct keys makes.
pub open spec fn members(entries: Seq<(String, Value)>) -> Map<Seq<char>, Json>
    decreases entries.len(),
{
    if entries.len() == 0 {
        Map::empty()
    } else {
        members(entries.drop_last()).insert(entries.last().0@, json_of(entries.last().1))
    }
}

/// The contents of each value.
pub open spec fn contents(values: Seq<Value>) -> Seq<Json> {
    values.map_values(|v: Value| json_of(v))
}

/// An object with one member.
pub open spec fn object_one(key: Seq<char>, value: Json) -> Json {
    Json::Object(Map::empty().insert(key, value))
}

/// An object with two members.
pub open spec fn object_two(
    first: Seq<char>,
    first_value: Json,
    second: Seq<char>,
    second_value: Json,
) -> Json {
    Json::Object(Map::empty().insert(first, first_value).insert(second, second_value))
}

/// `Value::to_string`, the `Display` impl of `serde_json::Value`: the compact
/// text depends on what the value holds and on nothing else.
#[verifier::external_body]
pub(crate) fn value_text(value: &Value) -> (r: String)
    ensures
        r@ == json_text(json_of(*value)),
{
    value.to_string()
}

/// `Value::clone`: the copy holds what the value holds.
#[verifier::external_body]
pub(crate) fn clone_value(value: &Value) -> (r: Value)
    ensures
        json_of(r) == json_of(*value),
{
    value.clone()
}

/// `Value::from` on a string: a JSON string with these characters.
#[verifier::external_body]
pub(crate) fn text_value(text: &str) -> (r: Value)
    ensures
        json_of(r) == Json::Text(text@),
{
    Value::from(text)
}

/// `Value::from` on an `i64`: a JSON number of that value.
#[verifier::external_body]
pub(crate) fn integer_value(number: i64) -> (r: Value)
    ensures
        json_of(r) == Json::Integer(number as int),
{
    Value::from(number)
}

/// `Value::from` on a `bool`.
#[verifier::external_body]
pub(crate) fn bool_value(flag: bool) -> (r: Value)
    ensures
        json_of(r) == Json::Bool(flag),
{
    Value::from(flag)
}

/// `Value::from` on a list of values: a JSON array of them, in order.
#[verifier::external_body]
pub(crate) fn array_value(items: Vec<Value>) -> (r: Value)
    ensures
        json_of(r) == Json::Array(contents(items@)),
{
    Value::from(items)
}

/// `serde_json::Map::from_iter` on a list of entries with distinct keys: a JSON object
/// with these members. Which entry of a key that comes twice would stand is not
/// documented, so such lists are left out.
#[verifier::external_body]
pub(crate) fn object_value(entries: Vec<(String, Value)>) -> (r: Value)
    requires
        has_distinct_keys(entries@),
    ensures
        json_of(r) == Json::Object(members(entries@)),
{
    Value::Object(serde_json::Map::from_iter(entries))
}

/// Builds an object with one member.
pub(crate) fn object_with_one(key: &str, value: Value) -> (r: Value)
    ensures
        json_of(r) == object_one(key@, json_of(value)),
{
    let entries: Vec<(String, Value)> = vec![(key.to_owned(), value)];
    proof {
        reveal_with_fuel(members, 2);
        assert(entries@.drop_last() =~= Seq::empty());
    }
    object_value(entries)
}

/// Builds an object with two members under different keys.
pub(crate) fn object_with_two(
    first: &str,
    first_value: Value,
    second: &str,
    second_value: Value,
) -> (r: Value)
    requires
        first@ != second@,
    ensures
        json_of(r) == object_two(first@, json_of(first_value), second@, json_of(second_value)),
{
    let entries: Vec<(String, Value)> = vec![
        (first.to_owned(), first_value),
        (second.to_owned(), second_value),
    ];
    proof {
        reveal_with_fuel(members, 3);
        assert(entries@.drop_last().drop_last() =~= Seq::empty());
    }
    object_value(entries)
}

}
