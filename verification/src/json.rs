//! JSON values as the node reads and builds them.
//!
//! The values themselves are `serde_json`'s. What one holds is a `JsonModel`, and the
//! functions of `serde_json` that the node calls are stated over it.

use serde_json::Value;
use vstd::prelude::*;

verus! {

/// What a JSON value holds. An object is a map from keys to values, without an order.
pub enum JsonModel {
    Null,
    Bool(bool),
    /// A number that fits in 64 bits, signed or unsigned.
    Integer(int),
    /// Any other number, by the text it is printed as.
    Fraction(Seq<char>),
    Text(Seq<char>),
    Array(Seq<JsonModel>),
    Object(Map<Seq<char>, JsonModel>),
}

/// `serde_json::Value`.
#[verifier::external_type_specification]
#[verifier::external_body]
pub struct ExValue(Value);

/// What a `serde_json::Value` holds.
pub uninterp spec fn contents(value: Value) -> JsonModel;

/// What each value of a list holds.
pub open spec fn contents_of(values: Seq<Value>) -> Seq<JsonModel> {
    values.map_values(|value: Value| contents(value))
}

/// What parsing a text as JSON comes to: the value, or the parser's complaint.
pub uninterp spec fn parsed(text: Seq<char>) -> Result<JsonModel, Seq<char>>;

/// The text that a JSON value is printed as.
pub uninterp spec fn printed(value: JsonModel) -> Seq<char>;

/// The value under `key`, if `value` is an object that has the key.
pub open spec fn field(value: JsonModel, key: Seq<char>) -> Option<JsonModel> {
    match value {
        JsonModel::Object(fields) => if fields.contains_key(key) {
            Some(fields[key])
        } else {
            None
        },
        _ => None,
    }
}

/// The text under `key`, if `value` is an object that has text there.
pub open spec fn text_field(value: JsonModel, key: Seq<char>) -> Option<Seq<char>> {
    match field(value, key) {
        Some(JsonModel::Text(text)) => Some(text),
        _ => None,
    }
}

/// The items under `key`, if `value` is an object that has an array there.
pub open spec fn array_field(value: JsonModel, key: Seq<char>) -> Option<Seq<JsonModel>> {
    match field(value, key) {
        Some(JsonModel::Array(items)) => Some(items),
        _ => None,
    }
}

/// A member of a value, null where there is none.
pub open spec fn member_or_null(value: JsonModel, key: Seq<char>) -> JsonModel {
    match field(value, key) {
        Some(member) => member,
        None => JsonModel::Null,
    }
}

/// The array of the given texts.
pub open spec fn text_array(items: Seq<Seq<char>>) -> JsonModel {
    JsonModel::Array(items.map_values(|item: Seq<char>| JsonModel::Text(item)))
}

/// The items of a list that are text, in order.
pub open spec fn texts_among(items: Seq<JsonModel>) -> Seq<Seq<char>>
    decreases items.len(),
{
    if items.len() == 0 {
        Seq::empty()
    } else {
        match items.last() {
            JsonModel::Text(text) => texts_among(items.drop_last()).push(text),
            _ => texts_among(items.drop_last()),
        }
    }
}

/// Every item of the list is text.
pub open spec fn all_texts(items: Seq<JsonModel>) -> bool {
    forall|i: int| 0 <= i < items.len() ==> (#[trigger] items[i]) is Text
}

/// How many arrays and objects can stand inside one another in a text that is parsed.
pub const MAX_DEPTH: u32 = 127;

/// A value without fractions, in which at most `depth` arrays and objects stand inside one
/// another, and no object has the key that the parser keeps for itself.
pub open spec fn is_plain(value: JsonModel, depth: nat) -> bool
    decreases depth,
{
    match value {
        JsonModel::Fraction(_) => false,
        JsonModel::Array(items) => depth > 0 && forall|i: int|
            0 <= i < items.len() ==> is_plain(#[trigger] items[i], (depth - 1) as nat),
        JsonModel::Object(fields) => depth > 0 && !fields.contains_key(
            "$serde_json::private::RawValue"@,
        ) && forall|key: Seq<char>|
            fields.contains_key(key) ==> is_plain(#[trigger] fields[key], (depth - 1) as nat),
        _ => true,
    }
}

/// Parsing the text gives the value.
pub open spec fn reads_as(text: Seq<char>, value: JsonModel) -> bool {
    match parsed(text) {
        Ok(held) => held == value,
        Err(_) => false,
    }
}

/// `Value::as_str` gives the text of a string value and `None` for any other.
pub assume_specification[ Value::as_str ](value: &Value) -> (found: Option<&str>)
    ensures
        match contents(*value) {
            JsonModel::Text(held) => found is Some && found->0@ == held,
            _ => found is None,
        },
;

/// `Value::as_bool` gives the truth value of a boolean and `None` for any other value.
pub assume_specification[ Value::as_bool ](value: &Value) -> (truth: Option<bool>)
    ensures
        match contents(*value) {
            JsonModel::Bool(held) => truth == Some(held),
            _ => truth is None,
        },
;

/// `Value::as_array` gives the items of an array and `None` for any other value.
pub assume_specification[ Value::as_array ](value: &Value) -> (items: Option<&Vec<Value>>)
    ensures
        match contents(*value) {
            JsonModel::Array(held) => items is Some && contents_of(items->0@) == held,
            _ => items is None,
        },
;

/// `Value::is_object` tells objects from other values.
pub assume_specification[ Value::is_object ](value: &Value) -> (found: bool)
    ensures
        found == (contents(*value) is Object),
;

/// Cloning a `Value` copies what it holds.
pub assume_specification[ <Value as Clone>::clone ](value: &Value) -> (copy: Value)
    ensures
        contents(copy) == contents(*value),
;

/// `Value::get` with a string gives the member of an object under that key, and `None`
/// where the object has no such key or the value is no object.
#[verifier::external_body]
pub(crate) fn get<'a>(value: &'a Value, key: &str) -> (found: Option<&'a Value>)
    ensures
        match field(contents(*value), key@) {
            Some(held) => found is Some && contents(*found->0) == held,
            None => found is None,
        },
{
    value.get(key)
}

/// `Value::Null`.
#[verifier::external_body]
pub(crate) fn null() -> (value: Value)
    ensures
        contents(value) == JsonModel::Null,
{
    Value::Null
}

/// `Value::Bool`.
#[verifier::external_body]
pub(crate) fn boolean(truth: bool) -> (value: Value)
    ensures
        contents(value) == JsonModel::Bool(truth),
{
    Value::Bool(truth)
}

/// `Value` from an `i64`: that number.
#[verifier::external_body]
pub(crate) fn signed(number: i64) -> (value: Value)
    ensures
        contents(value) == JsonModel::Integer(number as int),
{
    Value::from(number)
}

/// `Value` from a `u64`: that number.
#[verifier::external_body]
pub(crate) fn unsigned(number: u64) -> (value: Value)
    ensures
        contents(value) == JsonModel::Integer(number as int),
{
    Value::from(number)
}

/// `Value` from a `&str`: the same text.
#[verifier::external_body]
pub(crate) fn text(held: &str) -> (value: Value)
    ensures
        contents(value) == JsonModel::Text(held@),
{
    Value::from(held)
}

/// `Value::Array` of the given values.
#[verifier::external_body]
pub(crate) fn array(items: Vec<Value>) -> (value: Value)
    ensures
        contents(value) == JsonModel::Array(contents_of(items@)),
{
    Value::Array(items)
}

/// `Value::Object` of an empty `serde_json::Map`.
#[verifier::external_body]
pub(crate) fn object() -> (value: Value)
    ensures
        contents(value) == JsonModel::Object(Map::empty()),
{
    Value::Object(serde_json::Map::new())
}

/// Assigning to `value[key]` puts the member under the key, in place of the one that was
/// there. The other members stay.
#[verifier::external_body]
pub(crate) fn set(value: &mut Value, key: &str, member: Value)
    requires
        contents(*old(value)) is Object,
    ensures
        contents(*final(value)) == JsonModel::Object(
            contents(*old(value))->Object_0.insert(key@, contents(member)),
        ),
{
    value[key] = member;
}

/// `Map::remove` on the members of an object: takes out the one under the key, if there is one.
/// The other members stay.
#[verifier::external_body]
pub(crate) fn remove(value: &mut Value, key: &str)
    requires
        contents(*old(value)) is Object,
    ensures
        contents(*final(value)) == JsonModel::Object(contents(*old(value))->Object_0.remove(key@)),
{
    value.as_object_mut().map(|fields| fields.remove(key));
}

/// `serde_json::from_str` to a `Value`, the error by its text. `parsed` names what comes out;
/// it is a function of the text alone.
#[verifier::external_body]
pub(crate) fn parse(text: &str) -> (result: Result<Value, String>)
    ensures
        match parsed(text@) {
            Ok(held) => result is Ok && contents(result->Ok_0) == held,
            Err(complaint) => result is Err && result->Err_0@ == complaint,
        },
{
    serde_json::from_str(text).map_err(|error| error.to_string())
}

/// `serde_json::to_string` of a `Value`, named by `printed`. Members are printed in the order
/// of their keys, so that the text depends on what the value holds alone. It fails for maps
/// whose keys are no strings and for types that refuse to be serialized; a `Value` is neither.
/// Parsing the text gives the value back, unless it holds a fraction, which may lose its last
/// digits, is nested deeper than the parser goes, or has the key with which `serde_json` marks
/// raw values.
#[verifier::external_body]
pub(crate) fn print(value: &Value) -> (result: Result<String, String>)
    ensures
        result is Ok,
        result->Ok_0@ == printed(contents(*value)),
        is_plain(contents(*value), MAX_DEPTH as nat) ==> reads_as(result->Ok_0@, contents(*value)),
{
    serde_json::to_string(value).map_err(|error| error.to_string())
}

/// The text under `key`, where there is text.
pub fn get_text(value: &Value, key: &str) -> (found: Option<String>)
    ensures
        crate::text::opt_text(found) == text_field(contents(*value), key@),
{
    match get(value, key) {
        Some(member) => match member.as_str() {
            Some(held) => Some(held.to_owned()),
            None => None,
        },
        None => None,
    }
}

/// A member of a value, null where there is none.
pub fn member(value: &Value, key: &str) -> (found: Value)
    ensures
        contents(found) == member_or_null(contents(*value), key@),
{
    match get(value, key) {
        Some(held) => held.clone(),
        None => null(),
    }
}

/// The texts of an array, with whatever else it holds left out.
pub fn texts_in(items: &Vec<Value>) -> (found: Vec<String>)
    ensures
        crate::text::texts(found@) == texts_among(contents_of(items@)),
{
    let mut found: Vec<String> = Vec::new();
    let mut i: usize = 0;
    assert(crate::text::texts(found@) == texts_among(contents_of(items@.take(0))));
    while i < items.len()
        invariant
            i <= items@.len(),
            crate::text::texts(found@) == texts_among(contents_of(items@.take(i as int))),
        decreases items@.len() - i,
    {
        let ghost before = contents_of(items@.take(i as int));
        let ghost after = contents_of(items@.take(i + 1));
        assert(after.drop_last() == before);
        assert(after.last() == contents(items@[i as int]));
        let ghost was = found@;
        if let Some(held) = items[i].as_str() {
            found.push(held.to_owned());
            assert(crate::text::texts(found@) == crate::text::texts(was).push(held@));
        }
        i = i + 1;
    }
    assert(items@.take(items@.len() as int) == items@);
    found
}

/// The array of the given texts.
pub fn array_of_texts(items: &Vec<String>) -> (value: Value)
    ensures
        contents(value) == text_array(crate::text::texts(items@)),
{
    let mut values: Vec<Value> = Vec::new();
    let mut i: usize = 0;
    while i < items.len()
        invariant
            i <= items@.len(),
            values@.len() == i,
            forall|j: int|
                0 <= j < i ==> contents(#[trigger] values@[j]) == JsonModel::Text(items@[j]@),
        decreases items@.len() - i,
    {
        values.push(text(items[i].as_str()));
        i = i + 1;
    }
    assert(contents_of(values@) == crate::text::texts(items@).map_values(
        |item: Seq<char>| JsonModel::Text(item),
    ));
    array(values)
}

/// What is read of a value: a member is there or null stands for it, and it is text or a list
/// only if it is one.
pub proof fn law_members_are_read_as_what_they_are(value: JsonModel, key: Seq<char>)
    ensures
        forall|held: Seq<char>| #[trigger]
            text_field(value, key) == Some(held) <==> field(value, key) == Some(
                JsonModel::Text(held),
            ),
        forall|items: Seq<JsonModel>| #[trigger]
            array_field(value, key) == Some(items) <==> field(value, key) == Some(
                JsonModel::Array(items),
            ),
        field(value, key) is Some ==> Some(member_or_null(value, key)) == field(value, key),
        field(value, key) is None ==> member_or_null(value, key) == JsonModel::Null,
{
}

/// A list of nothing but texts is read text by text, in order.
pub proof fn law_texts_are_read_in_order(items: Seq<JsonModel>)
    requires
        all_texts(items),
    ensures
        texts_among(items).len() == items.len(),
        forall|i: int|
            0 <= i < items.len() ==> JsonModel::Text(#[trigger] texts_among(items)[i]) == items[i],
    decreases items.len(),
{
    if items.len() > 0 {
        let fewer = items.drop_last();
        assert forall|i: int| 0 <= i < fewer.len() implies (#[trigger] fewer[i]) is Text by {
            assert(fewer[i] == items[i]);
        }
        law_texts_are_read_in_order(fewer);
        assert(items[items.len() - 1] is Text);
        assert forall|i: int| 0 <= i < items.len() implies JsonModel::Text(
            #[trigger] texts_among(items)[i],
        ) == items[i] by {
            if i < fewer.len() {
                assert(texts_among(items)[i] == texts_among(fewer)[i]);
                assert(fewer[i] == items[i]);
            }
        }
    }
}

/// Of a mixed list the texts are read, all of them and nothing else.
pub proof fn law_texts_and_nothing_else_are_read(items: Seq<JsonModel>, held: Seq<char>)
    ensures
        texts_among(items).contains(held) <==> items.contains(JsonModel::Text(held)),
        texts_among(items).len() <= items.len(),
    decreases items.len(),
{
    if items.len() > 0 {
        let fewer = items.drop_last();
        law_texts_and_nothing_else_are_read(fewer, held);
        let all = texts_among(items);
        let before = texts_among(fewer);
        if before.contains(held) {
            let i = choose|i: int| 0 <= i < before.len() && before[i] == held;
            assert(all[i] == held);
        }
        if fewer.contains(JsonModel::Text(held)) {
            let i = choose|i: int| 0 <= i < fewer.len() && fewer[i] == JsonModel::Text(held);
            assert(items[i] == JsonModel::Text(held));
        }
        if items.contains(JsonModel::Text(held)) {
            let i = choose|i: int| 0 <= i < items.len() && items[i] == JsonModel::Text(held);
            if i < fewer.len() {
                assert(fewer[i] == items[i]);
            } else {
                assert(all.last() == held);
                assert(all[all.len() - 1] == held);
            }
        }
        if all.contains(held) {
            let i = choose|i: int| 0 <= i < all.len() && all[i] == held;
            if i < before.len() {
                assert(before[i] == held);
            } else {
                assert(items[items.len() - 1] == JsonModel::Text(held));
            }
        }
    }
}

/// An array of texts holds those texts, in order, and is read as them.
pub proof fn law_text_arrays_hold_their_texts(items: Seq<Seq<char>>)
    ensures
        text_array(items) is Array,
        text_array(items)->Array_0.len() == items.len(),
        forall|i: int|
            0 <= i < items.len() ==> #[trigger] text_array(items)->Array_0[i] == JsonModel::Text(
                items[i],
            ),
        texts_among(text_array(items)->Array_0) == items,
{
    let held = text_array(items)->Array_0;
    law_texts_are_read_in_order(held);
    assert forall|i: int| 0 <= i < items.len() implies texts_among(held)[i] == items[i] by {
        assert(JsonModel::Text(texts_among(held)[i]) == held[i]);
    }
    assert(texts_among(held) =~= items);
}


/// Lists of values are seen value by value, in order.
pub proof fn law_lists_are_seen_value_by_value(values: Seq<Value>)
    ensures
        contents_of(values).len() == values.len(),
        forall|i: int|
            0 <= i < values.len() ==> #[trigger] contents_of(values)[i] == contents(values[i]),
{
}

/// The texts of a list are read item by item: one more text is read behind the others, and
/// anything else makes no difference.
pub proof fn law_texts_are_read_item_by_item(items: Seq<JsonModel>, item: JsonModel)
    ensures
        texts_among(Seq::empty()) == Seq::<Seq<char>>::empty(),
        item is Text ==> texts_among(items.push(item)) == texts_among(items).push(item->Text_0),
        !(item is Text) ==> texts_among(items.push(item)) == texts_among(items),
{
    assert(items.push(item).drop_last() == items);
}

/// A list holds nothing but texts if as many texts are read as it has items.
pub proof fn law_lists_of_texts_are_read_whole(items: Seq<JsonModel>)
    ensures
        all_texts(items) <==> texts_among(items).len() == items.len(),
    decreases items.len(),
{
    if items.len() > 0 {
        let fewer = items.drop_last();
        law_lists_of_texts_are_read_whole(fewer);
        law_texts_and_nothing_else_are_read(fewer, Seq::empty());
        assert(items == fewer.push(items.last()));
        law_texts_are_read_item_by_item(fewer, items.last());
        if all_texts(items) {
            assert forall|i: int| 0 <= i < fewer.len() implies (#[trigger] fewer[i]) is Text by {
                assert(fewer[i] == items[i]);
            }
            assert(items[items.len() - 1] is Text);
        }
        if texts_among(items).len() == items.len() {
            assert forall|i: int| 0 <= i < items.len() implies (#[trigger] items[i]) is Text by {
                if i < fewer.len() {
                    assert(fewer[i] == items[i]);
                }
            }
        }
    }
}

} // verus!
