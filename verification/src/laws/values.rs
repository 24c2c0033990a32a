//! Laws of JSON values, of texts and of optional settings.

use vstd::prelude::*;

use crate::json::float_value;
use crate::json::lemma_array_view;
use crate::json::lemma_last_entry_holds;
use crate::json::lemma_no_entry;
use crate::json::lemma_object_view;
use crate::json::views;
use crate::json::Float64;
use crate::json::Json;
use crate::json::JsonNumber;
use crate::json::JsonObject;
use crate::json::JsonView;
use crate::options::owned_text;
use crate::options::owned_value;
use crate::options::owned_values;
use crate::options::text_option;
use crate::options::value_option;
use crate::options::values_option;

verus! {

/// A value stands for what it holds: texts by their characters, integers by
/// their number, arrays item by item.
pub proof fn law_value_stands_for_what_it_holds(
    b: bool,
    n: u64,
    k: i64,
    x: Float64,
    s: String,
    items: Vec<Json>,
    object: JsonObject,
)
    ensures
        Json::Null@ == JsonView::Null,
        Json::Bool(b)@ == JsonView::Bool(b),
        Json::Number(JsonNumber::Unsigned(n))@ == JsonView::Integer(n as int),
        Json::Number(JsonNumber::Signed(k))@ == JsonView::Integer(k as int),
        Json::Number(JsonNumber::Float(x))@ == JsonView::Float(x),
        Json::String(s)@ == JsonView::String(s@),
        Json::Array(items)@ matches JsonView::Array(values) && values.len() == items@.len()
            && forall|i: int| 0 <= i < items@.len() ==> #[trigger] values[i] == items@[i]@,
        Json::Object(object)@ == JsonView::Object(object@),
{
    lemma_array_view(items);
}

/// A list stands for what its values stand for, one by one.
pub proof fn law_list_stands_for_its_values(values: Seq<Json>)
    ensures
        views(values).len() == values.len(),
        forall|i: int| 0 <= i < values.len() ==> #[trigger] views(values)[i] == values[i]@,
{
}

/// A name means what its last entry says, and nothing without an entry.
pub proof fn law_last_entry_of_a_name_holds(object: JsonObject, name: Seq<char>)
    ensures
        forall|at: int|
            0 <= at < object.entries@.len() && (#[trigger] object.entries@[at]).0@ == name && (
            forall|j: int|
                at < j < object.entries@.len() ==> (#[trigger] object.entries@[j]).0@ != name)
                ==> object@.contains_key(name) && object@[name] == object.entries@[at].1@,
        (forall|j: int|
            0 <= j < object.entries@.len() ==> (#[trigger] object.entries@[j]).0@ != name)
            ==> !object@.contains_key(name),
{
    let listed = object.listed();
    lemma_object_view(object);
    assert forall|j: int| 0 <= j < listed.len() implies #[trigger] listed[j].0
        == object.entries@[j].0@ by {}
    assert forall|at: int|
        0 <= at < object.entries@.len() && (#[trigger] object.entries@[at]).0@ == name && (forall|
            j: int,
        |
            at < j < object.entries@.len() ==> (#[trigger] object.entries@[j]).0@
                != name) implies object@.contains_key(name) && object@[name]
        == object.entries@[at].1@ by {
        assert forall|j: int| at < j < listed.len() implies listed[j].0 != listed[at].0 by {
            assert(listed[j].0 == object.entries@[j].0@);
        }
        lemma_last_entry_holds(listed, at);
    }
    if forall|j: int|
        0 <= j < object.entries@.len() ==> (#[trigger] object.entries@[j]).0@ != name {
        assert forall|j: int| 0 <= j < listed.len() implies listed[j].0 != name by {
            assert(listed[j].0 == object.entries@[j].0@);
        }
        lemma_no_entry(listed, name);
    }
}

/// Giving one name a value is seen under that name and under no other.
pub proof fn law_member_is_read_as_it_was_given(
    members: Map<Seq<char>, JsonView>,
    name: Seq<char>,
    value: JsonView,
    other: Seq<char>,
)
    ensures
        JsonView::Object(members.insert(name, value)).member(name) == Some(value),
        other != name ==> JsonView::Object(members.insert(name, value)).member(other)
            == JsonView::Object(members).member(other),
        JsonView::Object(members.remove(name)).member(name) is None,
        JsonView::Object(members.insert(name, value)).member_text(name) == value.text(),
{
}

/// A text is read from a string as it is, and from nothing else; members are
/// read from objects alone.
pub proof fn law_text_is_read_from_strings_alone(value: JsonView, name: Seq<char>, s: Seq<char>)
    ensures
        JsonView::String(s).text() == Some(s),
        !(value is String) ==> value.text() is None,
        !(value is Object) ==> value.member(name) is None && value.member_text(name) is None,
{
}

/// A float is kept bit by bit, but for one whose exponent bits are all ones,
/// which is `null`.
pub proof fn law_only_numbers_are_numbers(x: Float64)
    ensures
        (x.bits >> 52) & 0x7ff == 0x7ff ==> float_value(x) == JsonView::Null,
        (x.bits >> 52) & 0x7ff != 0x7ff ==> float_value(x) == JsonView::Float(x),
{
    let bits = x.bits;
    assert(((bits >> 52) & 0x7ff == 0x7ff) == (bits / 0x10_0000_0000_0000 % 0x800 == 0x7ff))
        by (bit_vector);
}

/// What is lent and what is owned stand for the same, and a setting that is
/// there stands for itself.
pub proof fn law_setting_stands_for_itself(
    s: &str,
    owned: String,
    value: Json,
    slice: &[Json],
    list: Vec<Json>,
)
    ensures
        text_option(Some(s)) == Some(s@),
        text_option(None) is None,
        owned_text(Some(owned)) == Some(owned@),
        owned_text(None) is None,
        value_option(Some(&value)) == Some(value@),
        value_option(None) is None,
        owned_value(Some(value)) == Some(value@),
        owned_value(None) is None,
        values_option(Some(slice)) matches Some(values) && values.len() == slice@.len()
            && forall|i: int| 0 <= i < slice@.len() ==> #[trigger] values[i] == slice@[i]@,
        values_option(None) is None,
        owned_values(Some(list)) matches Some(values) && values.len() == list@.len()
            && forall|i: int| 0 <= i < list@.len() ==> #[trigger] values[i] == list@[i]@,
        owned_values(None) is None,
{
}

} // verus!
