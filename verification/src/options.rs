//! Settings that a request may leave out: what they stand for, and how they are
//! lent and copied.

use vstd::prelude::*;

use crate::json::views;
use crate::json::Json;
use crate::json::JsonView;

verus! {

/// What an optional borrowed text stands for.
pub open spec fn text_option(s: Option<&str>) -> Option<Seq<char>> {
    match s {
        Some(s) => Some(s@),
        None => None,
    }
}

/// What an optional borrowed value stands for.
pub open spec fn value_option(value: Option<&Json>) -> Option<JsonView> {
    match value {
        Some(value) => Some(value@),
        None => None,
    }
}

/// What an optional borrowed list of values stands for.
pub open spec fn values_option(values: Option<&[Json]>) -> Option<Seq<JsonView>> {
    match values {
        Some(values) => Some(views(values@)),
        None => None,
    }
}

/// What an optional text stands for.
pub open spec fn owned_text(s: Option<String>) -> Option<Seq<char>> {
    match s {
        Some(s) => Some(s@),
        None => None,
    }
}

/// What an optional value stands for.
pub open spec fn owned_value(value: Option<Json>) -> Option<JsonView> {
    match value {
        Some(value) => Some(value@),
        None => None,
    }
}

/// What an optional list of values stands for.
pub open spec fn owned_values(values: Option<Vec<Json>>) -> Option<Seq<JsonView>> {
    match values {
        Some(values) => Some(views(values@)),
        None => None,
    }
}

/// Lends a text.
pub(crate) fn lend_text(s: &Option<String>) -> (lent: Option<&str>)
    ensures
        text_option(lent) == owned_text(*s),
{
    match s {
        Some(s) => Some(s.as_str()),
        None => None,
    }
}

/// Lends a value.
pub(crate) fn lend_value(value: &Option<Json>) -> (lent: Option<&Json>)
    ensures
        value_option(lent) == owned_value(*value),
{
    match value {
        Some(value) => Some(value),
        None => None,
    }
}

/// Lends a list of values.
pub(crate) fn lend_values(values: &Option<Vec<Json>>) -> (lent: Option<&[Json]>)
    ensures
        values_option(lent) == owned_values(*values),
{
    match values {
        Some(values) => Some(values.as_slice()),
        None => None,
    }
}

/// Copies the values of a list.
pub(crate) fn copy_values(values: &[Json]) -> (copies: Vec<Json>)
    ensures
        views(copies@) == views(values@),
{
    let mut copies: Vec<Json> = Vec::new();
    let mut i: usize = 0;
    while i < values.len()
        invariant
            i <= values.len(),
            copies@.len() == i,
            forall|j: int| 0 <= j < i ==> #[trigger] copies@[j]@ == values@[j]@,
        decreases values.len() - i,
    {
        copies.push(values[i].clone());
        i += 1;
    }
    assert(views(copies@) =~= views(values@));
    copies
}

/// Copies a text.
pub(crate) fn copy_text(s: &Option<String>) -> (copy: Option<String>)
    ensures
        owned_text(copy) == owned_text(*s),
{
    match s {
        Some(s) => Some(s.clone()),
        None => None,
    }
}

/// Copies a value.
pub(crate) fn copy_value(value: &Option<Json>) -> (copy: Option<Json>)
    ensures
        owned_value(copy) == owned_value(*value),
{
    match value {
        Some(value) => Some(value.clone()),
        None => None,
    }
}

/// Copies an optional list of values.
pub(crate) fn copy_list(values: &Option<Vec<Json>>) -> (copy: Option<Vec<Json>>)
    ensures
        owned_values(copy) == owned_values(*values),
{
    match values {
        Some(values) => Some(copy_values(values.as_slice())),
        None => None,
    }
}

} // verus!
