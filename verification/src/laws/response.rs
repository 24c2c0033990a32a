//! Laws of the response object, stated over its members and over what went into
//! it.

use vstd::prelude::*;

use crate::clock::timestamp_spec;
use crate::clock::ClockError;
use crate::ids::is_id;
use crate::json::Float64;
use crate::json::Json;
use crate::json::JsonView;
use crate::laws::values::law_only_numbers_are_numbers;
use crate::response::response;
use crate::response::response_by_clock;
use crate::response::response_result;
use crate::response::SettingsView;

verus! {

/// What stands in an object under a name, where something does.
pub open spec fn at(value: JsonView, name: Seq<char>) -> JsonView
    recommends
        value is Object && value->Object_0.contains_key(name),
{
    value->Object_0[name]
}

/// Whether an object has members of the given names and no others.
pub open spec fn has_just(value: JsonView, names: Set<Seq<char>>) -> bool {
    value is Object && value->Object_0.dom() == names
}

/// The names of the members of a response.
pub open spec fn response_names() -> Set<Seq<char>> {
    set![
        "id"@,
        "object"@,
        "created_at"@,
        "model"@,
        "status"@,
        "error"@,
        "incomplete_details"@,
        "instructions"@,
        "max_output_tokens"@,
        "output"@,
        "parallel_tool_calls"@,
        "previous_response_id"@,
        "reasoning"@,
        "store"@,
        "temperature"@,
        "text"@,
        "tool_choice"@,
        "tools"@,
        "top_p"@,
        "truncation"@,
        "user"@,
        "metadata"@,
        "usage"@,
    ]
}

/// The names of the members of a response all differ, in length or in a
/// character.
proof fn lemma_response_names_differ()
    ensures
        "id"@.len() == 2,
        "object"@.len() == 6,
        "created_at"@.len() == 10,
        "model"@.len() == 5,
        "status"@.len() == 6,
        "error"@.len() == 5,
        "incomplete_details"@.len() == 18,
        "instructions"@.len() == 12,
        "max_output_tokens"@.len() == 17,
        "output"@.len() == 6,
        "parallel_tool_calls"@.len() == 19,
        "previous_response_id"@.len() == 20,
        "reasoning"@.len() == 9,
        "store"@.len() == 5,
        "temperature"@.len() == 11,
        "text"@.len() == 4,
        "tool_choice"@.len() == 11,
        "tools"@.len() == 5,
        "top_p"@.len() == 5,
        "truncation"@.len() == 10,
        "user"@.len() == 4,
        "metadata"@.len() == 8,
        "usage"@.len() == 5,
        "object"@[0] != "status"@[0],
        "object"@[1] != "output"@[1],
        "status"@[0] != "output"@[0],
        "created_at"@[0] != "truncation"@[0],
        "model"@[0] != "error"@[0],
        "model"@[0] != "store"@[0],
        "model"@[0] != "tools"@[0],
        "model"@[0] != "top_p"@[0],
        "model"@[0] != "usage"@[0],
        "error"@[0] != "store"@[0],
        "error"@[0] != "tools"@[0],
        "error"@[0] != "top_p"@[0],
        "error"@[0] != "usage"@[0],
        "store"@[0] != "tools"@[0],
        "store"@[0] != "top_p"@[0],
        "store"@[0] != "usage"@[0],
        "tools"@[2] != "top_p"@[2],
        "tools"@[0] != "usage"@[0],
        "top_p"@[0] != "usage"@[0],
        "temperature"@[1] != "tool_choice"@[1],
        "text"@[0] != "user"@[0],
{
    reveal_strlit("id");
    reveal_strlit("object");
    reveal_strlit("created_at");
    reveal_strlit("model");
    reveal_strlit("status");
    reveal_strlit("error");
    reveal_strlit("incomplete_details");
    reveal_strlit("instructions");
    reveal_strlit("max_output_tokens");
    reveal_strlit("output");
    reveal_strlit("parallel_tool_calls");
    reveal_strlit("previous_response_id");
    reveal_strlit("reasoning");
    reveal_strlit("store");
    reveal_strlit("temperature");
    reveal_strlit("text");
    reveal_strlit("tool_choice");
    reveal_strlit("tools");
    reveal_strlit("top_p");
    reveal_strlit("truncation");
    reveal_strlit("user");
    reveal_strlit("metadata");
    reveal_strlit("usage");
}

/// Every setting of a request that its response repeats stands there as it was
/// given, whatever the others are.
pub proof fn law_response_repeats_settings(
    created_at: u64,
    response_id: Seq<char>,
    item_id: Seq<char>,
    output_text: Seq<char>,
    settings: SettingsView,
)
    ensures
        ({
            let made = response(created_at, response_id, item_id, output_text, settings);
            &&& has_just(made, response_names())
            &&& at(made, "model"@) == JsonView::String(settings.model)
            &&& settings.max_output_tokens matches Some(n) ==> at(made, "max_output_tokens"@)
                == JsonView::Integer(n as int)
            &&& settings.store matches Some(b) ==> at(made, "store"@) == JsonView::Bool(b)
            &&& settings.temperature matches Some(x) ==> ((x.bits >> 52) & 0x7ff != 0x7ff ==> at(
                made,
                "temperature"@,
            ) == JsonView::Float(x))
            &&& settings.top_p matches Some(x) ==> ((x.bits >> 52) & 0x7ff != 0x7ff ==> at(
                made,
                "top_p"@,
            ) == JsonView::Float(x))
            &&& settings.parallel_tool_calls matches Some(b) ==> at(made, "parallel_tool_calls"@)
                == JsonView::Bool(b)
            &&& settings.truncation matches Some(s) ==> at(made, "truncation"@)
                == JsonView::String(s)
            &&& settings.tool_choice matches Some(value) ==> at(made, "tool_choice"@) == value
            &&& settings.tools matches Some(values) ==> at(made, "tools"@) == JsonView::Array(
                values,
            )
            &&& settings.metadata matches Some(value) ==> at(made, "metadata"@) == value
            &&& settings.user matches Some(s) ==> at(made, "user"@) == JsonView::String(s)
        }),
{
    lemma_response_names_differ();
    if let Some(x) = settings.temperature {
        law_only_numbers_are_numbers(x);
    }
    if let Some(x) = settings.top_p {
        law_only_numbers_are_numbers(x);
    }
    let made = response(created_at, response_id, item_id, output_text, settings);
    assert(made->Object_0.dom() =~= response_names());
}

/// Every setting that a request leaves out stands in its response with its
/// default, whatever the others are, and so does a float that is no number, as
/// `null`.
pub proof fn law_response_has_defaults(
    created_at: u64,
    response_id: Seq<char>,
    item_id: Seq<char>,
    output_text: Seq<char>,
    settings: SettingsView,
)
    ensures
        ({
            let made = response(created_at, response_id, item_id, output_text, settings);
            let one = Float64 { bits: 0x3ff0_0000_0000_0000 };
            &&& settings.max_output_tokens is None ==> at(made, "max_output_tokens"@)
                == JsonView::Null
            &&& settings.store is None ==> at(made, "store"@) == JsonView::Bool(true)
            &&& settings.temperature is None ==> at(made, "temperature"@) == JsonView::Float(one)
            &&& settings.top_p is None ==> at(made, "top_p"@) == JsonView::Float(one)
            &&& settings.temperature matches Some(x) ==> ((x.bits >> 52) & 0x7ff == 0x7ff ==> at(
                made,
                "temperature"@,
            ) == JsonView::Null)
            &&& settings.top_p matches Some(x) ==> ((x.bits >> 52) & 0x7ff == 0x7ff ==> at(
                made,
                "top_p"@,
            ) == JsonView::Null)
            &&& settings.parallel_tool_calls is None ==> at(made, "parallel_tool_calls"@)
                == JsonView::Bool(true)
            &&& settings.truncation is None ==> at(made, "truncation"@) == JsonView::String(
                "disabled"@,
            )
            &&& settings.tool_choice is None ==> at(made, "tool_choice"@) == JsonView::String(
                "auto"@,
            )
            &&& settings.tools is None ==> at(made, "tools"@) == JsonView::Array(Seq::empty())
            &&& settings.metadata is None ==> at(made, "metadata"@) == JsonView::Object(
                Map::empty(),
            )
            &&& settings.user is None ==> at(made, "user"@) == JsonView::Null
        }),
{
    lemma_response_names_differ();
    let one = Float64 { bits: 0x3ff0_0000_0000_0000 };
    assert((0x3ff0_0000_0000_0000u64 >> 52) & 0x7ff != 0x7ff) by (bit_vector);
    law_only_numbers_are_numbers(one);
    if let Some(x) = settings.temperature {
        law_only_numbers_are_numbers(x);
    }
    if let Some(x) = settings.top_p {
        law_only_numbers_are_numbers(x);
    }
}

/// A response has the identifier and the time that it was made with, and the
/// rest of it is the same for all responses.
pub proof fn law_response_is_completed(
    created_at: u64,
    response_id: Seq<char>,
    item_id: Seq<char>,
    output_text: Seq<char>,
    settings: SettingsView,
)
    ensures
        ({
            let made = response(created_at, response_id, item_id, output_text, settings);
            &&& at(made, "id"@) == JsonView::String(response_id)
            &&& at(made, "created_at"@) == JsonView::Integer(created_at as int)
            &&& at(made, "object"@) == JsonView::String("response"@)
            &&& at(made, "status"@) == JsonView::String("completed"@)
            &&& at(made, "error"@) == JsonView::Null
            &&& at(made, "incomplete_details"@) == JsonView::Null
            &&& at(made, "instructions"@) == JsonView::Null
            &&& at(made, "previous_response_id"@) == JsonView::Null
            &&& has_just(at(made, "reasoning"@), set!["effort"@, "summary"@])
            &&& at(at(made, "reasoning"@), "effort"@) == JsonView::Null
            &&& at(at(made, "reasoning"@), "summary"@) == JsonView::Null
            &&& has_just(at(made, "text"@), set!["format"@])
            &&& has_just(at(at(made, "text"@), "format"@), set!["type"@])
            &&& at(at(at(made, "text"@), "format"@), "type"@) == JsonView::String("text"@)
        }),
{
    lemma_response_names_differ();
    let made = response(created_at, response_id, item_id, output_text, settings);
    assert(at(made, "reasoning"@)->Object_0.dom() =~= set!["effort"@, "summary"@]);
    assert(at(made, "text"@)->Object_0.dom() =~= set!["format"@]);
    assert(at(at(made, "text"@), "format"@)->Object_0.dom() =~= set!["type"@]);
}

/// No tokens are counted, of whatever kind.
pub proof fn law_response_counts_no_tokens(
    created_at: u64,
    response_id: Seq<char>,
    item_id: Seq<char>,
    output_text: Seq<char>,
    settings: SettingsView,
)
    ensures
        ({
            let usage = at(
                response(created_at, response_id, item_id, output_text, settings),
                "usage"@,
            );
            &&& has_just(
                usage,
                set![
                    "input_tokens"@,
                    "input_tokens_details"@,
                    "output_tokens"@,
                    "output_tokens_details"@,
                    "total_tokens"@,
                ],
            )
            &&& at(usage, "input_tokens"@) == JsonView::Integer(0)
            &&& has_just(at(usage, "input_tokens_details"@), set!["cached_tokens"@])
            &&& at(at(usage, "input_tokens_details"@), "cached_tokens"@) == JsonView::Integer(0)
            &&& at(usage, "output_tokens"@) == JsonView::Integer(0)
            &&& has_just(at(usage, "output_tokens_details"@), set!["reasoning_tokens"@])
            &&& at(at(usage, "output_tokens_details"@), "reasoning_tokens"@)
                == JsonView::Integer(0)
            &&& at(usage, "total_tokens"@) == JsonView::Integer(0)
        }),
{
    lemma_response_names_differ();
    reveal_strlit("input_tokens");
    reveal_strlit("input_tokens_details");
    reveal_strlit("output_tokens");
    reveal_strlit("output_tokens_details");
    reveal_strlit("total_tokens");
    assert("input_tokens"@.len() < "output_tokens"@.len() < "input_tokens_details"@.len()
        < "output_tokens_details"@.len());
    assert("total_tokens"@[0] != "input_tokens"@[0]);
    assert("total_tokens"@.len() == 12);
    let usage = at(response(created_at, response_id, item_id, output_text, settings), "usage"@);
    assert(usage->Object_0.dom() =~= set![
        "input_tokens"@,
        "input_tokens_details"@,
        "output_tokens"@,
        "output_tokens_details"@,
        "total_tokens"@,
    ]);
    assert(at(usage, "input_tokens_details"@)->Object_0.dom() =~= set!["cached_tokens"@]);
    assert(at(usage, "output_tokens_details"@)->Object_0.dom() =~= set!["reasoning_tokens"@]);
}

/// The text at a place of the output of a response: that of one part of the
/// content of one of its messages.
pub open spec fn text_at(made: JsonView, output_index: int, content_index: int) -> JsonView {
    let item = at(made, "output"@)->Array_0[output_index];
    at(at(item, "content"@)->Array_0[content_index], "text"@)
}

/// The output of a response is one message of the assistant with its own
/// identifier, and its content is one part with the whole text.
pub proof fn law_response_holds_its_text(
    created_at: u64,
    response_id: Seq<char>,
    item_id: Seq<char>,
    output_text: Seq<char>,
    settings: SettingsView,
)
    ensures
        ({
            let made = response(created_at, response_id, item_id, output_text, settings);
            let item = at(made, "output"@)->Array_0[0];
            let part = at(item, "content"@)->Array_0[0];
            &&& at(made, "output"@) is Array
            &&& at(made, "output"@)->Array_0.len() == 1
            &&& has_just(item, set!["id"@, "type"@, "status"@, "role"@, "content"@])
            &&& at(item, "id"@) == JsonView::String(item_id)
            &&& at(item, "type"@) == JsonView::String("message"@)
            &&& at(item, "status"@) == JsonView::String("completed"@)
            &&& at(item, "role"@) == JsonView::String("assistant"@)
            &&& at(item, "content"@) is Array
            &&& at(item, "content"@)->Array_0.len() == 1
            &&& has_just(part, set!["type"@, "text"@, "annotations"@])
            &&& at(part, "type"@) == JsonView::String("output_text"@)
            &&& at(part, "annotations"@) == JsonView::Array(Seq::empty())
            &&& text_at(made, 0, 0) == JsonView::String(output_text)
        }),
{
    lemma_response_names_differ();
    reveal_strlit("type");
    reveal_strlit("role");
    reveal_strlit("content");
    reveal_strlit("text");
    reveal_strlit("annotations");
    assert("id"@.len() == 2 && "type"@.len() == 4 && "role"@.len() == 4 && "status"@.len() == 6);
    assert("content"@.len() == 7 && "annotations"@.len() == 11 && "text"@.len() == 4);
    assert("type"@[0] != "role"@[0]);
    assert("type"@[1] != "text"@[1]);
    let made = response(created_at, response_id, item_id, output_text, settings);
    let item = at(made, "output"@)->Array_0[0];
    let part = at(item, "content"@)->Array_0[0];
    assert(item->Object_0.dom() =~= set!["id"@, "type"@, "status"@, "role"@, "content"@]);
    assert(part->Object_0.dom() =~= set!["type"@, "text"@, "annotations"@]);
}

/// Each setting decides its own member alone: two responses whose requests agree
/// in a setting agree in what they repeat of it, whatever else they differ in.
pub proof fn law_each_setting_decides_alone(
    created_at: u64,
    response_id: Seq<char>,
    item_id: Seq<char>,
    output_text: Seq<char>,
    one: SettingsView,
    later: u64,
    other_response: Seq<char>,
    other_item: Seq<char>,
    other_text: Seq<char>,
    other: SettingsView,
)
    ensures
        ({
            let left = response(created_at, response_id, item_id, output_text, one);
            let right = response(later, other_response, other_item, other_text, other);
            &&& one.model == other.model ==> at(left, "model"@) == at(right, "model"@)
            &&& one.max_output_tokens == other.max_output_tokens ==> at(
                left,
                "max_output_tokens"@,
            ) == at(right, "max_output_tokens"@)
            &&& one.store == other.store ==> at(left, "store"@) == at(right, "store"@)
            &&& one.temperature == other.temperature ==> at(left, "temperature"@) == at(
                right,
                "temperature"@,
            )
            &&& one.top_p == other.top_p ==> at(left, "top_p"@) == at(right, "top_p"@)
            &&& one.parallel_tool_calls == other.parallel_tool_calls ==> at(
                left,
                "parallel_tool_calls"@,
            ) == at(right, "parallel_tool_calls"@)
            &&& one.truncation == other.truncation ==> at(left, "truncation"@) == at(
                right,
                "truncation"@,
            )
            &&& one.tool_choice == other.tool_choice ==> at(left, "tool_choice"@) == at(
                right,
                "tool_choice"@,
            )
            &&& one.tools == other.tools ==> at(left, "tools"@) == at(right, "tools"@)
            &&& one.metadata == other.metadata ==> at(left, "metadata"@) == at(
                right,
                "metadata"@,
            )
            &&& one.user == other.user ==> at(left, "user"@) == at(right, "user"@)
            &&& output_text == other_text ==> text_at(left, 0, 0) == text_at(right, 0, 0)
        }),
{
    law_response_repeats_settings(created_at, response_id, item_id, output_text, one);
    law_response_repeats_settings(later, other_response, other_item, other_text, other);
    law_response_has_defaults(created_at, response_id, item_id, output_text, one);
    law_response_has_defaults(later, other_response, other_item, other_text, other);
    law_response_holds_its_text(created_at, response_id, item_id, output_text, one);
    law_response_holds_its_text(later, other_response, other_item, other_text, other);
}

/// There is a response if and only if the clock gives a time: it is then the one
/// made at that time, and else the error is the clock's.
pub proof fn law_response_needs_the_time(
    created_at: u64,
    error: ClockError,
    response_id: Seq<char>,
    item_id: Seq<char>,
    output_text: Seq<char>,
    settings: SettingsView,
    value: Json,
)
    ensures
        response_by_clock(Ok(created_at), response_id, item_id, output_text, settings) == Ok::<
            JsonView,
            ClockError,
        >(response(created_at, response_id, item_id, output_text, settings)),
        response_by_clock(Err(error), response_id, item_id, output_text, settings) == Err::<
            JsonView,
            ClockError,
        >(error),
        response_result(Ok(value)) == Ok::<JsonView, ClockError>(value@),
        response_result(Err(error)) == Err::<JsonView, ClockError>(error),
{
}

/// A timestamp counts the whole seconds, whatever the nanoseconds beyond them.
pub proof fn law_timestamp_counts_whole_seconds(seconds: u64, nanoseconds: u32)
    ensures
        timestamp_spec(Some((seconds, nanoseconds))) == Ok::<u64, ClockError>(seconds),
        timestamp_spec(None) == Err::<u64, ClockError>(ClockError::BeforeEpoch),
{
}

/// Identifiers are of one length and of characters that can stand in a URL.
pub proof fn law_identifiers_have_one_form(id: Seq<char>)
    ensures
        is_id(id) <==> id.len() == 21 && forall|i: int|
            0 <= i < id.len() ==> {
                let c = #[trigger] id[i];
                'a' <= c <= 'z' || 'A' <= c <= 'Z' || '0' <= c <= '9' || c == '_' || c == '-'
            },
{
}

} // verus!
