//! The response object that a client receives.

use vstd::prelude::*;

use crate::clock::current_timestamp;
use crate::clock::ClockError;
use crate::json::float_value;
use crate::json::lemma_array_view;
use crate::json::views;
use crate::json::Float64;
use crate::json::Json;
use crate::json::JsonNumber;
use crate::json::JsonObject;
use crate::json::JsonView;
use crate::json::FLOAT_ONE_BITS;
use crate::options::copy_values;
use crate::options::text_option;
use crate::options::value_option;
use crate::options::values_option;

verus! {

/// The settings of a request that its response repeats.
#[verifier::ext_equal]
pub struct SettingsView {
    pub model: Seq<char>,
    pub max_output_tokens: Option<i32>,
    pub store: Option<bool>,
    pub temperature: Option<Float64>,
    pub top_p: Option<Float64>,
    pub parallel_tool_calls: Option<bool>,
    pub truncation: Option<Seq<char>>,
    pub tool_choice: Option<JsonView>,
    pub tools: Option<Seq<JsonView>>,
    pub metadata: Option<JsonView>,
    pub user: Option<Seq<char>>,
}

/// The part of the response's message that holds its text.
pub open spec fn output_part(output_text: Seq<char>) -> JsonView {
    JsonView::Object(
        map![
            "type"@ => JsonView::String("output_text"@),
            "text"@ => JsonView::String(output_text),
            "annotations"@ => JsonView::Array(Seq::empty()),
        ],
    )
}

/// The message of the assistant that a response holds.
pub open spec fn output_item(item_id: Seq<char>, output_text: Seq<char>) -> JsonView {
    JsonView::Object(
        map![
            "id"@ => JsonView::String(item_id),
            "type"@ => JsonView::String("message"@),
            "status"@ => JsonView::String("completed"@),
            "role"@ => JsonView::String("assistant"@),
            "content"@ => JsonView::Array(seq![output_part(output_text)]),
        ],
    )
}

/// The `reasoning` of a response: none was asked for.
pub open spec fn reasoning() -> JsonView {
    JsonView::Object(map!["effort"@ => JsonView::Null, "summary"@ => JsonView::Null])
}

/// The `text` of a response: its format is plain text.
pub open spec fn text_format() -> JsonView {
    JsonView::Object(
        map!["format"@ => JsonView::Object(map!["type"@ => JsonView::String("text"@)])],
    )
}

/// The `usage` of a response: tokens are not counted.
pub open spec fn usage() -> JsonView {
    JsonView::Object(
        map![
            "input_tokens"@ => JsonView::Integer(0),
            "input_tokens_details"@ => JsonView::Object(
                map!["cached_tokens"@ => JsonView::Integer(0)],
            ),
            "output_tokens"@ => JsonView::Integer(0),
            "output_tokens_details"@ => JsonView::Object(
                map!["reasoning_tokens"@ => JsonView::Integer(0)],
            ),
            "total_tokens"@ => JsonView::Integer(0),
        ],
    )
}

/// A completed response. A setting that the request left out has its default,
/// or is `null` where there is none.
pub open spec fn response(
    created_at: u64,
    response_id: Seq<char>,
    item_id: Seq<char>,
    output_text: Seq<char>,
    settings: SettingsView,
) -> JsonView {
    JsonView::Object(
        map![
            "id"@ => JsonView::String(response_id),
            "object"@ => JsonView::String("response"@),
            "created_at"@ => JsonView::Integer(created_at as int),
            "model"@ => JsonView::String(settings.model),
            "status"@ => JsonView::String("completed"@),
            "error"@ => JsonView::Null,
            "incomplete_details"@ => JsonView::Null,
            "instructions"@ => JsonView::Null,
            "max_output_tokens"@ => match settings.max_output_tokens {
                Some(n) => JsonView::Integer(n as int),
                None => JsonView::Null,
            },
            "output"@ => JsonView::Array(seq![output_item(item_id, output_text)]),
            "parallel_tool_calls"@ => JsonView::Bool(settings.parallel_tool_calls.unwrap_or(true)),
            "previous_response_id"@ => JsonView::Null,
            "reasoning"@ => reasoning(),
            "store"@ => JsonView::Bool(settings.store.unwrap_or(true)),
            "temperature"@ => float_value(
                settings.temperature.unwrap_or(Float64 { bits: FLOAT_ONE_BITS }),
            ),
            "text"@ => text_format(),
            "tool_choice"@ => settings.tool_choice.unwrap_or(JsonView::String("auto"@)),
            "tools"@ => JsonView::Array(settings.tools.unwrap_or(Seq::empty())),
            "top_p"@ => float_value(settings.top_p.unwrap_or(Float64 { bits: FLOAT_ONE_BITS })),
            "truncation"@ => JsonView::String(settings.truncation.unwrap_or("disabled"@)),
            "user"@ => match settings.user {
                Some(user) => JsonView::String(user),
                None => JsonView::Null,
            },
            "metadata"@ => settings.metadata.unwrap_or(JsonView::Object(Map::empty())),
            "usage"@ => usage(),
        ],
    )
}

/// The response by a reading of the clock: without a timestamp there is none.
pub open spec fn response_by_clock(
    clock: Result<u64, ClockError>,
    response_id: Seq<char>,
    item_id: Seq<char>,
    output_text: Seq<char>,
    settings: SettingsView,
) -> Result<JsonView, ClockError> {
    match clock {
        Ok(created_at) => Ok(response(created_at, response_id, item_id, output_text, settings)),
        Err(error) => Err(error),
    }
}

/// What a response, or the reason why there is none, stands for.
pub open spec fn response_result(result: Result<Json, ClockError>) -> Result<
    JsonView,
    ClockError,
> {
    match result {
        Ok(value) => Ok(value@),
        Err(error) => Err(error),
    }
}

/// The array of the given items.
fn array_of(items: Vec<Json>) -> (array: Json)
    ensures
        array@ == JsonView::Array(views(items@)),
{
    proof {
        lemma_array_view(items);
    }
    Json::Array(items)
}

/// The array with the one item.
fn singleton(item: Json) -> (array: Json)
    ensures
        array@ == JsonView::Array(seq![item@]),
{
    let mut items: Vec<Json> = Vec::new();
    items.push(item);
    assert(views(items@) =~= seq![item@]);
    array_of(items)
}

/// The part of the response's message that holds its text.
fn output_part_json(output_text: &str) -> (part: Json)
    ensures
        part@ == output_part(output_text@),
{
    let mut part = JsonObject::new();
    part.insert("type", Json::string("output_text"));
    part.insert("text", Json::string(output_text));
    part.insert("annotations", Json::empty_array());
    Json::Object(part)
}

/// The message of the assistant that a response holds.
fn output_item_json(item_id: &str, output_text: &str) -> (item: Json)
    ensures
        item@ == output_item(item_id@, output_text@),
{
    let mut item = JsonObject::new();
    item.insert("id", Json::string(item_id));
    item.insert("type", Json::string("message"));
    item.insert("status", Json::string("completed"));
    item.insert("role", Json::string("assistant"));
    item.insert("content", singleton(output_part_json(output_text)));
    Json::Object(item)
}

/// The `reasoning` of a response.
fn reasoning_json() -> (value: Json)
    ensures
        value@ == reasoning(),
{
    let mut value = JsonObject::new();
    value.insert("effort", Json::Null);
    value.insert("summary", Json::Null);
    Json::Object(value)
}

/// The `text` of a response.
fn text_format_json() -> (value: Json)
    ensures
        value@ == text_format(),
{
    let mut format = JsonObject::new();
    format.insert("type", Json::string("text"));
    let mut value = JsonObject::new();
    value.insert("format", Json::Object(format));
    Json::Object(value)
}

/// The `usage` of a response.
fn usage_json() -> (value: Json)
    ensures
        value@ == usage(),
{
    let mut input_details = JsonObject::new();
    input_details.insert("cached_tokens", Json::Number(JsonNumber::Unsigned(0)));
    let mut output_details = JsonObject::new();
    output_details.insert("reasoning_tokens", Json::Number(JsonNumber::Unsigned(0)));
    let mut value = JsonObject::new();
    value.insert("input_tokens", Json::Number(JsonNumber::Unsigned(0)));
    value.insert("input_tokens_details", Json::Object(input_details));
    value.insert("output_tokens", Json::Number(JsonNumber::Unsigned(0)));
    value.insert("output_tokens_details", Json::Object(output_details));
    value.insert("total_tokens", Json::Number(JsonNumber::Unsigned(0)));
    Json::Object(value)
}

/// The response that was completed at the given time.
pub fn response_json_at(
    created_at: u64,
    response_id: &str,
    model: &str,
    output_text: &str,
    item_id: &str,
    max_output_tokens: Option<i32>,
    store: Option<bool>,
    temperature: Option<Float64>,
    top_p: Option<Float64>,
    parallel_tool_calls: Option<bool>,
    truncation: Option<&str>,
    tool_choice: Option<&Json>,
    tools: Option<&[Json]>,
    metadata: Option<&Json>,
    user: Option<&str>,
) -> (value: Json)
    ensures
        value@ == response(
            created_at,
            response_id@,
            item_id@,
            output_text@,
            (SettingsView {
                model: model@,
                max_output_tokens,
                store,
                temperature,
                top_p,
                parallel_tool_calls,
                truncation: text_option(truncation),
                tool_choice: value_option(tool_choice),
                tools: values_option(tools),
                metadata: value_option(metadata),
                user: text_option(user),
            }),
        ),
{
    let one = Float64 { bits: FLOAT_ONE_BITS };
    let mut value = JsonObject::new();
    value.insert("id", Json::string(response_id));
    value.insert("object", Json::string("response"));
    value.insert("created_at", Json::Number(JsonNumber::Unsigned(created_at)));
    value.insert("model", Json::string(model));
    value.insert("status", Json::string("completed"));
    value.insert("error", Json::Null);
    value.insert("incomplete_details", Json::Null);
    value.insert("instructions", Json::Null);
    value.insert(
        "max_output_tokens",
        match max_output_tokens {
            Some(n) => Json::Number(JsonNumber::Signed(n as i64)),
            None => Json::Null,
        },
    );
    value.insert("output", singleton(output_item_json(item_id, output_text)));
    value.insert("parallel_tool_calls", Json::Bool(parallel_tool_calls.unwrap_or(true)));
    value.insert("previous_response_id", Json::Null);
    value.insert("reasoning", reasoning_json());
    value.insert("store", Json::Bool(store.unwrap_or(true)));
    value.insert("temperature", Json::float(temperature.unwrap_or(one)));
    value.insert("text", text_format_json());
    value.insert(
        "tool_choice",
        match tool_choice {
            Some(choice) => choice.clone(),
            None => Json::string("auto"),
        },
    );
    value.insert(
        "tools",
        match tools {
            Some(tools) => array_of(copy_values(tools)),
            None => Json::empty_array(),
        },
    );
    value.insert("top_p", Json::float(top_p.unwrap_or(one)));
    value.insert("truncation", Json::string(truncation.unwrap_or("disabled")));
    value.insert(
        "user",
        match user {
            Some(user) => Json::string(user),
            None => Json::Null,
        },
    );
    value.insert(
        "metadata",
        match metadata {
            Some(metadata) => metadata.clone(),
            None => Json::Object(JsonObject::new()),
        },
    );
    value.insert("usage", usage_json());
    Json::Object(value)
}

/// The response that was completed at the time that the clock gave, or the
/// reason why the clock gave none.
pub fn response_json_by_clock(
    clock: Result<u64, ClockError>,
    response_id: &str,
    model: &str,
    output_text: &str,
    item_id: &str,
    max_output_tokens: Option<i32>,
    store: Option<bool>,
    temperature: Option<Float64>,
    top_p: Option<Float64>,
    parallel_tool_calls: Option<bool>,
    truncation: Option<&str>,
    tool_choice: Option<&Json>,
    tools: Option<&[Json]>,
    metadata: Option<&Json>,
    user: Option<&str>,
) -> (result: Result<Json, ClockError>)
    ensures
        response_result(result) == response_by_clock(
            clock,
            response_id@,
            item_id@,
            output_text@,
            (SettingsView {
                model: model@,
                max_output_tokens,
                store,
                temperature,
                top_p,
                parallel_tool_calls,
                truncation: text_option(truncation),
                tool_choice: value_option(tool_choice),
                tools: values_option(tools),
                metadata: value_option(metadata),
                user: text_option(user),
            }),
        ),
{
    match clock {
        Ok(created_at) => Ok(
            response_json_at(
                created_at,
                response_id,
                model,
                output_text,
                item_id,
                max_output_tokens,
                store,
                temperature,
                top_p,
                parallel_tool_calls,
                truncation,
                tool_choice,
                tools,
                metadata,
                user,
            ),
        ),
        Err(error) => Err(error),
    }
}

/// The response that is completed now. It fails where the clock of the system
/// gives no timestamp, and for no other reason: it is what
/// [`response_json_by_clock`] makes of what the clock gives.
pub fn build_response_json(
    response_id: &str,
    model: &str,
    output_text: &str,
    item_id: &str,
    max_output_tokens: Option<i32>,
    store: Option<bool>,
    temperature: Option<Float64>,
    top_p: Option<Float64>,
    parallel_tool_calls: Option<bool>,
    truncation: Option<&str>,
    tool_choice: Option<&Json>,
    tools: Option<&[Json]>,
    metadata: Option<&Json>,
    user: Option<&str>,
) -> (result: Result<Json, ClockError>)
    ensures
        exists|clock: Result<u64, ClockError>|
            response_result(result) == #[trigger] response_by_clock(
                clock,
                response_id@,
                item_id@,
                output_text@,
                (SettingsView {
                    model: model@,
                    max_output_tokens,
                    store,
                    temperature,
                    top_p,
                    parallel_tool_calls,
                    truncation: text_option(truncation),
                    tool_choice: value_option(tool_choice),
                    tools: values_option(tools),
                    metadata: value_option(metadata),
                    user: text_option(user),
                }),
            ),
{
    response_json_by_clock(
        current_timestamp(),
        response_id,
        model,
        output_text,
        item_id,
        max_output_tokens,
        store,
        temperature,
        top_p,
        parallel_tool_calls,
        truncation,
        tool_choice,
        tools,
        metadata,
        user,
    )
}

} // verus!
