//! From the messages of an agent to what a client receives: one event for each
//! message, or one response for all of them.

use vstd::prelude::*;

use crate::clock::current_timestamp;
use crate::clock::ClockError;
use crate::json::Float64;
use crate::json::Json;
use crate::json::JsonNumber;
use crate::json::JsonObject;
use crate::json::JsonView;
use crate::messages::Event;
use crate::messages::EventView;
use crate::messages::OutgoingMessage;
use crate::messages::TransformError;
use crate::messages::TransformErrorView;
use crate::options::lend_text;
use crate::options::lend_value;
use crate::options::lend_values;
use crate::options::owned_text;
use crate::options::owned_value;
use crate::options::owned_values;
use crate::response::response;
use crate::response::response_json_at;
use crate::response::SettingsView;

verus! {

/// Turns each message of an agent into an event, and keeps the text that was
/// generated so far.
#[derive(Debug)]
pub struct OpenAIResponsesStreamingResponseTransformer {
    pub model: String,
    pub response_id: String,
    pub item_id: String,
    pub output_text: String,
    pub max_output_tokens: Option<i32>,
    pub store: Option<bool>,
    pub temperature: Option<Float64>,
    pub top_p: Option<Float64>,
    pub parallel_tool_calls: Option<bool>,
    pub truncation: Option<String>,
    pub tool_choice: Option<Json>,
    pub tools: Option<Vec<Json>>,
    pub metadata: Option<Json>,
    pub user: Option<String>,
}

/// What a response under way is made of.
#[verifier::ext_equal]
pub struct StreamView {
    pub response_id: Seq<char>,
    pub item_id: Seq<char>,
    pub output_text: Seq<char>,
    pub settings: SettingsView,
}

impl View for OpenAIResponsesStreamingResponseTransformer {
    type V = StreamView;

    open spec fn view(&self) -> StreamView {
        StreamView {
            response_id: self.response_id@,
            item_id: self.item_id@,
            output_text: self.output_text@,
            settings: SettingsView {
                model: self.model@,
                max_output_tokens: self.max_output_tokens,
                store: self.store,
                temperature: self.temperature,
                top_p: self.top_p,
                parallel_tool_calls: self.parallel_tool_calls,
                truncation: owned_text(self.truncation),
                tool_choice: owned_value(self.tool_choice),
                tools: owned_values(self.tools),
                metadata: owned_value(self.metadata),
                user: owned_text(self.user),
            },
        }
    }
}

/// The event that carries one token.
pub open spec fn delta_event(state: StreamView, token: Seq<char>) -> JsonView {
    JsonView::Object(
        map![
            "type"@ => JsonView::String("response.output_text.delta"@),
            "response_id"@ => JsonView::String(state.response_id),
            "output_index"@ => JsonView::Integer(0),
            "content_index"@ => JsonView::Integer(0),
            "item_id"@ => JsonView::String(state.item_id),
            "delta"@ => JsonView::String(token),
        ],
    )
}

/// The event that carries the whole response.
pub open spec fn completed_event(state: StreamView, created_at: u64) -> JsonView {
    JsonView::Object(
        map![
            "type"@ => JsonView::String("response.completed"@),
            "response"@ => response(
                created_at,
                state.response_id,
                state.item_id,
                state.output_text,
                state.settings,
            ),
        ],
    )
}

/// The response under way after an event: a token is added to its text.
pub open spec fn next_state(state: StreamView, event: EventView) -> StreamView {
    match event {
        EventView::Token(token) => StreamView { output_text: state.output_text + token, ..state },
        _ => state,
    }
}

/// What a client receives for an event, with the clock as it is when there are
/// no more tokens.
pub open spec fn stream_output(
    state: StreamView,
    event: EventView,
    clock: Result<u64, ClockError>,
) -> Result<JsonView, TransformErrorView> {
    match event {
        EventView::Token(token) => Ok(delta_event(state, token)),
        EventView::Done => match clock {
            Ok(created_at) => Ok(completed_event(state, created_at)),
            Err(error) => Err(TransformErrorView::Clock(error)),
        },
        EventView::Other { serialized, .. } => match serialized {
            Ok(value) => Ok(value),
            Err(reason) => Err(TransformErrorView::Serialization(reason)),
        },
    }
}

/// What the outcome of a transformation into JSON stands for.
pub open spec fn json_result(result: Result<Json, TransformError>) -> Result<
    JsonView,
    TransformErrorView,
> {
    match result {
        Ok(value) => Ok(value@),
        Err(error) => Err(error@),
    }
}

impl OpenAIResponsesStreamingResponseTransformer {
    /// Adds a token to the text, and gives the event that carries it.
    pub fn delta(&mut self, token: String) -> (event: Json)
        ensures
            event@ == delta_event(old(self)@, token@),
            final(self)@ == next_state(old(self)@, EventView::Token(token@)),
    {
        self.output_text.append(token.as_str());
        let mut event = JsonObject::new();
        event.insert("type", Json::string("response.output_text.delta"));
        event.insert("response_id", Json::string(self.response_id.as_str()));
        event.insert("output_index", Json::Number(JsonNumber::Unsigned(0)));
        event.insert("content_index", Json::Number(JsonNumber::Unsigned(0)));
        event.insert("item_id", Json::string(self.item_id.as_str()));
        event.insert("delta", Json::String(token));
        Json::Object(event)
    }

    /// The event that carries the whole response, as completed at the given
    /// time.
    pub fn completed_at(&self, created_at: u64) -> (event: Json)
        ensures
            event@ == completed_event(self@, created_at),
    {
        let mut event = JsonObject::new();
        event.insert("type", Json::string("response.completed"));
        event.insert(
            "response",
            response_json_at(
                created_at,
                self.response_id.as_str(),
                self.model.as_str(),
                self.output_text.as_str(),
                self.item_id.as_str(),
                self.max_output_tokens,
                self.store,
                self.temperature,
                self.top_p,
                self.parallel_tool_calls,
                lend_text(&self.truncation),
                lend_value(&self.tool_choice),
                lend_values(&self.tools),
                lend_value(&self.metadata),
                lend_text(&self.user),
            ),
        );
        Json::Object(event)
    }

    /// What a client receives for a message, with the clock as it is when there
    /// are no more tokens.
    pub fn transform(&mut self, message: OutgoingMessage) -> (result: Result<
        Json,
        TransformError,
    >)
        ensures
            final(self)@ == next_state(old(self)@, message@),
            exists|clock: Result<u64, ClockError>|
                json_result(result) == #[trigger] stream_output(old(self)@, message@, clock),
    {
        let ghost before = self@;
        match message.into_event() {
            Event::Token(token) => {
                let result = Ok(self.delta(token));
                proof {
                    let unused = Err::<u64, ClockError>(ClockError::BeforeEpoch);
                    assert(json_result(result) == stream_output(before, message@, unused));
                }
                result
            },
            Event::Done => {
                let clock = current_timestamp();
                let result = match clock {
                    Ok(created_at) => Ok(self.completed_at(created_at)),
                    Err(error) => Err(TransformError::Clock(error)),
                };
                assert(json_result(result) == stream_output(before, message@, clock));
                result
            },
            Event::Other(other) => {
                let result = match other.serialized {
                    Ok(value) => Ok(value),
                    Err(reason) => Err(TransformError::Serialization(reason)),
                };
                proof {
                    let unused = Err::<u64, ClockError>(ClockError::BeforeEpoch);
                    assert(json_result(result) == stream_output(before, message@, unused));
                }
                result
            },
        }
    }
}

/// Turns each message of an agent into the text that it adds to the response.
#[derive(Clone, Copy, Debug)]
pub struct OpenAIResponsesCombinedResponseTransformer {}

/// The text that an event adds to the response.
pub open spec fn chunk(event: EventView) -> Result<Seq<char>, TransformErrorView> {
    match event {
        EventView::Token(token) => Ok(token),
        EventView::Done => Ok(Seq::empty()),
        EventView::Other { debug, .. } => Err(TransformErrorView::UnexpectedMessage(debug)),
    }
}

/// What the outcome of a transformation into text stands for.
pub open spec fn text_result(result: Result<String, TransformError>) -> Result<
    Seq<char>,
    TransformErrorView,
> {
    match result {
        Ok(s) => Ok(s@),
        Err(error) => Err(error@),
    }
}

impl OpenAIResponsesCombinedResponseTransformer {
    /// The form in which a text is sent: its own.
    pub fn stringify(&self, message: &String) -> (result: Result<String, TransformError>)
        ensures
            text_result(result) == Ok::<Seq<char>, TransformErrorView>(message@),
    {
        Ok(message.clone())
    }

    /// The text that a message adds to the response.
    pub fn transform(&self, message: OutgoingMessage) -> (result: Result<String, TransformError>)
        ensures
            text_result(result) == chunk(message@),
    {
        match message.into_event() {
            Event::Token(token) => Ok(token),
            Event::Done => Ok(String::new()),
            Event::Other(other) => Err(TransformError::UnexpectedMessage(other.debug)),
        }
    }
}

/// Texts one after the other.
pub open spec fn joined(texts: Seq<Seq<char>>) -> Seq<char>
    decreases texts.len(),
{
    if texts.len() == 0 {
        Seq::empty()
    } else {
        joined(texts.drop_last()) + texts.last()
    }
}

/// What a list of texts stands for.
pub open spec fn text_views(texts: Seq<String>) -> Seq<Seq<char>> {
    texts.map_values(|s: String| s@)
}

/// Puts texts one after the other.
pub fn join_chunks(chunks: &Vec<String>) -> (output: String)
    ensures
        output@ == joined(text_views(chunks@)),
{
    let mut output = String::new();
    let mut i: usize = 0;
    assert(text_views(chunks@).take(0) =~= Seq::empty());
    while i < chunks.len()
        invariant
            i <= chunks.len(),
            output@ == joined(text_views(chunks@).take(i as int)),
        decreases chunks.len() - i,
    {
        output.append(chunks[i].as_str());
        proof {
            let taken = text_views(chunks@).take(i + 1);
            assert(taken.drop_last() =~= text_views(chunks@).take(i as int));
            assert(taken.last() == chunks@[i as int]@);
        }
        i += 1;
    }
    assert(text_views(chunks@).take(chunks@.len() as int) =~= text_views(chunks@));
    output
}

} // verus!
