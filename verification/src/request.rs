//! From a request to what is asked of an agent, and to the response.

use vstd::prelude::*;

use crate::clock::current_timestamp;
use crate::clock::ClockError;
use crate::ids::is_id;
use crate::ids::new_id;
use crate::input::input_messages;
use crate::input::input_value_to_messages;
use crate::input::message_views;
use crate::input::ConversationMessage;
use crate::input::InputError;
use crate::input::MessageView;
use crate::json::views;
use crate::json::Float64;
use crate::json::Json;
use crate::json::JsonView;
use crate::options::copy_list;
use crate::options::copy_text;
use crate::options::copy_value;
use crate::options::lend_text;
use crate::options::lend_value;
use crate::options::lend_values;
use crate::options::owned_text;
use crate::options::owned_value;
use crate::options::owned_values;
use crate::response::response_by_clock;
use crate::response::response_json_by_clock;
use crate::response::response_result;
use crate::response::SettingsView;
use crate::stream::join_chunks;
use crate::stream::joined;
use crate::stream::text_views;
use crate::stream::OpenAIResponsesStreamingResponseTransformer;
use crate::stream::StreamView;

verus! {

/// The number of tokens that an agent may generate where a request sets no
/// limit.
pub const DEFAULT_MAX_TOKENS: i32 = 2000;

/// The body of a request.
#[derive(Debug)]
pub struct OpenAIResponsesRequestParams {
    pub input: Json,
    pub max_output_tokens: Option<i32>,
    /// Clients have to name a model. It is repeated in the response and decides
    /// nothing.
    pub model: String,
    pub store: Option<bool>,
    pub temperature: Option<Float64>,
    pub top_p: Option<Float64>,
    pub parallel_tool_calls: Option<bool>,
    pub truncation: Option<String>,
    pub tool_choice: Option<Json>,
    pub tools: Option<Vec<Json>>,
    pub metadata: Option<Json>,
    pub user: Option<String>,
    pub stream: bool,
}

/// What a request stands for.
#[verifier::ext_equal]
pub struct RequestView {
    pub input: JsonView,
    pub stream: bool,
    pub settings: SettingsView,
}

impl View for OpenAIResponsesRequestParams {
    type V = RequestView;

    open spec fn view(&self) -> RequestView {
        RequestView {
            input: self.input@,
            stream: self.stream,
            settings: SettingsView {
                model: self.model@,
                max_output_tokens: self.max_output_tokens,
                store: self.store,
                temperature: self.temperature,
                top_p: self.top_p,
                parallel_tool_calls: self.parallel_tool_calls,
                truncation: owned_text(self.truncation),
                tool_choice: owned_value(self.tool_choice),
                tools: owned_values(self.tools),
                metadata: owned_value(self.metadata),
                user: owned_text(self.user),
            },
        }
    }
}

/// What an agent is asked to do.
#[derive(Debug)]
pub struct ContinueFromConversationHistoryParams {
    pub add_generation_prompt: bool,
    pub conversation_history: Vec<ConversationMessage>,
    pub enable_thinking: bool,
    pub max_tokens: i32,
    pub tools: Vec<Json>,
}

/// What it stands for.
#[verifier::ext_equal]
pub struct ConversationView {
    pub add_generation_prompt: bool,
    pub conversation_history: Seq<MessageView>,
    pub enable_thinking: bool,
    pub max_tokens: i32,
    pub tools: Seq<JsonView>,
}

impl View for ContinueFromConversationHistoryParams {
    type V = ConversationView;

    open spec fn view(&self) -> ConversationView {
        ConversationView {
            add_generation_prompt: self.add_generation_prompt,
            conversation_history: message_views(self.conversation_history@),
            enable_thinking: self.enable_thinking,
            max_tokens: self.max_tokens,
            tools: views(self.tools@),
        }
    }
}

/// What an agent is asked to do for a request: to continue the conversation of
/// its input, without tools, up to the limit of the request. A request whose
/// input is rejected asks for nothing.
pub open spec fn conversation(request: RequestView) -> Result<ConversationView, InputError> {
    match input_messages(request.input) {
        Ok(messages) => Ok(
            ConversationView {
                add_generation_prompt: true,
                conversation_history: messages,
                enable_thinking: true,
                max_tokens: request.settings.max_output_tokens.unwrap_or(DEFAULT_MAX_TOKENS),
                tools: Seq::empty(),
            },
        ),
        Err(error) => Err(error),
    }
}

/// A response before its first token.
pub open spec fn stream_start(
    settings: SettingsView,
    response_id: Seq<char>,
    item_id: Seq<char>,
) -> StreamView {
    StreamView { response_id, item_id, output_text: Seq::empty(), settings }
}

/// How a request is answered.
#[derive(Debug)]
pub enum ResponsePlan {
    /// Event by event, as the agent generates tokens.
    Stream {
        params: ContinueFromConversationHistoryParams,
        transformer: OpenAIResponsesStreamingResponseTransformer,
    },
    /// With one response, once there are no more tokens.
    Combine { params: ContinueFromConversationHistoryParams },
}

/// What an agent is asked to do for a request.
pub fn conversation_params(openai_params: &OpenAIResponsesRequestParams) -> (result: Result<
    ContinueFromConversationHistoryParams,
    InputError,
>)
    ensures
        match result {
            Ok(params) => conversation(openai_params@) == Ok::<ConversationView, InputError>(
                params@,
            ),
            Err(error) => conversation(openai_params@) == Err::<ConversationView, InputError>(
                error,
            ),
        },
{
    match input_value_to_messages(openai_params.input.clone()) {
        Ok(conversation_history) => {
            let tools: Vec<Json> = Vec::new();
            assert(views(tools@) =~= Seq::empty());
            Ok(
                ContinueFromConversationHistoryParams {
                    add_generation_prompt: true,
                    conversation_history,
                    enable_thinking: true,
                    max_tokens: openai_params.max_output_tokens.unwrap_or(DEFAULT_MAX_TOKENS),
                    tools,
                },
            )
        },
        Err(error) => Err(error),
    }
}

impl OpenAIResponsesStreamingResponseTransformer {
    /// The transformer for a request, with the identifiers that its response
    /// has.
    pub fn new(
        openai_params: &OpenAIResponsesRequestParams,
        response_id: String,
        item_id: String,
    ) -> (transformer: OpenAIResponsesStreamingResponseTransformer)
        ensures
            transformer@ == stream_start(openai_params@.settings, response_id@, item_id@),
    {
        OpenAIResponsesStreamingResponseTransformer {
            model: openai_params.model.clone(),
            response_id,
            item_id,
            output_text: String::new(),
            max_output_tokens: openai_params.max_output_tokens,
            store: openai_params.store,
            temperature: openai_params.temperature,
            top_p: openai_params.top_p,
            parallel_tool_calls: openai_params.parallel_tool_calls,
            truncation: copy_text(&openai_params.truncation),
            tool_choice: copy_value(&openai_params.tool_choice),
            tools: copy_list(&openai_params.tools),
            metadata: copy_value(&openai_params.metadata),
            user: copy_text(&openai_params.user),
        }
    }
}

/// How a request is answered, or why it is rejected. A streamed response has
/// new identifiers.
pub fn respond(openai_params: &OpenAIResponsesRequestParams) -> (result: Result<
    ResponsePlan,
    InputError,
>)
    ensures
        match result {
            Ok(ResponsePlan::Stream { params, transformer }) => {
                &&& openai_params@.stream
                &&& conversation(openai_params@) == Ok::<ConversationView, InputError>(params@)
                &&& is_id(transformer@.response_id)
                &&& is_id(transformer@.item_id)
                &&& transformer@ == stream_start(
                    openai_params@.settings,
                    transformer@.response_id,
                    transformer@.item_id,
                )
            },
            Ok(ResponsePlan::Combine { params }) => {
                &&& !openai_params@.stream
                &&& conversation(openai_params@) == Ok::<ConversationView, InputError>(params@)
            },
            Err(error) => conversation(openai_params@) == Err::<ConversationView, InputError>(
                error,
            ),
        },
{
    match conversation_params(openai_params) {
        Ok(params) => if openai_params.stream {
            let response_id = new_id();
            let item_id = new_id();
            Ok(
                ResponsePlan::Stream {
                    params,
                    transformer: OpenAIResponsesStreamingResponseTransformer::new(
                        openai_params,
                        response_id,
                        item_id,
                    ),
                },
            )
        } else {
            Ok(ResponsePlan::Combine { params })
        },
        Err(error) => Err(error),
    }
}

/// The one response to a request, from the texts that the messages of the agent
/// added, with the given identifiers and at the time that the clock gave. It
/// fails where the clock gave none.
pub fn combined_response_with(
    openai_params: &OpenAIResponsesRequestParams,
    chunks: &Vec<String>,
    clock: Result<u64, ClockError>,
    response_id: &str,
    item_id: &str,
) -> (result: Result<Json, ClockError>)
    ensures
        response_result(result) == response_by_clock(
            clock,
            response_id@,
            item_id@,
            joined(text_views(chunks@)),
            openai_params@.settings,
        ),
{
    let combined = join_chunks(chunks);
    response_json_by_clock(
        clock,
        response_id,
        openai_params.model.as_str(),
        combined.as_str(),
        item_id,
        openai_params.max_output_tokens,
        openai_params.store,
        openai_params.temperature,
        openai_params.top_p,
        openai_params.parallel_tool_calls,
        lend_text(&openai_params.truncation),
        lend_value(&openai_params.tool_choice),
        lend_values(&openai_params.tools),
        lend_value(&openai_params.metadata),
        lend_text(&openai_params.user),
    )
}

/// The one response to a request, from the texts that the messages of the agent
/// added. It is what [`combined_response_with`] makes of what the clock of the
/// system gives and of new identifiers, and so fails only where the clock gives
/// no timestamp.
pub fn combined_response(
    openai_params: &OpenAIResponsesRequestParams,
    chunks: &Vec<String>,
) -> (result: Result<Json, ClockError>)
    ensures
        exists|
            clock: Result<u64, ClockError>,
            response_id: Seq<char>,
            item_id: Seq<char>,
        |
            {
                &&& is_id(response_id)
                &&& is_id(item_id)
                &&& response_result(result) == #[trigger] response_by_clock(
                    clock,
                    response_id,
                    item_id,
                    joined(text_views(chunks@)),
                    openai_params@.settings,
                )
            },
{
    let response_id = new_id();
    let item_id = new_id();
    combined_response_with(
        openai_params,
        chunks,
        current_timestamp(),
        response_id.as_str(),
        item_id.as_str(),
    )
}

} // verus!
