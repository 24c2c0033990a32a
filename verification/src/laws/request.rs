//! Laws of what an agent is asked to do for a request.

use vstd::prelude::*;

use crate::input::input_messages;
use crate::input::item_view;
use crate::input::InputError;
use crate::input::ItemView;
use crate::input::MessageView;
use crate::json::JsonView;
use crate::laws::input::law_every_message_keeps_its_place;
use crate::laws::input::law_input_is_all_its_items;
use crate::request::conversation;
use crate::request::stream_start;
use crate::request::ContinueFromConversationHistoryParams;
use crate::request::OpenAIResponsesRequestParams;
use crate::request::RequestView;
use crate::response::SettingsView;

verus! {

/// A request stands for what it holds.
pub proof fn law_request_stands_for_what_it_holds(request: OpenAIResponsesRequestParams)
    ensures
        request@.input == request.input@,
        request@.stream == request.stream,
        request@.settings.model == request.model@,
        request@.settings.max_output_tokens == request.max_output_tokens,
        request@.settings.store == request.store,
        request@.settings.temperature == request.temperature,
        request@.settings.top_p == request.top_p,
        request@.settings.parallel_tool_calls == request.parallel_tool_calls,
        request.truncation matches Some(s) ==> request@.settings.truncation == Some(s@),
        request.truncation is None ==> request@.settings.truncation is None,
        request.tool_choice matches Some(value) ==> request@.settings.tool_choice == Some(value@),
        request.tool_choice is None ==> request@.settings.tool_choice is None,
        request.tools is Some <==> request@.settings.tools is Some,
        request.tools matches Some(tools) ==> request@.settings.tools->0.len() == tools@.len()
            && forall|i: int|
            0 <= i < tools@.len() ==> #[trigger] request@.settings.tools->0[i] == tools@[i]@,
        request.metadata matches Some(value) ==> request@.settings.metadata == Some(value@),
        request.metadata is None ==> request@.settings.metadata is None,
        request.user matches Some(s) ==> request@.settings.user == Some(s@),
        request.user is None ==> request@.settings.user is None,
{
}

/// What an agent is asked stands for what it holds: every message of the history
/// and every tool, one by one.
pub proof fn law_question_stands_for_what_it_holds(params: ContinueFromConversationHistoryParams)
    ensures
        params@.add_generation_prompt == params.add_generation_prompt,
        params@.enable_thinking == params.enable_thinking,
        params@.max_tokens == params.max_tokens,
        params@.conversation_history.len() == params.conversation_history@.len(),
        forall|i: int|
            0 <= i < params.conversation_history@.len() ==> (
            #[trigger] params@.conversation_history[i]).content
                == params.conversation_history@[i].content@ && params@.conversation_history[i].role
                == params.conversation_history@[i].role@,
        params@.tools.len() == params.tools@.len(),
        forall|i: int|
            0 <= i < params.tools@.len() ==> #[trigger] params@.tools[i] == params.tools@[i]@,
{
}

/// An agent is given the whole history of an input that is accepted, a prompt to
/// go on, and no tools. It may generate as many tokens as the request allows, or
/// two thousand.
pub proof fn law_agent_is_given_the_whole_history(request: RequestView)
    ensures
        conversation(request) is Ok <==> input_messages(request.input) is Ok,
        conversation(request) matches Ok(asked) ==> {
            &&& input_messages(request.input) == Ok::<Seq<MessageView>, InputError>(
                asked.conversation_history,
            )
            &&& asked.add_generation_prompt
            &&& asked.enable_thinking
            &&& asked.tools.len() == 0
            &&& request.settings.max_output_tokens matches Some(n) ==> asked.max_tokens == n
            &&& request.settings.max_output_tokens is None ==> asked.max_tokens == 2000
        },
{
}

/// The history that an agent is given leaves nothing out: that of two lists of
/// items together is that of the first and then that of the second.
pub proof fn law_history_is_all_the_items(
    first: Seq<JsonView>,
    second: Seq<JsonView>,
    request: RequestView,
)
    requires
        conversation(RequestView { input: JsonView::Array(first), ..request }) is Ok,
        conversation(RequestView { input: JsonView::Array(second), ..request }) is Ok,
    ensures
        ({
            let before = conversation(RequestView { input: JsonView::Array(first), ..request });
            let after = conversation(RequestView { input: JsonView::Array(second), ..request });
            conversation(
                RequestView { input: JsonView::Array(first + second), ..request },
            ) matches Ok(asked) && asked.conversation_history
                == before->Ok_0.conversation_history + after->Ok_0.conversation_history
        }),
{
    law_input_is_all_its_items(first, second);
}

/// Where every item of the input is a message, the agent is given as many, each
/// at the place of its item.
pub proof fn law_every_message_reaches_the_agent(items: Seq<JsonView>, request: RequestView)
    requires
        request.input == JsonView::Array(items),
        forall|i: int| 0 <= i < items.len() ==> item_view(#[trigger] items[i]) is Message,
    ensures
        conversation(request) matches Ok(asked) && asked.conversation_history.len() == items.len()
            && forall|i: int|
            0 <= i < items.len() ==> item_view(#[trigger] items[i]) == ItemView::Message(
                asked.conversation_history[i],
            ),
{
    law_every_message_keeps_its_place(items);
}

/// A streamed response starts without text, with its identifiers and with the
/// settings of its request.
pub proof fn law_stream_starts_without_text(
    settings: SettingsView,
    response_id: Seq<char>,
    item_id: Seq<char>,
)
    ensures
        stream_start(settings, response_id, item_id).output_text == Seq::<char>::empty(),
        stream_start(settings, response_id, item_id).response_id == response_id,
        stream_start(settings, response_id, item_id).item_id == item_id,
        stream_start(settings, response_id, item_id).settings == settings,
{
}

} // verus!
