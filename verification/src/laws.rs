//! What holds of the library as a whole.

pub mod input;
pub mod request;
pub mod response;
pub mod stream;
pub mod values;

use vstd::prelude::*;

use crate::clock::ClockError;
use crate::input::content_text;
use crate::input::input_messages;
use crate::input::item_view;
use crate::input::items_messages;
use crate::input::lemma_first_rejection;
use crate::input::part_text;
use crate::input::parts_text;
use crate::input::InputError;
use crate::input::ItemView;
use crate::input::MessageView;
use crate::json::JsonView;
use crate::messages::EventView;
use crate::messages::TransformErrorView;
use crate::request::conversation;
use crate::request::stream_start;
use crate::request::RequestView;
use crate::response::output_item;
use crate::response::output_part;
use crate::response::response;
use crate::response::SettingsView;
use crate::stream::chunk;
use crate::stream::completed_event;
use crate::stream::joined;
use crate::stream::next_state;
use crate::stream::stream_output;
use crate::stream::StreamView;

verus! {

/// An input that is no array means what the array with it as the one item means.
pub proof fn law_one_item_needs_no_array(input: JsonView)
    requires
        !(input is Array),
    ensures
        input_messages(input) == input_messages(JsonView::Array(seq![input])),
{
    reveal_with_fuel(items_messages, 2);
    let items = seq![input];
    assert(items.drop_last() =~= Seq::empty());
    assert(items.last() == input);
    assert(Seq::<MessageView>::empty().push(item_view(input)->Message_0) =~= seq![
        item_view(input)->Message_0,
    ]);
}

/// The messages of two lists of items are those of the first and then those of
/// the second. An error in the first comes before one in the second.
pub proof fn law_messages_in_order(first: Seq<JsonView>, second: Seq<JsonView>)
    ensures
        items_messages(first + second) == match (items_messages(first), items_messages(second)) {
            (Ok(before), Ok(after)) => Ok::<Seq<MessageView>, InputError>(before + after),
            (Err(error), _) => Err(error),
            (Ok(_), Err(error)) => Err(error),
        },
    decreases second.len(),
{
    if second.len() == 0 {
        assert(first + second =~= first);
        if let Ok(before) = items_messages(first) {
            assert(before + Seq::<MessageView>::empty() =~= before);
        }
    } else {
        law_messages_in_order(first, second.drop_last());
        assert((first + second).drop_last() =~= first + second.drop_last());
        assert((first + second).last() == second.last());
        if let (Ok(before), Ok(after)) = (
            items_messages(first),
            items_messages(second.drop_last()),
        ) {
            let message = item_view(second.last())->Message_0;
            assert((before + after).push(message) =~= before + after.push(message));
        }
    }
}

/// An item that is skipped leaves no trace.
pub proof fn law_skipped_item_leaves_no_trace(
    first: Seq<JsonView>,
    skipped: JsonView,
    second: Seq<JsonView>,
)
    requires
        item_view(skipped) is Skipped,
    ensures
        items_messages(first + seq![skipped] + second) == items_messages(first + second),
{
    law_messages_in_order(first + seq![skipped], second);
    law_messages_in_order(first, second);
    assert((first + seq![skipped]).drop_last() =~= first);
    assert((first + seq![skipped]).last() == skipped);
}

/// A list of items is accepted if and only if none of them is rejected.
pub proof fn law_accepted_without_rejected_items(items: Seq<JsonView>)
    ensures
        items_messages(items) is Ok <==> forall|i: int|
            0 <= i < items.len() ==> !(item_view(#[trigger] items[i]) is Rejected),
    decreases items.len(),
{
    if items.len() > 0 {
        let front = items.drop_last();
        law_accepted_without_rejected_items(front);
        assert(forall|i: int| 0 <= i < front.len() ==> front[i] == #[trigger] items[i]);
        assert(items.last() == items[items.len() - 1]);
        if items_messages(front) is Err {
            let i = choose|i: int| 0 <= i < front.len() && item_view(front[i]) is Rejected;
            assert(items[i] == front[i]);
        }
    }
}

/// The error of a rejected list is that of its first rejected item.
pub proof fn law_first_rejected_item_decides(items: Seq<JsonView>, at: int)
    requires
        0 <= at < items.len(),
        item_view(items[at]) is Rejected,
        forall|i: int| 0 <= i < at ==> !(item_view(#[trigger] items[i]) is Rejected),
    ensures
        items_messages(items) == Err::<Seq<MessageView>, InputError>(
            item_view(items[at])->Rejected_0,
        ),
{
    law_accepted_without_rejected_items(items.take(at));
    lemma_first_rejection(items, at);
}

/// No item makes more than one message.
pub proof fn law_no_more_messages_than_items(items: Seq<JsonView>)
    ensures
        items_messages(items) matches Ok(messages) ==> messages.len() <= items.len(),
    decreases items.len(),
{
    if items.len() > 0 {
        law_no_more_messages_than_items(items.drop_last());
    }
}

/// An input of nothing but skipped items is accepted, and has no messages.
pub proof fn law_only_skipped_items_make_no_messages(items: Seq<JsonView>)
    requires
        forall|i: int| 0 <= i < items.len() ==> item_view(#[trigger] items[i]) is Skipped,
    ensures
        items_messages(items) == Ok::<Seq<MessageView>, InputError>(Seq::empty()),
    decreases items.len(),
{
    if items.len() > 0 {
        let front = items.drop_last();
        assert(forall|i: int| 0 <= i < front.len() ==> front[i] == #[trigger] items[i]);
        assert(items.last() == items[items.len() - 1]);
        law_only_skipped_items_make_no_messages(front);
    }
}

/// An object among the items is judged by its `type`, `role`, `content` and
/// `text` alone.
pub proof fn law_other_members_decide_nothing(
    one: Map<Seq<char>, JsonView>,
    other: Map<Seq<char>, JsonView>,
)
    requires
        JsonView::Object(one).member("type"@) == JsonView::Object(other).member("type"@),
        JsonView::Object(one).member("role"@) == JsonView::Object(other).member("role"@),
        JsonView::Object(one).member("content"@) == JsonView::Object(other).member("content"@),
        JsonView::Object(one).member("text"@) == JsonView::Object(other).member("text"@),
    ensures
        item_view(JsonView::Object(one)) == item_view(JsonView::Object(other)),
{
}

/// The text of two lists of parts is that of the first and then that of the
/// second.
pub proof fn law_parts_in_order(first: Seq<JsonView>, second: Seq<JsonView>)
    ensures
        parts_text(first + second) == parts_text(first) + parts_text(second),
    decreases second.len(),
{
    if second.len() == 0 {
        assert(first + second =~= first);
        assert(parts_text(first) + parts_text(second) =~= parts_text(first));
    } else {
        law_parts_in_order(first, second.drop_last());
        assert((first + second).drop_last() =~= first + second.drop_last());
        assert((first + second).last() == second.last());
        assert(parts_text(first) + parts_text(second.drop_last()) + part_text(second.last())
            =~= parts_text(first) + (parts_text(second.drop_last()) + part_text(second.last())));
    }
}

/// A content array never has an empty text: it has some text, or none.
pub proof fn law_array_text_is_not_empty(parts: Seq<JsonView>)
    ensures
        content_text(JsonView::Array(parts)) matches Some(s) ==> s.len() > 0,
        content_text(JsonView::Array(parts)) is None <==> forall|i: int|
            0 <= i < parts.len() ==> part_text(#[trigger] parts[i]).len() == 0,
    decreases parts.len(),
{
    if parts.len() > 0 {
        let front = parts.drop_last();
        law_array_text_is_not_empty(front);
        assert(forall|i: int| 0 <= i < front.len() ==> front[i] == #[trigger] parts[i]);
        assert(parts.last() == parts[parts.len() - 1]);
        if parts_text(front).len() > 0 {
            let i = choose|i: int| 0 <= i < front.len() && part_text(front[i]).len() != 0;
            assert(parts[i] == front[i]);
        }
    }
}

/// The message of a response can stand among the items of a later request: it
/// is then a message of the assistant with the text of the response, or is
/// skipped where that text is empty.
pub proof fn law_output_can_be_input(item_id: Seq<char>, output_text: Seq<char>)
    ensures
        item_view(output_item(item_id, output_text)) == if output_text.len() == 0 {
            ItemView::Skipped
        } else {
            ItemView::Message(MessageView { content: output_text, role: "assistant"@ })
        },
{
    reveal_with_fuel(parts_text, 2);
    reveal_strlit("id");
    reveal_strlit("type");
    reveal_strlit("status");
    reveal_strlit("role");
    reveal_strlit("content");
    reveal_strlit("text");
    reveal_strlit("annotations");
    reveal_strlit("message");
    reveal_strlit("input_text");
    reveal_strlit("output_text");
    assert("type"@[0] != "role"@[0]);
    assert("type"@[1] != "text"@[1]);
    assert("text"@[0] != "role"@[0]);
    assert("message"@[0] != "input_text"@[0]);
    let part = output_part(output_text);
    assert(part.member_text("type"@) == Some("output_text"@));
    assert(part.member_text("text"@) == Some(output_text));
    assert(part_text(part) == output_text);
    assert(seq![part].drop_last() =~= Seq::empty());
    assert(parts_text(seq![part]) =~= output_text);
    let item = output_item(item_id, output_text);
    assert(item.member_text("type"@) == Some("message"@));
    assert(item.member_text("role"@) == Some("assistant"@));
    assert(item.member("content"@) == Some(JsonView::Array(seq![part])));
    assert(item.member("text"@) is None);
}

/// The output of a response, given as the input of a request, is accepted: it is
/// the message of the assistant, or no message where the text is empty.
pub proof fn law_response_output_can_be_input(
    created_at: u64,
    response_id: Seq<char>,
    item_id: Seq<char>,
    output_text: Seq<char>,
    settings: SettingsView,
)
    ensures
        response(created_at, response_id, item_id, output_text, settings).member(
            "output"@,
        ) matches Some(output) && input_messages(output) == Ok::<Seq<MessageView>, InputError>(
            if output_text.len() == 0 {
                Seq::empty()
            } else {
                seq![MessageView { content: output_text, role: "assistant"@ }]
            },
        ),
{
    reveal_strlit("output");
    reveal_strlit("parallel_tool_calls");
    reveal_strlit("previous_response_id");
    reveal_strlit("reasoning");
    reveal_strlit("store");
    reveal_strlit("temperature");
    reveal_strlit("text");
    reveal_strlit("tool_choice");
    reveal_strlit("tools");
    reveal_strlit("top_p");
    reveal_strlit("truncation");
    reveal_strlit("user");
    reveal_strlit("metadata");
    reveal_strlit("usage");
    let item = output_item(item_id, output_text);
    assert("text"@.len() < "tools"@.len() < "output"@.len() < "metadata"@.len());
    assert("user"@.len() == 4 && "store"@.len() == 5 && "top_p"@.len() == 5 && "usage"@.len() == 5);
    assert("reasoning"@.len() > 6 && "truncation"@.len() > 6 && "temperature"@.len() > 6);
    assert("tool_choice"@.len() > 6 && "parallel_tool_calls"@.len() > 6
        && "previous_response_id"@.len() > 6);
    law_output_can_be_input(item_id, output_text);
    law_one_item_needs_no_array(item);
}

/// The model, and every setting but the limit of tokens, decides nothing of
/// what an agent is asked to do, nor does it matter how the response is sent.
pub proof fn law_conversation_depends_on_input_and_limit(one: RequestView, other: RequestView)
    requires
        one.input == other.input,
        one.settings.max_output_tokens == other.settings.max_output_tokens,
    ensures
        conversation(one) == conversation(other),
{
}

/// A request is rejected if and only if its input is, and for the same reason.
pub proof fn law_rejected_for_its_input_alone(request: RequestView)
    ensures
        conversation(request) is Err <==> input_messages(request.input) is Err,
        conversation(request) matches Err(error) ==> input_messages(request.input) == Err::<
            Seq<MessageView>,
            InputError,
        >(error),
{
}

/// A response under way after a list of events.
pub open spec fn state_after(state: StreamView, events: Seq<EventView>) -> StreamView
    decreases events.len(),
{
    if events.len() == 0 {
        state
    } else {
        next_state(state_after(state, events.drop_last()), events.last())
    }
}

/// The tokens among events, one after the other.
pub open spec fn tokens_text(events: Seq<EventView>) -> Seq<char>
    decreases events.len(),
{
    if events.len() == 0 {
        Seq::empty()
    } else {
        match events.last() {
            EventView::Token(token) => tokens_text(events.drop_last()) + token,
            _ => tokens_text(events.drop_last()),
        }
    }
}

/// Whatever events come, the text of a response is that of the tokens in their
/// order, and its identifiers and settings stay.
pub proof fn law_text_is_the_tokens(state: StreamView, events: Seq<EventView>)
    ensures
        state_after(state, events) == (StreamView {
            output_text: state.output_text + tokens_text(events),
            ..state
        }),
    decreases events.len(),
{
    if events.len() == 0 {
        assert(state.output_text + Seq::<char>::empty() =~= state.output_text);
    } else {
        law_text_is_the_tokens(state, events.drop_last());
        if let EventView::Token(token) = events.last() {
            assert(state.output_text + tokens_text(events.drop_last()) + token
                =~= state.output_text + (tokens_text(events.drop_last()) + token));
        }
    }
}

/// The texts that the delta events carry which a client receives for a list of
/// events.
pub open spec fn deltas(state: StreamView, events: Seq<EventView>) -> Seq<Seq<char>>
    decreases events.len(),
{
    if events.len() == 0 {
        Seq::empty()
    } else {
        let before = deltas(state, events.drop_last());
        let now = state_after(state, events.drop_last());
        if events.last() is Token {
            let unused = Err::<u64, ClockError>(ClockError::BeforeEpoch);
            let sent = stream_output(now, events.last(), unused)->Ok_0;
            before.push(sent.member_text("delta"@).unwrap_or(Seq::empty()))
        } else {
            before
        }
    }
}

/// A delta event carries its token, and the identifiers of the response.
pub proof fn law_delta_carries_its_token(
    state: StreamView,
    token: Seq<char>,
    clock: Result<u64, ClockError>,
)
    ensures
        stream_output(state, EventView::Token(token), clock) matches Ok(sent) && {
            &&& sent.member_text("type"@) == Some("response.output_text.delta"@)
            &&& sent.member_text("delta"@) == Some(token)
            &&& sent.member_text("response_id"@) == Some(state.response_id)
            &&& sent.member_text("item_id"@) == Some(state.item_id)
        },
{
    reveal_strlit("type");
    reveal_strlit("response_id");
    reveal_strlit("output_index");
    reveal_strlit("content_index");
    reveal_strlit("item_id");
    reveal_strlit("delta");
    assert("type"@.len() < "delta"@.len() < "item_id"@.len() < "response_id"@.len()
        < "output_index"@.len() < "content_index"@.len());
}

/// What a client receives when there are no more tokens is the response whose
/// text is all the deltas that it received before, put together.
pub proof fn law_completed_text_is_the_deltas(
    settings: SettingsView,
    response_id: Seq<char>,
    item_id: Seq<char>,
    events: Seq<EventView>,
    created_at: u64,
)
    ensures
        ({
            let start = stream_start(settings, response_id, item_id);
            stream_output(state_after(start, events), EventView::Done, Ok(created_at)) == Ok::<
                JsonView,
                TransformErrorView,
            >(
                completed_event(
                    StreamView { output_text: joined(deltas(start, events)), ..start },
                    created_at,
                ),
            )
        }),
{
    let start = stream_start(settings, response_id, item_id);
    lemma_deltas_are_the_tokens(start, events);
    law_text_is_the_tokens(start, events);
    assert(start.output_text + tokens_text(events) =~= tokens_text(events));
}

/// The deltas are the tokens.
proof fn lemma_deltas_are_the_tokens(state: StreamView, events: Seq<EventView>)
    ensures
        joined(deltas(state, events)) == tokens_text(events),
    decreases events.len(),
{
    if events.len() > 0 {
        lemma_deltas_are_the_tokens(state, events.drop_last());
        if let EventView::Token(token) = events.last() {
            let before = deltas(state, events.drop_last());
            let now = state_after(state, events.drop_last());
            law_delta_carries_its_token(now, token, Err(ClockError::BeforeEpoch));
            assert(deltas(state, events) == before.push(token));
            assert(before.push(token).drop_last() =~= before);
        }
    }
}

/// The texts that events add to a response that is sent as one.
pub open spec fn chunks(events: Seq<EventView>) -> Seq<Seq<char>> {
    events.map_values(|event: EventView| chunk(event)->Ok_0)
}

/// A client receives the same response in either way: where none of the events
/// is unexpected, the response at the end of a stream is the one that is made of
/// the texts of all events.
pub proof fn law_stream_and_combined_agree(
    settings: SettingsView,
    response_id: Seq<char>,
    item_id: Seq<char>,
    events: Seq<EventView>,
    created_at: u64,
)
    requires
        forall|i: int| 0 <= i < events.len() ==> chunk(#[trigger] events[i]) is Ok,
    ensures
        completed_event(
            state_after(stream_start(settings, response_id, item_id), events),
            created_at,
        ).member("response"@) == Some(
            response(created_at, response_id, item_id, joined(chunks(events)), settings),
        ),
{
    let start = stream_start(settings, response_id, item_id);
    law_text_is_the_tokens(start, events);
    assert(start.output_text + tokens_text(events) =~= tokens_text(events));
    lemma_chunks_are_the_tokens(events);
    reveal_strlit("type");
    reveal_strlit("response");
}

/// The texts of expected events are the tokens.
proof fn lemma_chunks_are_the_tokens(events: Seq<EventView>)
    requires
        forall|i: int| 0 <= i < events.len() ==> chunk(#[trigger] events[i]) is Ok,
    ensures
        joined(chunks(events)) == tokens_text(events),
    decreases events.len(),
{
    if events.len() > 0 {
        let front = events.drop_last();
        assert(forall|i: int| 0 <= i < front.len() ==> front[i] == #[trigger] events[i]);
        lemma_chunks_are_the_tokens(front);
        assert(chunks(events).drop_last() =~= chunks(front));
        assert(chunks(events).last() == chunk(events.last())->Ok_0);
        assert(chunk(events[events.len() - 1]) is Ok);
        assert(tokens_text(front) + Seq::<char>::empty() =~= tokens_text(front));
    }
}

} // verus!
