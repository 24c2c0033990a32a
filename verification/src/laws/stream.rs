//! Laws of what a client receives for the messages of an agent.

use vstd::prelude::*;

use crate::clock::ClockError;
use crate::json::Json;
use crate::json::JsonView;
use crate::laws::response::at;
use crate::laws::response::has_just;
use crate::laws::response::law_response_holds_its_text;
use crate::laws::response::text_at;
use crate::laws::state_after;
use crate::messages::Event;
use crate::messages::EventView;
use crate::messages::GeneratedTokenResult;
use crate::messages::OtherMessage;
use crate::messages::OutgoingMessage;
use crate::messages::OutgoingResponse;
use crate::messages::ResponseEnvelope;
use crate::messages::TransformError;
use crate::messages::TransformErrorView;
use crate::response::response;
use crate::stream::chunk;
use crate::stream::completed_event;
use crate::stream::json_result;
use crate::stream::joined;
use crate::stream::next_state;
use crate::stream::stream_output;
use crate::stream::text_result;
use crate::stream::text_views;
use crate::stream::OpenAIResponsesStreamingResponseTransformer;
use crate::stream::StreamView;

verus! {

/// The message that carries what became of a token.
pub open spec fn generated(result: GeneratedTokenResult) -> OutgoingMessage {
    OutgoingMessage::Response(
        ResponseEnvelope { response: OutgoingResponse::GeneratedToken(result) },
    )
}

/// A message says of the generation what it carries: its token, that there are
/// no more, or what it is in its other forms.
pub proof fn law_message_says_what_it_carries(token: String, other: OtherMessage)
    ensures
        generated(GeneratedTokenResult::Token(token))@ == EventView::Token(token@),
        generated(GeneratedTokenResult::Done)@ == EventView::Done,
        generated(GeneratedTokenResult::Other(other))@ == other.event(),
        OutgoingMessage::Response(
            ResponseEnvelope { response: OutgoingResponse::Other(other) },
        )@ == other.event(),
        OutgoingMessage::Other(other)@ == other.event(),
        Event::Token(token)@ == EventView::Token(token@),
        Event::Done@ == EventView::Done,
        Event::Other(other)@ == other.event(),
        other.event() matches EventView::Other { serialized, debug } && debug == other.debug@ && (
        other.serialized matches Ok(value) ==> serialized == Ok::<JsonView, Seq<char>>(value@)) && (
        other.serialized matches Err(reason) ==> serialized == Err::<JsonView, Seq<char>>(
            reason@,
        )),
{
}

/// A transformer stands for what it holds.
pub proof fn law_transformer_stands_for_what_it_holds(
    transformer: OpenAIResponsesStreamingResponseTransformer,
)
    ensures
        transformer@.response_id == transformer.response_id@,
        transformer@.item_id == transformer.item_id@,
        transformer@.output_text == transformer.output_text@,
        transformer@.settings.model == transformer.model@,
        transformer@.settings.max_output_tokens == transformer.max_output_tokens,
        transformer@.settings.store == transformer.store,
        transformer@.settings.temperature == transformer.temperature,
        transformer@.settings.top_p == transformer.top_p,
        transformer@.settings.parallel_tool_calls == transformer.parallel_tool_calls,
        transformer.truncation matches Some(s) ==> transformer@.settings.truncation == Some(s@),
        transformer.truncation is None ==> transformer@.settings.truncation is None,
        transformer.tool_choice matches Some(value) ==> transformer@.settings.tool_choice == Some(
            value@,
        ),
        transformer.tool_choice is None ==> transformer@.settings.tool_choice is None,
        transformer.tools is Some <==> transformer@.settings.tools is Some,
        transformer.tools matches Some(tools) ==> transformer@.settings.tools->0.len()
            == tools@.len() && forall|i: int|
            0 <= i < tools@.len() ==> #[trigger] transformer@.settings.tools->0[i] == tools@[i]@,
        transformer.metadata matches Some(value) ==> transformer@.settings.metadata == Some(value@),
        transformer.metadata is None ==> transformer@.settings.metadata is None,
        transformer.user matches Some(s) ==> transformer@.settings.user == Some(s@),
        transformer.user is None ==> transformer@.settings.user is None,
{
}

/// A token is added at the end of the text, and nothing else changes. No other
/// event changes anything.
pub proof fn law_only_tokens_change_a_response(state: StreamView, event: EventView)
    ensures
        event matches EventView::Token(token) ==> next_state(state, event).output_text
            == state.output_text + token,
        !(event is Token) ==> next_state(state, event).output_text == state.output_text,
        next_state(state, event).response_id == state.response_id,
        next_state(state, event).item_id == state.item_id,
        next_state(state, event).settings == state.settings,
{
}

/// Events can be taken together: what comes of two lists of them is what comes
/// of the second after the first.
pub proof fn law_events_follow_one_another(
    state: StreamView,
    first: Seq<EventView>,
    second: Seq<EventView>,
)
    ensures
        state_after(state, first + second) == state_after(state_after(state, first), second),
    decreases second.len(),
{
    if second.len() == 0 {
        assert(first + second =~= first);
    } else {
        law_events_follow_one_another(state, first, second.drop_last());
        assert((first + second).drop_last() =~= first + second.drop_last());
        assert((first + second).last() == second.last());
    }
}

/// Every token is sent as a delta event, whatever was generated before it. The
/// event carries the token, the identifiers of the response and of its message,
/// and the place of the one part of the one message.
pub proof fn law_every_token_is_a_delta(
    state: StreamView,
    token: Seq<char>,
    clock: Result<u64, ClockError>,
)
    ensures
        stream_output(state, EventView::Token(token), clock) matches Ok(sent) && {
            &&& has_just(
                sent,
                set![
                    "type"@,
                    "response_id"@,
                    "output_index"@,
                    "content_index"@,
                    "item_id"@,
                    "delta"@,
                ],
            )
            &&& at(sent, "type"@) == JsonView::String("response.output_text.delta"@)
            &&& at(sent, "response_id"@) == JsonView::String(state.response_id)
            &&& at(sent, "output_index"@) == JsonView::Integer(0)
            &&& at(sent, "content_index"@) == JsonView::Integer(0)
            &&& at(sent, "item_id"@) == JsonView::String(state.item_id)
            &&& at(sent, "delta"@) == JsonView::String(token)
        },
{
    reveal_strlit("type");
    reveal_strlit("response_id");
    reveal_strlit("output_index");
    reveal_strlit("content_index");
    reveal_strlit("item_id");
    reveal_strlit("delta");
    assert("type"@.len() < "delta"@.len() < "item_id"@.len() < "response_id"@.len()
        < "output_index"@.len() < "content_index"@.len());
    let sent = stream_output(state, EventView::Token(token), clock)->Ok_0;
    assert(sent->Object_0.dom() =~= set![
        "type"@,
        "response_id"@,
        "output_index"@,
        "content_index"@,
        "item_id"@,
        "delta"@,
    ]);
}

/// The place that a delta event names is the one at which the response that ends
/// the stream has its text: all that was generated, of which the delta is a
/// part.
pub proof fn law_delta_names_the_place_of_the_text(
    state: StreamView,
    token: Seq<char>,
    rest: Seq<EventView>,
    created_at: u64,
)
    ensures
        ({
            let unused = Err::<u64, ClockError>(ClockError::BeforeEpoch);
            let sent = stream_output(state, EventView::Token(token), unused)->Ok_0;
            let last = state_after(next_state(state, EventView::Token(token)), rest);
            let ended = stream_output(last, EventView::Done, Ok(created_at))->Ok_0;
            text_at(
                at(ended, "response"@),
                at(sent, "output_index"@)->Integer_0,
                at(sent, "content_index"@)->Integer_0,
            ) == JsonView::String(last.output_text)
        }),
{
    let unused = Err::<u64, ClockError>(ClockError::BeforeEpoch);
    law_every_token_is_a_delta(state, token, unused);
    let last = state_after(next_state(state, EventView::Token(token)), rest);
    law_end_is_the_response(last, created_at, ClockError::BeforeEpoch);
    law_response_holds_its_text(
        created_at,
        last.response_id,
        last.item_id,
        last.output_text,
        last.settings,
    );
}

/// The end of the tokens is sent as the response that is made of what was
/// generated, at the time that the clock gives, and fails only where it gives
/// none.
pub proof fn law_end_is_the_response(state: StreamView, created_at: u64, error: ClockError)
    ensures
        stream_output(state, EventView::Done, Ok(created_at)) matches Ok(sent) && {
            &&& has_just(sent, set!["type"@, "response"@])
            &&& at(sent, "type"@) == JsonView::String("response.completed"@)
            &&& at(sent, "response"@) == response(
                created_at,
                state.response_id,
                state.item_id,
                state.output_text,
                state.settings,
            )
        },
        stream_output(state, EventView::Done, Ok(created_at)) == Ok::<
            JsonView,
            TransformErrorView,
        >(completed_event(state, created_at)),
        stream_output(state, EventView::Done, Err(error)) == Err::<JsonView, TransformErrorView>(
            TransformErrorView::Clock(error),
        ),
{
    reveal_strlit("type");
    reveal_strlit("response");
    assert("type"@.len() < "response"@.len());
    let sent = completed_event(state, created_at);
    assert(sent->Object_0.dom() =~= set!["type"@, "response"@]);
}

/// Any other message is sent in its own form, whatever was generated before it
/// and whatever the time is, and fails only where it has no such form.
pub proof fn law_other_messages_are_sent_as_they_are(
    state: StreamView,
    clock: Result<u64, ClockError>,
    value: JsonView,
    reason: Seq<char>,
    debug: Seq<char>,
)
    ensures
        stream_output(state, EventView::Other { serialized: Ok(value), debug }, clock) == Ok::<
            JsonView,
            TransformErrorView,
        >(value),
        stream_output(state, EventView::Other { serialized: Err(reason), debug }, clock) == Err::<
            JsonView,
            TransformErrorView,
        >(TransformErrorView::Serialization(reason)),
{
}

/// To a response that is sent as one a token adds itself, the end adds nothing,
/// and any other message is an error that names it.
pub proof fn law_chunk_is_the_token(
    token: Seq<char>,
    serialized: Result<JsonView, Seq<char>>,
    debug: Seq<char>,
)
    ensures
        chunk(EventView::Token(token)) == Ok::<Seq<char>, TransformErrorView>(token),
        chunk(EventView::Done) == Ok::<Seq<char>, TransformErrorView>(Seq::empty()),
        chunk(EventView::Other { serialized, debug }) == Err::<Seq<char>, TransformErrorView>(
            TransformErrorView::UnexpectedMessage(debug),
        ),
{
}

/// Texts are joined with nothing between them: cut anywhere, what is joined is
/// what is before the cut and then what is after it.
pub proof fn law_joined_is_all_its_texts(
    first: Seq<Seq<char>>,
    second: Seq<Seq<char>>,
    s: Seq<char>,
)
    ensures
        joined(first + second) == joined(first) + joined(second),
        joined(seq![s]) == s,
        joined(Seq::empty()) == Seq::<char>::empty(),
    decreases second.len(),
{
    reveal_with_fuel(joined, 2);
    assert(seq![s].drop_last() =~= Seq::empty());
    assert(Seq::<char>::empty() + s =~= s);
    if second.len() == 0 {
        assert(first + second =~= first);
        assert(joined(first) + joined(second) =~= joined(first));
    } else {
        law_joined_is_all_its_texts(first, second.drop_last(), s);
        assert((first + second).drop_last() =~= first + second.drop_last());
        assert((first + second).last() == second.last());
        assert(joined(first) + joined(second.drop_last()) + second.last() =~= joined(first) + (
        joined(second.drop_last()) + second.last()));
    }
}

/// A list of texts stands for its texts, one by one.
pub proof fn law_texts_stand_for_themselves(texts: Seq<String>)
    ensures
        text_views(texts).len() == texts.len(),
        forall|i: int| 0 <= i < texts.len() ==> #[trigger] text_views(texts)[i] == texts[i]@,
{
}

/// Outcomes stand for what they hold, and errors are told in full.
pub proof fn law_outcome_stands_for_what_it_holds(
    value: Json,
    s: String,
    error: TransformError,
    clock: ClockError,
)
    ensures
        json_result(Ok(value)) == Ok::<JsonView, TransformErrorView>(value@),
        json_result(Err(error)) == Err::<JsonView, TransformErrorView>(error@),
        text_result(Ok(s)) == Ok::<Seq<char>, TransformErrorView>(s@),
        text_result(Err(error)) == Err::<Seq<char>, TransformErrorView>(error@),
        TransformError::Serialization(s)@ == TransformErrorView::Serialization(s@),
        TransformError::UnexpectedMessage(s)@ == TransformErrorView::UnexpectedMessage(s@),
        TransformError::Clock(clock)@ == TransformErrorView::Clock(clock),
        TransformErrorView::Serialization(s@).message() == s@,
        TransformErrorView::UnexpectedMessage(s@).message() == "Unexpected message type: "@ + s@,
        TransformErrorView::Clock(clock).message() == "Time went backwards"@,
{
}

} // verus!
