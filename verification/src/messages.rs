//! What an agent sends while it generates a response.

use vstd::prelude::*;

use crate::clock::ClockError;
use crate::json::Json;
use crate::json::JsonView;

verus! {

/// A message that the responses endpoint has no form of its own for, in the two
/// forms that it can be handed on in.
#[derive(Debug, PartialEq, Eq)]
pub struct OtherMessage {
    /// The whole message as JSON, or why it has no such form.
    pub serialized: Result<Json, String>,
    /// The whole message as it reads in a log.
    pub debug: String,
}

/// A result of the generation of one token.
#[derive(Debug, PartialEq, Eq)]
pub enum GeneratedTokenResult {
    Done,
    Token(String),
    Other(OtherMessage),
}

/// The response to a request.
#[derive(Debug, PartialEq, Eq)]
pub enum OutgoingResponse {
    GeneratedToken(GeneratedTokenResult),
    Other(OtherMessage),
}

/// A response as it travels.
#[derive(Debug, PartialEq, Eq)]
pub struct ResponseEnvelope {
    pub response: OutgoingResponse,
}

/// A message from an agent.
#[derive(Debug, PartialEq, Eq)]
pub enum OutgoingMessage {
    Response(ResponseEnvelope),
    Other(OtherMessage),
}

/// What a message says of the generation of a response.
#[verifier::ext_equal]
pub enum EventView {
    /// The next token.
    Token(Seq<char>),
    /// There are no more tokens.
    Done,
    /// Something else.
    Other { serialized: Result<JsonView, Seq<char>>, debug: Seq<char> },
}

/// What a message says of the generation of a response.
#[derive(Debug, PartialEq, Eq)]
pub enum Event {
    Token(String),
    Done,
    Other(OtherMessage),
}

impl OtherMessage {
    /// The message as an event.
    pub open spec fn event(&self) -> EventView {
        EventView::Other {
            serialized: match self.serialized {
                Ok(value) => Ok(value@),
                Err(error) => Err(error@),
            },
            debug: self.debug@,
        }
    }
}

impl View for Event {
    type V = EventView;

    open spec fn view(&self) -> EventView {
        match *self {
            Event::Token(token) => EventView::Token(token@),
            Event::Done => EventView::Done,
            Event::Other(other) => other.event(),
        }
    }
}

impl View for OutgoingMessage {
    type V = EventView;

    open spec fn view(&self) -> EventView {
        match *self {
            OutgoingMessage::Response(envelope) => match envelope.response {
                OutgoingResponse::GeneratedToken(result) => match result {
                    GeneratedTokenResult::Done => EventView::Done,
                    GeneratedTokenResult::Token(token) => EventView::Token(token@),
                    GeneratedTokenResult::Other(other) => other.event(),
                },
                OutgoingResponse::Other(other) => other.event(),
            },
            OutgoingMessage::Other(other) => other.event(),
        }
    }
}

impl OutgoingMessage {
    /// What the message says of the generation of a response.
    pub fn into_event(self) -> (event: Event)
        ensures
            event@ == self@,
    {
        match self {
            OutgoingMessage::Response(envelope) => match envelope.response {
                OutgoingResponse::GeneratedToken(result) => match result {
                    GeneratedTokenResult::Done => Event::Done,
                    GeneratedTokenResult::Token(token) => Event::Token(token),
                    GeneratedTokenResult::Other(other) => Event::Other(other),
                },
                OutgoingResponse::Other(other) => Event::Other(other),
            },
            OutgoingMessage::Other(other) => Event::Other(other),
        }
    }
}

/// Why a message cannot be handed on.
#[derive(Debug, PartialEq, Eq)]
pub enum TransformError {
    /// The message has no form in JSON, for the given reason.
    Serialization(String),
    /// The message, given as it reads in a log, is not one that is expected.
    UnexpectedMessage(String),
    /// The response has no timestamp.
    Clock(ClockError),
}

/// What an error stands for.
#[verifier::ext_equal]
pub enum TransformErrorView {
    Serialization(Seq<char>),
    UnexpectedMessage(Seq<char>),
    Clock(ClockError),
}

impl View for TransformError {
    type V = TransformErrorView;

    open spec fn view(&self) -> TransformErrorView {
        match *self {
            TransformError::Serialization(reason) => TransformErrorView::Serialization(reason@),
            TransformError::UnexpectedMessage(debug) => TransformErrorView::UnexpectedMessage(
                debug@,
            ),
            TransformError::Clock(error) => TransformErrorView::Clock(error),
        }
    }
}

impl TransformErrorView {
    /// The words that describe the error.
    pub open spec fn message(self) -> Seq<char> {
        match self {
            TransformErrorView::Serialization(reason) => reason,
            TransformErrorView::UnexpectedMessage(debug) => "Unexpected message type: "@ + debug,
            TransformErrorView::Clock(error) => error.message_spec(),
        }
    }
}

impl TransformError {
    /// The words that describe the error.
    pub fn message(&self) -> (message: String)
        ensures
            message@ == self@.message(),
    {
        match self {
            TransformError::Serialization(reason) => reason.clone(),
            TransformError::UnexpectedMessage(debug) => {
                let mut message = "Unexpected message type: ".to_owned();
                message.append(debug.as_str());
                message
            },
            TransformError::Clock(error) => error.message(),
        }
    }
}

} // verus!
