//! From the `input` of a request to the messages of a conversation.

use vstd::prelude::*;

use crate::json::lemma_array_view;
use crate::json::views;
use crate::json::Json;
use crate::json::JsonObject;
use crate::json::JsonView;
use crate::text::same_text;

verus! {

/// One message of a conversation.
#[derive(Debug, PartialEq, Eq)]
pub struct ConversationMessage {
    pub content: String,
    pub role: String,
}

/// What a message of a conversation stands for.
#[verifier::ext_equal]
pub struct MessageView {
    pub content: Seq<char>,
    pub role: Seq<char>,
}

impl View for ConversationMessage {
    type V = MessageView;

    open spec fn view(&self) -> MessageView {
        MessageView { content: self.content@, role: self.role@ }
    }
}

/// What a list of messages stands for.
pub open spec fn message_views(messages: Seq<ConversationMessage>) -> Seq<MessageView> {
    messages.map_values(|message: ConversationMessage| message@)
}

/// Why the input of a request is rejected.
#[derive(Clone, Copy, Debug, PartialEq, Eq, Structural)]
pub enum InputError {
    MissingInputText,
    MissingInputContent,
    UnsupportedInputFormat,
}

impl InputError {
    /// The words in which a client is told of the error.
    pub open spec fn message_spec(self) -> Seq<char> {
        match self {
            InputError::MissingInputText => "Missing input text"@,
            InputError::MissingInputContent => "Missing input content"@,
            InputError::UnsupportedInputFormat => "Unsupported input format"@,
        }
    }

    /// The words in which a client is told of the error.
    pub fn message(&self) -> (message: String)
        ensures
            message@ == self.message_spec(),
    {
        match self {
            InputError::MissingInputText => "Missing input text".to_owned(),
            InputError::MissingInputContent => "Missing input content".to_owned(),
            InputError::UnsupportedInputFormat => "Unsupported input format".to_owned(),
        }
    }
}

/// The text that one part of a content array adds: a string adds itself, an
/// object of a text type its `text`, and nothing else adds anything. An object
/// that names no type counts as `input_text`.
pub open spec fn part_text(part: JsonView) -> Seq<char> {
    match part {
        JsonView::String(s) => s,
        JsonView::Object(_) => {
            let part_type = part.member_text("type"@).unwrap_or("input_text"@);
            if part_type == "input_text"@ || part_type == "output_text"@ {
                part.member_text("text"@).unwrap_or(Seq::empty())
            } else {
                Seq::empty()
            }
        },
        _ => Seq::empty(),
    }
}

/// The text of the parts of a content array, one after the other.
pub open spec fn parts_text(parts: Seq<JsonView>) -> Seq<char>
    decreases parts.len(),
{
    if parts.len() == 0 {
        Seq::empty()
    } else {
        parts_text(parts.drop_last()) + part_text(parts.last())
    }
}

/// The text of the content of a message, where it has any. A string is its own
/// text, be it empty; an array has one if its parts add any.
pub open spec fn content_text(content: JsonView) -> Option<Seq<char>> {
    match content {
        JsonView::String(s) => Some(s),
        JsonView::Array(parts) => if parts_text(parts).len() == 0 {
            None
        } else {
            Some(parts_text(parts))
        },
        _ => None,
    }
}

/// Adds the text of one part of a content array to the text before it.
fn push_part_text(output: &mut String, part: &Json)
    ensures
        final(output)@ == old(output)@ + part_text(part@),
{
    match part {
        Json::String(s) => {
            output.append(s.as_str());
        },
        Json::Object(object) => {
            let part_type = match member_str(object, "type") {
                Some(part_type) => part_type,
                None => "input_text",
            };
            if same_text(part_type, "input_text") || same_text(part_type, "output_text") {
                if let Some(s) = member_str(object, "text") {
                    output.append(s);
                }
            }
        },
        _ => {},
    }
    proof {
        assert(old(output)@ + Seq::<char>::empty() =~= old(output)@);
    }
}

/// The characters of the string that an object holds under a name.
fn member_str<'a>(object: &'a JsonObject, name: &str) -> (found: Option<&'a str>)
    ensures
        match found {
            Some(s) => JsonView::Object(object@).member_text(name@) == Some(s@),
            None => JsonView::Object(object@).member_text(name@) is None,
        },
{
    match object.get(name) {
        Some(value) => value.as_str(),
        None => None,
    }
}

/// The text of the content of a message, where it has any.
pub fn content_value_to_string(value: &Json) -> (content: Option<String>)
    ensures
        match content {
            Some(s) => content_text(value@) == Some(s@),
            None => content_text(value@) is None,
        },
{
    match value {
        Json::String(s) => Some(s.clone()),
        Json::Array(items) => {
            let mut output = String::new();
            let mut i: usize = 0;
            assert(views(items@).take(0) =~= Seq::empty());
            while i < items.len()
                invariant
                    i <= items.len(),
                    output@ == parts_text(views(items@).take(i as int)),
                decreases items.len() - i,
            {
                push_part_text(&mut output, &items[i]);
                proof {
                    let taken = views(items@).take(i + 1);
                    assert(taken.drop_last() =~= views(items@).take(i as int));
                    assert(taken.last() == items@[i as int]@);
                }
                i += 1;
            }
            proof {
                lemma_array_view(*items);
                assert(views(items@).take(items@.len() as int) =~= views(items@));
            }
            if output.as_str().is_empty() {
                None
            } else {
                Some(output)
            }
        },
        _ => None,
    }
}

/// What becomes of one item of the input.
#[verifier::ext_equal]
pub enum ItemView {
    /// It is a message.
    Message(MessageView),
    /// It holds nothing that is text and is left out.
    Skipped,
    /// It makes the input invalid.
    Rejected(InputError),
}

/// The text of an item of type `message`: that of its `content`, or else its
/// `text`.
pub open spec fn message_text(item: JsonView) -> Option<Seq<char>> {
    match item.member("content"@) {
        Some(content) if content_text(content) is Some => content_text(content),
        _ => item.member_text("text"@),
    }
}

/// What becomes of one item of the input. An object that names no type counts
/// as `message`, and one that names no role as the user's.
pub open spec fn item_view(item: JsonView) -> ItemView {
    match item {
        JsonView::String(s) => ItemView::Message(MessageView { content: s, role: "user"@ }),
        JsonView::Object(_) => {
            let item_type = item.member_text("type"@).unwrap_or("message"@);
            let role = item.member_text("role"@).unwrap_or("user"@);
            if item_type == "input_text"@ {
                match item.member_text("text"@) {
                    Some(content) => ItemView::Message(MessageView { content, role }),
                    None => ItemView::Rejected(InputError::MissingInputText),
                }
            } else if item_type == "message"@ {
                match message_text(item) {
                    Some(content) => ItemView::Message(MessageView { content, role }),
                    None => if item.member("content"@) matches Some(JsonView::Array(_)) {
                        ItemView::Skipped
                    } else {
                        ItemView::Rejected(InputError::MissingInputContent)
                    },
                }
            } else if item_type == "input_image"@ || item_type == "input_file"@ {
                ItemView::Skipped
            } else {
                ItemView::Rejected(InputError::UnsupportedInputFormat)
            }
        },
        _ => ItemView::Rejected(InputError::UnsupportedInputFormat),
    }
}

/// The messages of a list of items, in order, without the skipped ones; the
/// error of the first rejected item where there is one.
pub open spec fn items_messages(items: Seq<JsonView>) -> Result<Seq<MessageView>, InputError>
    decreases items.len(),
{
    if items.len() == 0 {
        Ok(Seq::empty())
    } else {
        match items_messages(items.drop_last()) {
            Err(error) => Err(error),
            Ok(messages) => match item_view(items.last()) {
                ItemView::Message(message) => Ok(messages.push(message)),
                ItemView::Skipped => Ok(messages),
                ItemView::Rejected(error) => Err(error),
            },
        }
    }
}

/// The messages of an input: an array lists its items, and any other value is
/// the one item.
pub open spec fn input_messages(input: JsonView) -> Result<Seq<MessageView>, InputError> {
    match input {
        JsonView::Array(items) => items_messages(items),
        _ => match item_view(input) {
            ItemView::Message(message) => Ok(seq![message]),
            ItemView::Skipped => Ok(Seq::empty()),
            ItemView::Rejected(error) => Err(error),
        },
    }
}

/// What becomes of one item of the input.
#[derive(Debug, PartialEq, Eq)]
pub enum InputItem {
    Message(ConversationMessage),
    Skipped,
    Rejected(InputError),
}

impl View for InputItem {
    type V = ItemView;

    open spec fn view(&self) -> ItemView {
        match *self {
            InputItem::Message(message) => ItemView::Message(message@),
            InputItem::Skipped => ItemView::Skipped,
            InputItem::Rejected(error) => ItemView::Rejected(error),
        }
    }
}

/// The text of an item of type `message`.
fn message_content(object: &JsonObject) -> (content: Option<String>)
    ensures
        match content {
            Some(s) => message_text(JsonView::Object(object@)) == Some(s@),
            None => message_text(JsonView::Object(object@)) is None,
        },
{
    if let Some(value) = object.get("content") {
        if let Some(content) = content_value_to_string(value) {
            return Some(content);
        }
    }
    match member_str(object, "text") {
        Some(s) => Some(s.to_owned()),
        None => None,
    }
}

/// What becomes of an object among the items of the input.
fn object_to_item(object: &JsonObject) -> (outcome: InputItem)
    ensures
        outcome@ == item_view(JsonView::Object(object@)),
{
    let item_type = match member_str(object, "type") {
        Some(item_type) => item_type,
        None => "message",
    };
    let role = match member_str(object, "role") {
        Some(role) => role,
        None => "user",
    };
    if same_text(item_type, "input_text") {
        match member_str(object, "text") {
            Some(s) => InputItem::Message(
                ConversationMessage { content: s.to_owned(), role: role.to_owned() },
            ),
            None => InputItem::Rejected(InputError::MissingInputText),
        }
    } else if same_text(item_type, "message") {
        match message_content(object) {
            Some(content) => InputItem::Message(
                ConversationMessage { content, role: role.to_owned() },
            ),
            None => {
                let holds_array = match object.get("content") {
                    Some(value) => value.is_array(),
                    None => false,
                };
                if holds_array {
                    InputItem::Skipped
                } else {
                    InputItem::Rejected(InputError::MissingInputContent)
                }
            },
        }
    } else if same_text(item_type, "input_image") || same_text(item_type, "input_file") {
        InputItem::Skipped
    } else {
        InputItem::Rejected(InputError::UnsupportedInputFormat)
    }
}

/// What becomes of one item of the input.
pub fn value_to_item(item: &Json) -> (outcome: InputItem)
    ensures
        outcome@ == item_view(item@),
{
    match item {
        Json::String(s) => InputItem::Message(
            ConversationMessage { content: s.clone(), role: "user".to_owned() },
        ),
        Json::Object(object) => object_to_item(object),
        _ => InputItem::Rejected(InputError::UnsupportedInputFormat),
    }
}

/// A list of items of which one is rejected is rejected with the error of the
/// first such item, whatever follows it.
pub proof fn lemma_first_rejection(items: Seq<JsonView>, at: int)
    requires
        0 <= at < items.len(),
        items_messages(items.take(at)) is Ok,
        item_view(items[at]) is Rejected,
    ensures
        items_messages(items) == Err::<Seq<MessageView>, InputError>(
            item_view(items[at])->Rejected_0,
        ),
    decreases items.len(),
{
    if at == items.len() - 1 {
        assert(items.drop_last() =~= items.take(at));
    } else {
        let front = items.drop_last();
        assert(front.take(at) =~= items.take(at));
        lemma_first_rejection(front, at);
    }
}

/// The messages of the input of a request, or the reason why it is rejected.
pub fn input_value_to_messages(input: Json) -> (result: Result<
    Vec<ConversationMessage>,
    InputError,
>)
    ensures
        match result {
            Ok(messages) => input_messages(input@) == Ok::<Seq<MessageView>, InputError>(
                message_views(messages@),
            ),
            Err(error) => input_messages(input@) == Err::<Seq<MessageView>, InputError>(error),
        },
{
    let mut messages: Vec<ConversationMessage> = Vec::new();
    match &input {
        Json::Array(items) => {
            proof {
                lemma_array_view(*items);
                assert(views(items@).take(0) =~= Seq::empty());
                assert(message_views(messages@) =~= Seq::empty());
            }
            let mut i: usize = 0;
            while i < items.len()
                invariant
                    i <= items.len(),
                    input@ == JsonView::Array(views(items@)),
                    items_messages(views(items@).take(i as int)) == Ok::<
                        Seq<MessageView>,
                        InputError,
                    >(message_views(messages@)),
                decreases items.len() - i,
            {
                proof {
                    let taken = views(items@).take(i + 1);
                    assert(taken.drop_last() =~= views(items@).take(i as int));
                    assert(taken.last() == items@[i as int]@);
                }
                let ghost before = message_views(messages@);
                match value_to_item(&items[i]) {
                    InputItem::Message(message) => {
                        messages.push(message);
                        assert(message_views(messages@) =~= before.push(message@));
                    },
                    InputItem::Skipped => {},
                    InputItem::Rejected(error) => {
                        proof {
                            lemma_first_rejection(views(items@), i as int);
                        }
                        return Err(error);
                    },
                }
                i += 1;
            }
            proof {
                assert(views(items@).take(items@.len() as int) =~= views(items@));
            }
            Ok(messages)
        },
        _ => match value_to_item(&input) {
            InputItem::Message(message) => {
                messages.push(message);
                assert(message_views(messages@) =~= seq![message@]);
                Ok(messages)
            },
            InputItem::Skipped => {
                assert(message_views(messages@) =~= Seq::empty());
                Ok(messages)
            },
            InputItem::Rejected(error) => Err(error),
        },
    }
}

} // verus!
