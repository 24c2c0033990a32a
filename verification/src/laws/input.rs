//! Laws of the input of a request, stated over the members of its objects.

use vstd::prelude::*;

use crate::input::content_text;
use crate::input::input_messages;
use crate::input::item_view;
use crate::input::items_messages;
use crate::input::message_views;
use crate::input::part_text;
use crate::input::parts_text;
use crate::input::ConversationMessage;
use crate::input::InputError;
use crate::input::ItemView;
use crate::input::MessageView;
use crate::json::JsonView;
use crate::laws::law_messages_in_order;
use crate::laws::law_one_item_needs_no_array;
use crate::laws::law_parts_in_order;

verus! {

/// Whether an object holds a string under a name.
pub open spec fn names_text(members: Map<Seq<char>, JsonView>, name: Seq<char>) -> bool {
    members.contains_key(name) && members[name] is String
}

/// Whether an object holds the given string under a name.
pub open spec fn holds(
    members: Map<Seq<char>, JsonView>,
    name: Seq<char>,
    s: Seq<char>,
) -> bool {
    members.contains_key(name) && members[name] == JsonView::String(s)
}

/// The names and types that the input is read by all differ.
proof fn lemma_words_differ()
    ensures
        "type"@ != "role"@,
        "type"@ != "content"@,
        "type"@ != "text"@,
        "role"@ != "content"@,
        "role"@ != "text"@,
        "content"@ != "text"@,
        "input_text"@ != "message"@,
        "input_text"@ != "input_image"@,
        "input_text"@ != "input_file"@,
        "input_text"@ != "output_text"@,
        "message"@ != "input_image"@,
        "message"@ != "input_file"@,
        "input_image"@ != "input_file"@,
{
    reveal_strlit("type");
    reveal_strlit("role");
    reveal_strlit("content");
    reveal_strlit("text");
    reveal_strlit("input_text");
    reveal_strlit("output_text");
    reveal_strlit("message");
    reveal_strlit("input_image");
    reveal_strlit("input_file");
    assert("type"@[0] != "role"@[0]);
    assert("type"@[1] != "text"@[1]);
    assert("role"@[0] != "text"@[0]);
    assert("content"@.len() == 7);
    assert("message"@.len() < "input_text"@.len() < "output_text"@.len());
    assert("input_text"@[6] != "input_file"@[6]);
    assert("input_image"@.len() > "input_file"@.len());
    assert("input_file"@.len() > "message"@.len());
}

/// A message of a conversation stands for its content and its role, and a list
/// for its messages, one by one.
pub proof fn law_messages_stand_for_themselves(messages: Seq<ConversationMessage>)
    ensures
        message_views(messages).len() == messages.len(),
        forall|i: int|
            0 <= i < messages.len() ==> (#[trigger] message_views(messages)[i]).content
                == messages[i].content@ && message_views(messages)[i].role == messages[i].role@,
{
}

/// Each error is told in words of its own.
pub proof fn law_errors_are_told_apart()
    ensures
        InputError::MissingInputText.message_spec() == "Missing input text"@,
        InputError::MissingInputContent.message_spec() == "Missing input content"@,
        InputError::UnsupportedInputFormat.message_spec() == "Unsupported input format"@,
{
}

// The text of content.

/// A string that is content is its own text, be it empty. What is neither a
/// string nor an array has no text.
pub proof fn law_string_content_is_its_own_text(s: Seq<char>, content: JsonView)
    ensures
        content_text(JsonView::String(s)) == Some(s),
        !(content is String) && !(content is Array) ==> content_text(content) is None,
{
}

/// The text of an array of content is that of all its parts: cut anywhere, it is
/// the text of what is before the cut and then the text of what is after it.
pub proof fn law_content_is_all_its_parts(first: Seq<JsonView>, second: Seq<JsonView>)
    ensures
        content_text(JsonView::Array(first + second)).unwrap_or(Seq::empty()) == content_text(
            JsonView::Array(first),
        ).unwrap_or(Seq::empty()) + content_text(JsonView::Array(second)).unwrap_or(Seq::empty()),
        content_text(JsonView::Array(first + second)) is Some <==> content_text(
            JsonView::Array(first),
        ) is Some || content_text(JsonView::Array(second)) is Some,
{
    law_parts_in_order(first, second);
    if parts_text(first).len() == 0 {
        assert(parts_text(first) =~= Seq::empty());
    }
    if parts_text(second).len() == 0 {
        assert(parts_text(second) =~= Seq::empty());
    }
    assert(Seq::<char>::empty() + parts_text(second) =~= parts_text(second));
    assert(parts_text(first) + Seq::<char>::empty() =~= parts_text(first));
}

/// A string among the parts adds itself.
pub proof fn law_string_part_adds_itself(s: Seq<char>)
    ensures
        content_text(JsonView::Array(seq![JsonView::String(s)])) == if s.len() == 0 {
            None
        } else {
            Some(s)
        },
{
    lemma_one_part(JsonView::String(s));
}

/// An object of a text type, or of none, adds the string that it holds as its
/// text.
pub proof fn law_text_part_adds_its_text(members: Map<Seq<char>, JsonView>, s: Seq<char>)
    requires
        !names_text(members, "type"@) || holds(members, "type"@, "input_text"@) || holds(
            members,
            "type"@,
            "output_text"@,
        ),
        holds(members, "text"@, s),
    ensures
        content_text(JsonView::Array(seq![JsonView::Object(members)])) == if s.len() == 0 {
            None
        } else {
            Some(s)
        },
{
    lemma_one_part(JsonView::Object(members));
}

/// No other part adds anything: an object of another type, an object whose text
/// is no string, and what is neither a string nor an object.
pub proof fn law_other_parts_add_nothing(part: JsonView)
    requires
        !(part is String),
        part matches JsonView::Object(members) ==> !names_text(members, "text"@) || (names_text(
            members,
            "type"@,
        ) && !holds(members, "type"@, "input_text"@) && !holds(members, "type"@, "output_text"@)),
    ensures
        content_text(JsonView::Array(seq![part])) is None,
{
    lemma_one_part(part);
}

/// No parts are no text.
pub proof fn law_no_parts_are_no_text()
    ensures
        content_text(JsonView::Array(Seq::empty())) is None,
{
}

/// One part alone makes up the text of the array.
proof fn lemma_one_part(part: JsonView)
    ensures
        parts_text(seq![part]) == part_text(part),
{
    reveal_with_fuel(parts_text, 2);
    assert(seq![part].drop_last() =~= Seq::empty());
    assert(Seq::<char>::empty() + part_text(part) =~= part_text(part));
}

// What becomes of one item.

/// A message has the role that its item names, whatever its content is, and is
/// the user's only where the item names none.
pub proof fn law_message_has_the_role_of_its_item(members: Map<Seq<char>, JsonView>)
    ensures
        item_view(JsonView::Object(members)) matches ItemView::Message(message) ==> {
            &&& names_text(members, "role"@) ==> holds(members, "role"@, message.role)
            &&& !names_text(members, "role"@) ==> message.role == "user"@
        },
{
}

/// Giving an item another role changes the role of its message to that one, and
/// nothing else of what becomes of it.
pub proof fn law_role_decides_the_role_alone(members: Map<Seq<char>, JsonView>, role: Seq<char>)
    ensures
        item_view(JsonView::Object(members.insert("role"@, JsonView::String(role)))) == match (
            item_view(JsonView::Object(members))
        ) {
            ItemView::Message(message) => ItemView::Message(
                MessageView { content: message.content, role },
            ),
            outcome => outcome,
        },
{
    lemma_words_differ();
    let one = JsonView::Object(members);
    let other = JsonView::Object(members.insert("role"@, JsonView::String(role)));
    assert(one.member("type"@) == other.member("type"@));
    assert(one.member("content"@) == other.member("content"@));
    assert(one.member("text"@) == other.member("text"@));
    assert(other.member("role"@) == Some(JsonView::String(role)));
}

/// A string is a message of the user with itself as content.
pub proof fn law_string_is_a_message_of_the_user(s: Seq<char>)
    ensures
        item_view(JsonView::String(s)) == ItemView::Message(
            MessageView { content: s, role: "user"@ },
        ),
{
}

/// An item of type `input_text` is a message with the string that it holds as
/// its text, and is rejected without one.
pub proof fn law_input_text_is_its_text(members: Map<Seq<char>, JsonView>, s: Seq<char>)
    requires
        holds(members, "type"@, "input_text"@),
    ensures
        holds(members, "text"@, s) ==> (item_view(
            JsonView::Object(members),
        ) matches ItemView::Message(message) && message.content == s),
        !names_text(members, "text"@) ==> item_view(JsonView::Object(members))
            == ItemView::Rejected(InputError::MissingInputText),
{
    lemma_words_differ();
}

/// An item of type `message`, or of none, is a message with the text of its
/// content.
pub proof fn law_message_is_its_content(members: Map<Seq<char>, JsonView>, s: Seq<char>)
    requires
        !names_text(members, "type"@) || holds(members, "type"@, "message"@),
        members.contains_key("content"@),
        content_text(members["content"@]) == Some(s),
    ensures
        item_view(JsonView::Object(members)) matches ItemView::Message(message) && message.content
            == s,
{
    lemma_words_differ();
}

/// An item of type `message`, or of none, whose content has no text is a message
/// with the string that it holds as its text. Without such a string it is
/// skipped where its content is an array, and rejected where it is not.
pub proof fn law_message_without_content_is_its_text(
    members: Map<Seq<char>, JsonView>,
    s: Seq<char>,
)
    requires
        !names_text(members, "type"@) || holds(members, "type"@, "message"@),
        members.contains_key("content"@) ==> content_text(members["content"@]) is None,
    ensures
        holds(members, "text"@, s) ==> (item_view(
            JsonView::Object(members),
        ) matches ItemView::Message(message) && message.content == s),
        !names_text(members, "text"@) ==> item_view(JsonView::Object(members)) == if (
        members.contains_key("content"@) && members["content"@] is Array) {
            ItemView::Skipped
        } else {
            ItemView::Rejected(InputError::MissingInputContent)
        },
{
    lemma_words_differ();
}

/// Images and files are skipped, and an item of any type that is not known is
/// rejected.
pub proof fn law_other_types_are_skipped_or_rejected(
    members: Map<Seq<char>, JsonView>,
    item_type: Seq<char>,
)
    requires
        holds(members, "type"@, item_type),
        item_type != "input_text"@,
        item_type != "message"@,
    ensures
        item_view(JsonView::Object(members)) == if item_type == "input_image"@ || item_type
            == "input_file"@ {
            ItemView::Skipped
        } else {
            ItemView::Rejected(InputError::UnsupportedInputFormat)
        },
{
}

/// What is neither a string nor an object is rejected.
pub proof fn law_other_items_are_rejected(item: JsonView)
    requires
        !(item is String),
        !(item is Object),
    ensures
        item_view(item) == ItemView::Rejected(InputError::UnsupportedInputFormat),
{
}

// The messages of the whole input.

/// The messages of an array are those of all its items: cut anywhere, they are
/// the messages of what is before the cut and then those of what is after it,
/// and the error is that of the earlier part that has one.
pub proof fn law_input_is_all_its_items(first: Seq<JsonView>, second: Seq<JsonView>)
    ensures
        input_messages(JsonView::Array(first + second)) == match (
            input_messages(JsonView::Array(first)),
            input_messages(JsonView::Array(second)),
        ) {
            (Ok(before), Ok(after)) => Ok::<Seq<MessageView>, InputError>(before + after),
            (Err(error), _) => Err(error),
            (Ok(_), Err(error)) => Err(error),
        },
{
    law_messages_in_order(first, second);
}

/// One item makes its message, is left out, or makes the input invalid, in an
/// array as well as alone. No items are no messages.
pub proof fn law_input_of_one_item(item: JsonView)
    ensures
        input_messages(JsonView::Array(seq![item])) == match item_view(item) {
            ItemView::Message(message) => Ok::<Seq<MessageView>, InputError>(seq![message]),
            ItemView::Skipped => Ok(Seq::empty()),
            ItemView::Rejected(error) => Err(error),
        },
        !(item is Array) ==> input_messages(item) == input_messages(
            JsonView::Array(seq![item]),
        ),
        input_messages(JsonView::Array(Seq::empty())) == Ok::<Seq<MessageView>, InputError>(
            Seq::empty(),
        ),
{
    reveal_with_fuel(items_messages, 2);
    let items = seq![item];
    assert(items.drop_last() =~= Seq::empty());
    assert(items.last() == item);
    assert(Seq::<MessageView>::empty().push(item_view(item)->Message_0) =~= seq![
        item_view(item)->Message_0,
    ]);
    if !(item is Array) {
        law_one_item_needs_no_array(item);
    }
}

/// Where every item is a message, the input has them all, each at the place of
/// its item.
pub proof fn law_every_message_keeps_its_place(items: Seq<JsonView>)
    requires
        forall|i: int| 0 <= i < items.len() ==> item_view(#[trigger] items[i]) is Message,
    ensures
        input_messages(JsonView::Array(items)) matches Ok(messages) && messages.len()
            == items.len() && forall|i: int|
            0 <= i < items.len() ==> item_view(#[trigger] items[i]) == ItemView::Message(
                messages[i],
            ),
    decreases items.len(),
{
    if items.len() > 0 {
        let front = items.drop_last();
        assert(forall|i: int| 0 <= i < front.len() ==> front[i] == #[trigger] items[i]);
        law_every_message_keeps_its_place(front);
        assert(item_view(items[items.len() - 1]) is Message);
    }
}

} // verus!
