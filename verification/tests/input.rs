use openai_responses::input::content_value_to_string;
use openai_responses::input::input_value_to_messages;
use openai_responses::input::value_to_item;
use openai_responses::input::InputError;
use openai_responses::input::InputItem;
use openai_responses::json::Json;
use openai_responses::json::JsonNumber;
use openai_responses::json::JsonObject;
use openai_responses::text::same_text;

fn text(s: &str) -> Json {
    Json::String(s.to_string())
}

fn number(n: u64) -> Json {
    Json::Number(JsonNumber::Unsigned(n))
}

fn array(items: Vec<Json>) -> Json {
    Json::Array(items)
}

fn object(members: Vec<(&str, Json)>) -> Json {
    let mut object = JsonObject::new();
    for (name, value) in members {
        object.insert(name, value);
    }
    Json::Object(object)
}

fn contents(input: Json) -> Vec<String> {
    input_value_to_messages(input)
        .unwrap()
        .into_iter()
        .map(|message| message.content)
        .collect()
}

#[test]
fn test_content_value_to_string() {
    // String input
    assert_eq!(
        content_value_to_string(&text("hello")),
        Some("hello".to_string())
    );

    // Array input
    assert_eq!(
        content_value_to_string(&array(vec![text("hello"), text(" "), text("world")])),
        Some("hello world".to_string())
    );

    // Array with objects
    assert_eq!(
        content_value_to_string(&array(vec![
            object(vec![("text", text("hello"))]),
            text(" "),
            object(vec![("text", text("world"))]),
        ])),
        Some("hello world".to_string())
    );

    // Invalid inputs
    assert_eq!(content_value_to_string(&number(123)), None);
    assert_eq!(content_value_to_string(&array(vec![])), None);
    assert_eq!(content_value_to_string(&array(vec![number(123)])), None);
}

#[test]
fn test_input_value_to_messages_string() {
    let input = text("hello world");
    let messages = input_value_to_messages(input).unwrap();
    assert_eq!(messages.len(), 1);
    assert_eq!(messages[0].role, "user");
    assert_eq!(messages[0].content, "hello world");
}

#[test]
fn test_input_value_to_messages_array_strings() {
    let input = array(vec![text("message 1"), text("message 2")]);
    let messages = input_value_to_messages(input).unwrap();
    assert_eq!(messages.len(), 2);
    assert_eq!(messages[0].content, "message 1");
    assert_eq!(messages[1].content, "message 2");
}

#[test]
fn test_input_value_to_messages_array_objects() {
    let input = array(vec![
        object(vec![("role", text("system")), ("content", text("you are a bot"))]),
        object(vec![("role", text("user")), ("text", text("hello"))]),
    ]);
    let messages = input_value_to_messages(input).unwrap();
    assert_eq!(messages.len(), 2);
    assert_eq!(messages[0].role, "system");
    assert_eq!(messages[0].content, "you are a bot");
    assert_eq!(messages[1].role, "user");
    assert_eq!(messages[1].content, "hello");
}

#[test]
fn test_input_value_to_messages_input_text_item() {
    let input = array(vec![object(vec![
        ("type", text("input_text")),
        ("text", text("hello")),
    ])]);
    let messages = input_value_to_messages(input).unwrap();
    assert_eq!(messages.len(), 1);
    assert_eq!(messages[0].role, "user");
    assert_eq!(messages[0].content, "hello");
}

#[test]
fn test_input_value_to_messages_message_with_input_text_content() {
    let input = object(vec![
        ("type", text("message")),
        ("role", text("user")),
        (
            "content",
            array(vec![object(vec![
                ("type", text("input_text")),
                ("text", text("hello")),
            ])]),
        ),
    ]);
    let messages = input_value_to_messages(input).unwrap();
    assert_eq!(messages.len(), 1);
    assert_eq!(messages[0].role, "user");
    assert_eq!(messages[0].content, "hello");
}

#[test]
fn test_input_value_to_messages_single_object() {
    let input = object(vec![("role", text("system")), ("content", text("system message"))]);
    let messages = input_value_to_messages(input).unwrap();
    assert_eq!(messages.len(), 1);
    assert_eq!(messages[0].role, "system");
    assert_eq!(messages[0].content, "system message");
}

#[test]
fn test_input_value_to_messages_invalid() {
    assert!(input_value_to_messages(number(123)).is_err());
    assert!(input_value_to_messages(array(vec![number(123)])).is_err());
    assert!(input_value_to_messages(object(vec![("foo", text("bar"))])).is_err());
    assert!(input_value_to_messages(object(vec![("type", text("input_text"))])).is_err());
    assert!(input_value_to_messages(object(vec![("type", text("message"))])).is_err());
    assert!(input_value_to_messages(object(vec![
        ("type", text("unknown")),
        ("text", text("hello")),
    ]))
    .is_err());
    assert!(
        input_value_to_messages(array(vec![object(vec![("type", text("input_text"))])])).is_err()
    );
    assert!(input_value_to_messages(array(vec![object(vec![
        ("type", text("unknown")),
        ("text", text("hello")),
    ])]))
    .is_err());
}

#[test]
fn test_input_value_to_messages_ignores_non_text_items() {
    let input = array(vec![
        object(vec![
            ("type", text("input_image")),
            ("image_url", text("https://example.com/image.png")),
        ]),
        object(vec![("type", text("input_text")), ("text", text("hello"))]),
    ]);
    let messages = input_value_to_messages(input).unwrap();
    assert_eq!(messages.len(), 1);
    assert_eq!(messages[0].content, "hello");
}

#[test]
fn test_input_value_to_messages_only_non_text_items() {
    let input = array(vec![
        object(vec![
            ("type", text("input_image")),
            ("image_url", text("https://example.com/image.png")),
        ]),
        object(vec![("type", text("input_file")), ("file_id", text("file_123"))]),
    ]);
    let messages = input_value_to_messages(input).unwrap();
    assert!(messages.is_empty());
}

#[test]
fn test_input_value_to_messages_message_only_non_text_content() {
    let input = array(vec![object(vec![
        ("type", text("message")),
        ("role", text("user")),
        (
            "content",
            array(vec![object(vec![
                ("type", text("input_image")),
                ("image_url", text("https://example.com/image.png")),
            ])]),
        ),
    ])]);
    let messages = input_value_to_messages(input).unwrap();
    assert!(messages.is_empty());
}

#[test]
fn test_input_value_to_messages_single_message_only_non_text_content() {
    let input = object(vec![
        ("type", text("message")),
        ("role", text("user")),
        (
            "content",
            array(vec![object(vec![
                ("type", text("input_file")),
                ("file_id", text("file_123")),
            ])]),
        ),
    ]);
    let messages = input_value_to_messages(input).unwrap();
    assert!(messages.is_empty());
}

#[test]
fn errors_name_their_reason() {
    assert_eq!(
        input_value_to_messages(object(vec![("type", text("input_text"))])).unwrap_err(),
        InputError::MissingInputText
    );
    assert_eq!(
        input_value_to_messages(object(vec![("content", number(1))])).unwrap_err(),
        InputError::MissingInputContent
    );
    assert_eq!(
        input_value_to_messages(Json::Null).unwrap_err(),
        InputError::UnsupportedInputFormat
    );
    assert_eq!(
        input_value_to_messages(array(vec![array(vec![])])).unwrap_err(),
        InputError::UnsupportedInputFormat
    );
    assert_eq!(InputError::MissingInputText.message(), "Missing input text");
    assert_eq!(InputError::MissingInputContent.message(), "Missing input content");
    assert_eq!(InputError::UnsupportedInputFormat.message(), "Unsupported input format");
}

#[test]
fn the_first_rejected_item_decides() {
    let input = array(vec![
        text("fine"),
        object(vec![("type", text("input_text"))]),
        number(7),
        object(vec![("type", text("message"))]),
    ]);
    assert_eq!(
        input_value_to_messages(input).unwrap_err(),
        InputError::MissingInputText
    );
}

#[test]
fn one_item_needs_no_array() {
    let item = object(vec![("role", text("assistant")), ("content", text("hi"))]);
    assert_eq!(
        input_value_to_messages(item.clone()),
        input_value_to_messages(array(vec![item]))
    );
    assert_eq!(
        input_value_to_messages(text("hi")),
        input_value_to_messages(array(vec![text("hi")]))
    );
    assert_eq!(
        input_value_to_messages(Json::Bool(true)),
        input_value_to_messages(array(vec![Json::Bool(true)]))
    );
}

#[test]
fn a_message_falls_back_on_its_text() {
    let silent = array(vec![object(vec![("type", text("input_image"))])]);
    assert_eq!(
        contents(object(vec![("content", silent), ("text", text("caption"))])),
        vec!["caption"]
    );
    assert_eq!(
        contents(object(vec![("content", number(1)), ("text", text("caption"))])),
        vec!["caption"]
    );
    assert_eq!(
        contents(object(vec![("content", text("")), ("text", text("caption"))])),
        vec![""]
    );
}

#[test]
fn members_of_the_wrong_kind_count_as_left_out() {
    let input = object(vec![
        ("type", number(1)),
        ("role", Json::Null),
        ("content", text("hello")),
    ]);
    let messages = input_value_to_messages(input).unwrap();
    assert_eq!(messages[0].role, "user");
    assert_eq!(messages[0].content, "hello");
}

#[test]
fn other_members_decide_nothing() {
    let plain = object(vec![("content", text("hello"))]);
    let adorned = object(vec![
        ("id", text("item")),
        ("status", text("completed")),
        ("content", text("hello")),
    ]);
    assert_eq!(input_value_to_messages(plain), input_value_to_messages(adorned));
}

#[test]
fn parts_of_other_types_add_nothing() {
    let content = array(vec![
        text("a"),
        object(vec![("type", text("output_text")), ("text", text("b"))]),
        object(vec![("type", text("refusal")), ("text", text("x"))]),
        object(vec![("type", text("input_text")), ("text", number(1))]),
        object(vec![("type", number(1)), ("text", text("c"))]),
        Json::Null,
        array(vec![text("y")]),
        text("d"),
    ]);
    assert_eq!(content_value_to_string(&content), Some("abcd".to_string()));
    assert_eq!(
        content_value_to_string(&array(vec![text(""), text("")])),
        None
    );
    assert_eq!(content_value_to_string(&text("")), Some(String::new()));
    assert_eq!(content_value_to_string(&object(vec![])), None);
}

#[test]
fn items_become_messages_one_by_one() {
    assert_eq!(
        value_to_item(&object(vec![("type", text("input_file"))])),
        InputItem::Skipped
    );
    assert_eq!(
        value_to_item(&number(1)),
        InputItem::Rejected(InputError::UnsupportedInputFormat)
    );
    match value_to_item(&text("hello")) {
        InputItem::Message(message) => {
            assert_eq!(message.role, "user");
            assert_eq!(message.content, "hello");
        }
        _ => panic!("a text is a message"),
    }
}

#[test]
fn the_last_of_several_members_holds() {
    let input = object(vec![
        ("content", text("first")),
        ("role", text("system")),
        ("content", text("second")),
    ]);
    assert_eq!(contents(input), vec!["second"]);
}

#[test]
fn texts_are_compared_by_their_characters() {
    assert!(same_text("", ""));
    assert!(same_text("zażółć", "zażółć"));
    assert!(!same_text("zażółć", "zazolc"));
    assert!(!same_text("type", "types"));
    assert!(!same_text("type", "Type"));
}
