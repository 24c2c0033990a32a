use openai_responses::clock::current_timestamp;
use openai_responses::clock::timestamp;
use openai_responses::clock::ClockError;
use openai_responses::ids::new_id;
use openai_responses::input::input_value_to_messages;
use openai_responses::input::InputError;
use openai_responses::json::Float64;
use openai_responses::json::Json;
use openai_responses::json::JsonNumber;
use openai_responses::json::JsonObject;
use openai_responses::messages::GeneratedTokenResult;
use openai_responses::messages::OtherMessage;
use openai_responses::messages::OutgoingMessage;
use openai_responses::messages::OutgoingResponse;
use openai_responses::messages::ResponseEnvelope;
use openai_responses::messages::TransformError;
use openai_responses::request::combined_response;
use openai_responses::request::combined_response_with;
use openai_responses::request::conversation_params;
use openai_responses::request::respond;
use openai_responses::request::OpenAIResponsesRequestParams;
use openai_responses::request::ResponsePlan;
use openai_responses::response::build_response_json;
use openai_responses::response::response_json_at;
use openai_responses::response::response_json_by_clock;
use openai_responses::stream::join_chunks;
use openai_responses::stream::OpenAIResponsesCombinedResponseTransformer;
use openai_responses::stream::OpenAIResponsesStreamingResponseTransformer;
use serde_json::Value;

fn text(s: &str) -> Json {
    Json::String(s.to_string())
}

fn object(members: Vec<(&str, Json)>) -> Json {
    let mut object = JsonObject::new();
    for (name, value) in members {
        object.insert(name, value);
    }
    Json::Object(object)
}

fn value(json: &Json) -> Value {
    match json {
        Json::Null => Value::Null,
        Json::Bool(b) => Value::from(*b),
        Json::Number(JsonNumber::Unsigned(n)) => Value::from(*n),
        Json::Number(JsonNumber::Signed(n)) => Value::from(*n),
        Json::Number(JsonNumber::Float(x)) => Value::from(f64::from_bits(x.bits)),
        Json::String(s) => Value::from(s.as_str()),
        Json::Array(items) => Value::Array(items.iter().map(value).collect()),
        Json::Object(object) => Value::Object(
            object
                .entries
                .iter()
                .map(|(name, member)| (name.clone(), value(member)))
                .collect(),
        ),
    }
}

fn parsed(source: &str) -> Value {
    serde_json::from_str(source).unwrap()
}

fn float(x: f64) -> Float64 {
    Float64 { bits: x.to_bits() }
}

fn request(input: Json, stream: bool) -> OpenAIResponsesRequestParams {
    OpenAIResponsesRequestParams {
        input,
        max_output_tokens: None,
        model: "some-model".to_string(),
        store: None,
        temperature: None,
        top_p: None,
        parallel_tool_calls: None,
        truncation: None,
        tool_choice: None,
        tools: None,
        metadata: None,
        user: None,
        stream,
    }
}

fn generated(result: GeneratedTokenResult) -> OutgoingMessage {
    OutgoingMessage::Response(ResponseEnvelope {
        response: OutgoingResponse::GeneratedToken(result),
    })
}

fn token(s: &str) -> OutgoingMessage {
    generated(GeneratedTokenResult::Token(s.to_string()))
}

fn done() -> OutgoingMessage {
    generated(GeneratedTokenResult::Done)
}

fn other() -> OtherMessage {
    OtherMessage {
        serialized: Ok(object(vec![("Timeout", Json::Null)])),
        debug: "Timeout".to_string(),
    }
}

fn is_id(id: &str) -> bool {
    id.len() == 21
        && id
            .chars()
            .all(|c| c.is_ascii_alphanumeric() || c == '_' || c == '-')
}

const DEFAULT_RESPONSE: &str = r#"{
    "id": "resp",
    "object": "response",
    "created_at": 1700000000,
    "model": "some-model",
    "status": "completed",
    "error": null,
    "incomplete_details": null,
    "instructions": null,
    "max_output_tokens": null,
    "output": [
        {
            "id": "item",
            "type": "message",
            "status": "completed",
            "role": "assistant",
            "content": [{"type": "output_text", "text": "hello", "annotations": []}]
        }
    ],
    "parallel_tool_calls": true,
    "previous_response_id": null,
    "reasoning": {"effort": null, "summary": null},
    "store": true,
    "temperature": 1.0,
    "text": {"format": {"type": "text"}},
    "tool_choice": "auto",
    "tools": [],
    "top_p": 1.0,
    "truncation": "disabled",
    "user": null,
    "metadata": {},
    "usage": {
        "input_tokens": 0,
        "input_tokens_details": {"cached_tokens": 0},
        "output_tokens": 0,
        "output_tokens_details": {"reasoning_tokens": 0},
        "total_tokens": 0
    }
}"#;

#[test]
fn settings_that_are_left_out_have_their_defaults() {
    let response = response_json_at(
        1_700_000_000,
        "resp",
        "some-model",
        "hello",
        "item",
        None,
        None,
        None,
        None,
        None,
        None,
        None,
        None,
        None,
        None,
    );
    assert_eq!(value(&response), parsed(DEFAULT_RESPONSE));
}

#[test]
fn settings_are_repeated() {
    let choice = text("none");
    let tools = vec![object(vec![("type", text("function"))])];
    let metadata = object(vec![("trace", text("t1"))]);
    let response = response_json_at(
        1_700_000_000,
        "resp",
        "some-model",
        "hello",
        "item",
        Some(-5),
        Some(false),
        Some(float(0.25)),
        Some(float(0.5)),
        Some(false),
        Some("auto"),
        Some(&choice),
        Some(&tools),
        Some(&metadata),
        Some("someone"),
    );
    let mut expected = parsed(DEFAULT_RESPONSE);
    expected["max_output_tokens"] = Value::from(-5);
    expected["store"] = Value::from(false);
    expected["temperature"] = Value::from(0.25);
    expected["top_p"] = Value::from(0.5);
    expected["parallel_tool_calls"] = Value::from(false);
    expected["truncation"] = Value::from("auto");
    expected["tool_choice"] = Value::from("none");
    expected["tools"] = parsed(r#"[{"type": "function"}]"#);
    expected["metadata"] = parsed(r#"{"trace": "t1"}"#);
    expected["user"] = Value::from("someone");
    assert_eq!(value(&response), expected);
}

#[test]
fn a_response_is_made_now() {
    let before = current_timestamp().unwrap();
    let response = value(
        &build_response_json(
            "resp",
            "some-model",
            "hello",
            "item",
            None,
            None,
            None,
            None,
            None,
            None,
            None,
            None,
            None,
            None,
        )
        .unwrap(),
    );
    let after = current_timestamp().unwrap();
    let created_at = response["created_at"].as_u64().unwrap();
    assert!(before > 1_600_000_000);
    assert!(before <= created_at && created_at <= after);
    let mut expected = parsed(DEFAULT_RESPONSE);
    expected["created_at"] = Value::from(created_at);
    assert_eq!(response, expected);
}

#[test]
fn a_timestamp_counts_whole_seconds() {
    assert_eq!(timestamp(Some((1_700_000_000, 999_999_999))), Ok(1_700_000_000));
    assert_eq!(timestamp(None), Err(ClockError::BeforeEpoch));
    assert_eq!(ClockError::BeforeEpoch.message(), "Time went backwards");
}

#[test]
fn identifiers_are_new() {
    let one = new_id();
    let two = new_id();
    assert!(is_id(&one));
    assert!(is_id(&two));
    assert_ne!(one, two);
}

#[test]
fn the_output_can_be_input() {
    let response = response_json_at(
        0, "resp", "some-model", "hello", "item", None, None, None, None, None, None, None, None,
        None, None,
    );
    let output = match &response {
        Json::Object(members) => members.get("output").unwrap().clone(),
        _ => panic!("a response is an object"),
    };
    let messages = input_value_to_messages(output).unwrap();
    assert_eq!(messages.len(), 1);
    assert_eq!(messages[0].role, "assistant");
    assert_eq!(messages[0].content, "hello");

    let silent = response_json_at(
        0, "resp", "some-model", "", "item", None, None, None, None, None, None, None, None, None,
        None,
    );
    let output = match &silent {
        Json::Object(members) => members.get("output").unwrap().clone(),
        _ => panic!("a response is an object"),
    };
    assert!(input_value_to_messages(output).unwrap().is_empty());
}

#[test]
fn a_stream_sends_deltas_and_then_the_response() {
    let mut transformer = OpenAIResponsesStreamingResponseTransformer::new(
        &request(text("hi"), true),
        "resp".to_string(),
        "item".to_string(),
    );
    let first = transformer.transform(token("hel")).unwrap();
    assert_eq!(
        value(&first),
        parsed(
            r#"{
                "type": "response.output_text.delta",
                "response_id": "resp",
                "output_index": 0,
                "content_index": 0,
                "item_id": "item",
                "delta": "hel"
            }"#
        )
    );
    let second = transformer.transform(token("lo")).unwrap();
    assert_eq!(value(&second)["delta"], Value::from("lo"));
    assert_eq!(transformer.output_text, "hello");

    let completed = value(&transformer.completed_at(1_700_000_000));
    assert_eq!(completed["type"], Value::from("response.completed"));
    assert_eq!(completed["response"], parsed(DEFAULT_RESPONSE));

    let done = value(&transformer.transform(done()).unwrap());
    assert_eq!(done["type"], Value::from("response.completed"));
    assert_eq!(
        done["response"]["output"][0]["content"][0]["text"],
        Value::from("hello")
    );
    assert_eq!(transformer.output_text, "hello");
}

#[test]
fn a_stream_hands_other_messages_on() {
    let mut transformer = OpenAIResponsesStreamingResponseTransformer::new(
        &request(text("hi"), true),
        "resp".to_string(),
        "item".to_string(),
    );
    for message in [
        OutgoingMessage::Other(other()),
        OutgoingMessage::Response(ResponseEnvelope {
            response: OutgoingResponse::Other(other()),
        }),
        generated(GeneratedTokenResult::Other(other())),
    ] {
        let sent = transformer.transform(message).unwrap();
        assert_eq!(value(&sent), parsed(r#"{"Timeout": null}"#));
    }
    assert_eq!(transformer.output_text, "");

    let unserialized = OtherMessage {
        serialized: Err("key must be a string".to_string()),
        debug: "Odd".to_string(),
    };
    let error = transformer
        .transform(OutgoingMessage::Other(unserialized))
        .unwrap_err();
    assert_eq!(
        error,
        TransformError::Serialization("key must be a string".to_string())
    );
    assert_eq!(error.message(), "key must be a string");
}

#[test]
fn the_combined_response_takes_tokens_alone() {
    let transformer = OpenAIResponsesCombinedResponseTransformer {};
    assert_eq!(transformer.transform(token("hel")).unwrap(), "hel");
    assert_eq!(transformer.transform(done()).unwrap(), "");
    let error = transformer
        .transform(OutgoingMessage::Other(other()))
        .unwrap_err();
    assert_eq!(error, TransformError::UnexpectedMessage("Timeout".to_string()));
    assert_eq!(error.message(), "Unexpected message type: Timeout");
    assert_eq!(
        TransformError::Clock(ClockError::BeforeEpoch).message(),
        "Time went backwards"
    );
    assert_eq!(transformer.stringify(&"hel".to_string()).unwrap(), "hel");
}

#[test]
fn stream_and_combined_agree() {
    let params = request(text("hi"), false);
    let combined = OpenAIResponsesCombinedResponseTransformer {};
    let mut streaming = OpenAIResponsesStreamingResponseTransformer::new(
        &params,
        "resp".to_string(),
        "item".to_string(),
    );
    let mut chunks = Vec::new();
    for word in ["one", " ", "two", ""] {
        chunks.push(combined.transform(token(word)).unwrap());
        streaming.transform(token(word)).unwrap();
    }
    chunks.push(combined.transform(done()).unwrap());
    assert_eq!(join_chunks(&chunks), "one two");

    let response = value(&combined_response(&params, &chunks).unwrap());
    assert!(is_id(response["id"].as_str().unwrap()));
    assert!(is_id(response["output"][0]["id"].as_str().unwrap()));
    let mut expected = value(&streaming.completed_at(response["created_at"].as_u64().unwrap()));
    expected["response"]["id"] = response["id"].clone();
    expected["response"]["output"][0]["id"] = response["output"][0]["id"].clone();
    assert_eq!(response, expected["response"]);
}

#[test]
fn an_agent_is_asked_to_continue_the_conversation() {
    let params = conversation_params(&request(text("hi"), false)).unwrap();
    assert!(params.add_generation_prompt);
    assert!(params.enable_thinking);
    assert_eq!(params.max_tokens, 2000);
    assert!(params.tools.is_empty());
    assert_eq!(params.conversation_history.len(), 1);
    assert_eq!(params.conversation_history[0].role, "user");
    assert_eq!(params.conversation_history[0].content, "hi");

    let mut limited = request(text("hi"), false);
    limited.max_output_tokens = Some(16);
    limited.tools = Some(vec![object(vec![])]);
    limited.model = "other-model".to_string();
    let params = conversation_params(&limited).unwrap();
    assert_eq!(params.max_tokens, 16);
    assert!(params.tools.is_empty());
}

#[test]
fn a_request_is_streamed_where_it_asks_for_it() {
    let mut streamed = request(text("hi"), true);
    streamed.user = Some("someone".to_string());
    streamed.tools = Some(vec![text("tool")]);
    match respond(&streamed).unwrap() {
        ResponsePlan::Stream { params, transformer } => {
            assert_eq!(params.conversation_history[0].content, "hi");
            assert_eq!(transformer.model, "some-model");
            assert_eq!(transformer.output_text, "");
            assert_eq!(transformer.user.as_deref(), Some("someone"));
            assert_eq!(transformer.tools, Some(vec![text("tool")]));
            assert!(is_id(&transformer.response_id));
            assert!(is_id(&transformer.item_id));
            assert_ne!(transformer.response_id, transformer.item_id);
        }
        ResponsePlan::Combine { .. } => panic!("the request asks for a stream"),
    }
    match respond(&request(text("hi"), false)).unwrap() {
        ResponsePlan::Combine { params } => {
            assert_eq!(params.conversation_history[0].content, "hi");
        }
        ResponsePlan::Stream { .. } => panic!("the request asks for one response"),
    }
}

#[test]
fn a_request_with_invalid_input_is_rejected() {
    for stream in [false, true] {
        assert_eq!(
            respond(&request(Json::Bool(true), stream)).unwrap_err(),
            InputError::UnsupportedInputFormat
        );
    }
}

#[test]
fn the_clock_decides_whether_there_is_a_response() {
    let made = response_json_by_clock(
        Ok(1_700_000_000),
        "resp",
        "some-model",
        "hello",
        "item",
        None,
        None,
        None,
        None,
        None,
        None,
        None,
        None,
        None,
        None,
    );
    assert_eq!(value(&made.unwrap()), parsed(DEFAULT_RESPONSE));
    let failed = response_json_by_clock(
        Err(ClockError::BeforeEpoch),
        "resp",
        "some-model",
        "hello",
        "item",
        None,
        None,
        None,
        None,
        None,
        None,
        None,
        None,
        None,
        None,
    );
    assert_eq!(failed, Err(ClockError::BeforeEpoch));
}

#[test]
fn the_combined_response_joins_its_texts() {
    let params = request(text("hi"), false);
    let chunks = vec!["hel".to_string(), "lo".to_string(), String::new()];
    let made = combined_response_with(&params, &chunks, Ok(1_700_000_000), "resp", "item");
    assert_eq!(value(&made.unwrap()), parsed(DEFAULT_RESPONSE));
    assert_eq!(
        combined_response_with(&params, &chunks, Err(ClockError::BeforeEpoch), "resp", "item"),
        Err(ClockError::BeforeEpoch)
    );
}

#[test]
fn a_float_that_is_no_number_is_null() {
    for x in [f64::NAN, -f64::NAN, f64::INFINITY, f64::NEG_INFINITY] {
        assert!(!float(x).is_finite());
        let response = response_json_at(
            1_700_000_000,
            "resp",
            "some-model",
            "hello",
            "item",
            None,
            None,
            Some(float(x)),
            Some(float(x)),
            None,
            None,
            None,
            None,
            None,
            None,
        );
        let mut expected = parsed(DEFAULT_RESPONSE);
        expected["temperature"] = Value::from(x);
        expected["top_p"] = Value::from(x);
        assert_eq!(expected["temperature"], Value::Null);
        assert_eq!(value(&response), expected);
        assert_eq!(Json::float(float(x)), Json::Null);
    }
    for x in [0.0, -0.0, 1.0, -2.5, f64::MAX, f64::MIN, f64::MIN_POSITIVE, 5e-324] {
        assert!(float(x).is_finite());
        assert_eq!(
            Json::float(float(x)),
            Json::Number(JsonNumber::Float(float(x)))
        );
    }
}
