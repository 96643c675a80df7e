use chat_completion::codec::Wire;
use chat_completion::content::{ContentType, ImageUrl, ImageUrlType};
use chat_completion::error::{ErrorKind, Found, PathStep, Wanted};
use chat_completion::json::{Binary64, Json, JsonNumber};
use chat_completion::message::{ChatCompletionMessageForResponse, MessageRole};
use chat_completion::response::{
    ChatCompletionChoice, ChatCompletionResponse, FinishDetails, FinishReason, Usage,
};
use chat_completion::tool::{ToolCall, ToolCallFunction};

fn member(name: &str, value: Json) -> (String, Json) {
    (name.to_string(), value)
}

fn text(s: &str) -> Json {
    Json::Str(s.to_string())
}

fn whole(v: i128) -> Json {
    Json::Number(JsonNumber::Integer(v))
}

fn parse(source: &str) -> Json {
    fn convert(value: &serde_json::Value) -> Json {
        match value {
            serde_json::Value::Null => Json::Null,
            serde_json::Value::Bool(b) => Json::Bool(*b),
            serde_json::Value::Number(n) => {
                if let Some(v) = n.as_u64() {
                    Json::Number(JsonNumber::Integer(v as i128))
                } else if let Some(v) = n.as_i64() {
                    Json::Number(JsonNumber::Integer(v as i128))
                } else {
                    Json::Number(JsonNumber::Binary64(
                        Binary64::new(n.as_f64().unwrap().to_bits()).unwrap(),
                    ))
                }
            }
            serde_json::Value::String(s) => Json::Str(s.clone()),
            serde_json::Value::Array(items) => Json::Array(items.iter().map(convert).collect()),
            serde_json::Value::Object(map) => {
                Json::Object(map.iter().map(|(k, v)| (k.clone(), convert(v))).collect())
            }
        }
    }
    convert(&serde_json::from_str::<serde_json::Value>(source).unwrap())
}

fn usage_json() -> Json {
    Json::Object(vec![
        member("prompt_tokens", whole(10)),
        member("completion_tokens", whole(5)),
        member("total_tokens", whole(15)),
    ])
}

fn answer(content: &str) -> ChatCompletionMessageForResponse {
    ChatCompletionMessageForResponse {
        role: MessageRole::assistant,
        content: Some(content.to_string()),
        name: None,
        function_call: None,
        tool_calls: None,
    }
}

fn response() -> ChatCompletionResponse {
    ChatCompletionResponse {
        id: "cmpl-1".to_string(),
        model: "model-1".to_string(),
        choices: vec![
            ChatCompletionChoice {
                index: 0,
                message: answer("Hello."),
                finish_reason: Some(FinishReason::stop),
                finish_details: Some(FinishDetails {
                    kind: FinishReason::stop,
                    stop: "\n".to_string(),
                }),
            },
            ChatCompletionChoice {
                index: 1,
                message: ChatCompletionMessageForResponse {
                    role: MessageRole::assistant,
                    content: None,
                    name: Some("helper".to_string()),
                    function_call: Some(ToolCallFunction {
                        name: Some("f".to_string()),
                        arguments: None,
                    }),
                    tool_calls: Some(vec![ToolCall {
                        id: "c".to_string(),
                        kind: "function".to_string(),
                        function: ToolCallFunction { name: None, arguments: Some("{}".to_string()) },
                    }]),
                },
                finish_reason: None,
                finish_details: None,
            },
        ],
        usage: Usage { prompt_tokens: 10, completion_tokens: 5, total_tokens: 15 },
        system_fingerprint: None,
    }
}

#[test]
fn response_is_read_from_text() {
    let json = parse(
        r#"{
            "id": "cmpl-1",
            "object": "chat.completion",
            "model": "model-1",
            "choices": [
                {
                    "index": 0,
                    "message": {"role": "assistant", "content": "Hello."},
                    "finish_reason": "stop",
                    "finish_details": {"type": "stop", "stop": "\n"}
                },
                {
                    "index": 1,
                    "message": {
                        "role": "assistant",
                        "name": "helper",
                        "function_call": {"name": "f"},
                        "tool_calls": [{"id": "c", "type": "function", "function": {"arguments": "{}"}}]
                    },
                    "finish_reason": null
                }
            ],
            "usage": {"prompt_tokens": 10, "completion_tokens": 5, "total_tokens": 15}
        }"#,
    );
    assert_eq!(ChatCompletionResponse::deserialize(&json), Ok(response()));
}

#[test]
fn response_round_trip() {
    let value = response();
    let json = value.serialize();
    assert_eq!(json.get("system_fingerprint"), Some(&Json::Null));
    assert_eq!(ChatCompletionResponse::deserialize(&json), Ok(value));
}

#[test]
fn response_without_choices_round_trip() {
    let value = ChatCompletionResponse {
        id: String::new(),
        model: String::new(),
        choices: vec![],
        usage: Usage { prompt_tokens: 0, completion_tokens: 0, total_tokens: 0 },
        system_fingerprint: Some("fp".to_string()),
    };
    let json = value.serialize();
    assert_eq!(
        json,
        Json::Object(vec![
            member("id", text("")),
            member("model", text("")),
            member("choices", Json::Array(vec![])),
            member(
                "usage",
                Json::Object(vec![
                    member("prompt_tokens", whole(0)),
                    member("completion_tokens", whole(0)),
                    member("total_tokens", whole(0)),
                ]),
            ),
            member("system_fingerprint", text("fp")),
        ])
    );
    assert_eq!(ChatCompletionResponse::deserialize(&json), Ok(value));
}

#[test]
fn response_needs_each_required_member() {
    let complete = vec![
        member("id", text("i")),
        member("model", text("m")),
        member("choices", Json::Array(vec![])),
        member("usage", usage_json()),
    ];
    assert!(ChatCompletionResponse::deserialize(&Json::Object(complete.clone())).is_ok());
    for missing in ["id", "model", "choices", "usage"] {
        let members: Vec<(String, Json)> =
            complete.iter().filter(|(k, _)| k != missing).cloned().collect();
        let error = ChatCompletionResponse::deserialize(&Json::Object(members)).unwrap_err();
        assert_eq!(error.kind, ErrorKind::MissingField);
        assert_eq!(error.wanted, Wanted::Member);
        assert_eq!(error.found, Found::Absent);
        assert_eq!(error.path, vec![PathStep::Key(missing.to_string())]);
    }
}

#[test]
fn choice_needs_index_and_message() {
    let in_response = |choice: Json| {
        Json::Object(vec![
            member("id", text("i")),
            member("model", text("m")),
            member("choices", Json::Array(vec![choice])),
            member("usage", usage_json()),
        ])
    };
    let no_index = Json::Object(vec![member("message", answer("x").serialize())]);
    let error = ChatCompletionResponse::deserialize(&in_response(no_index)).unwrap_err();
    assert_eq!(error.kind, ErrorKind::MissingField);
    assert_eq!(
        error.path,
        vec![
            PathStep::Key("choices".to_string()),
            PathStep::Index(0),
            PathStep::Key("index".to_string()),
        ]
    );
    let no_message = Json::Object(vec![member("index", whole(0))]);
    let error = ChatCompletionChoice::deserialize(&no_message).unwrap_err();
    assert_eq!(error.kind, ErrorKind::MissingField);
    assert_eq!(error.path, vec![PathStep::Key("message".to_string())]);
    let no_role = Json::Object(vec![
        member("index", whole(0)),
        member("message", Json::Object(vec![member("content", text("x"))])),
    ]);
    let error = ChatCompletionChoice::deserialize(&no_role).unwrap_err();
    assert_eq!(error.kind, ErrorKind::MissingField);
    assert_eq!(
        error.path,
        vec![PathStep::Key("message".to_string()), PathStep::Key("role".to_string())]
    );
}

#[test]
fn choice_is_written_with_null_for_what_is_not_set() {
    let choice = ChatCompletionChoice {
        index: 3,
        message: answer("x"),
        finish_reason: None,
        finish_details: None,
    };
    assert_eq!(
        choice.serialize(),
        Json::Object(vec![
            member("index", whole(3)),
            member(
                "message",
                Json::Object(vec![member("role", text("assistant")), member("content", text("x"))]),
            ),
            member("finish_reason", Json::Null),
            member("finish_details", Json::Null),
        ])
    );
}

#[test]
fn the_reason_null_is_not_the_absence_of_a_reason() {
    let all = [
        (FinishReason::stop, "stop"),
        (FinishReason::length, "length"),
        (FinishReason::content_filter, "content_filter"),
        (FinishReason::tool_calls, "tool_calls"),
        (FinishReason::null, "null"),
    ];
    for (reason, tag) in all {
        assert_eq!(reason.serialize(), text(tag));
        assert_eq!(FinishReason::deserialize(&text(tag)), Ok(reason));
    }
    let choice = |reason: Json| {
        Json::Object(vec![
            member("index", whole(0)),
            member("message", answer("x").serialize()),
            member("finish_reason", reason),
        ])
    };
    let tagged = ChatCompletionChoice::deserialize(&choice(text("null"))).unwrap();
    assert_eq!(tagged.finish_reason, Some(FinishReason::null));
    let absent = ChatCompletionChoice::deserialize(&choice(Json::Null)).unwrap();
    assert_eq!(absent.finish_reason, None);
    let error = ChatCompletionChoice::deserialize(&choice(text("timeout"))).unwrap_err();
    assert_eq!(error.kind, ErrorKind::UnknownVariant);
    assert_eq!(error.path, vec![PathStep::Key("finish_reason".to_string())]);
}

#[test]
fn token_counts_have_to_fit() {
    let usage = |total: Json| {
        Json::Object(vec![
            member("prompt_tokens", whole(1)),
            member("completion_tokens", whole(2)),
            member("total_tokens", total),
        ])
    };
    assert_eq!(
        Usage::deserialize(&usage(whole(i32::MAX as i128))),
        Ok(Usage { prompt_tokens: 1, completion_tokens: 2, total_tokens: i32::MAX })
    );
    assert_eq!(
        Usage::deserialize(&usage(whole(i32::MIN as i128))),
        Ok(Usage { prompt_tokens: 1, completion_tokens: 2, total_tokens: i32::MIN })
    );
    for bad in [whole(i32::MAX as i128 + 1), whole(i32::MIN as i128 - 1), text("3")] {
        let error = Usage::deserialize(&usage(bad)).unwrap_err();
        assert_eq!(error.kind, ErrorKind::TypeMismatch);
        assert_eq!(error.wanted, Wanted::Integer);
        assert_eq!(error.path, vec![PathStep::Key("total_tokens".to_string())]);
    }
    let fraction =
        Json::Number(JsonNumber::Binary64(Binary64::new(3.0f64.to_bits()).unwrap()));
    let error = Usage::deserialize(&usage(fraction)).unwrap_err();
    assert_eq!(error.kind, ErrorKind::TypeMismatch);
}

#[test]
fn finish_details_round_trip() {
    let details = FinishDetails { kind: FinishReason::length, stop: String::new() };
    let json = details.serialize();
    assert_eq!(
        json,
        Json::Object(vec![member("type", text("length")), member("stop", text(""))])
    );
    assert_eq!(FinishDetails::deserialize(&json), Ok(details));
}

#[test]
fn content_block_record_round_trip() {
    let block = ImageUrl {
        kind: ContentType::image_url,
        text: None,
        image_url: Some(ImageUrlType { url: "https://example.com/x.png".to_string() }),
    };
    let json = block.serialize();
    assert_eq!(
        json,
        Json::Object(vec![
            member("type", text("image_url")),
            member(
                "image_url",
                Json::Object(vec![member("url", text("https://example.com/x.png"))]),
            ),
        ])
    );
    assert_eq!(ImageUrl::deserialize(&json), Ok(block));
    assert_eq!(ContentType::text.serialize(), text("text"));
    assert_eq!(ContentType::deserialize(&text("image_url")), Ok(ContentType::image_url));
    let error = ContentType::deserialize(&text("video")).unwrap_err();
    assert_eq!(error.kind, ErrorKind::UnknownVariant);
}
