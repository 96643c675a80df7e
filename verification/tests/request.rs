use chat_completion::codec::Wire;
use chat_completion::content::{Content, StructuredContent};
use chat_completion::error::{ErrorKind, Found, PathStep, Wanted};
use chat_completion::json::{Binary64, Json, JsonNumber};
use chat_completion::message::{ChatCompletionMessage, MessageRole};
use chat_completion::request::{ChatCompletionRequest, EmpowerMetadata, LogitBias, LoraRequest};
use chat_completion::tool::{Function, Tool, ToolCall, ToolCallFunction, ToolChoiceType, ToolType};

fn member(name: &str, value: Json) -> (String, Json) {
    (name.to_string(), value)
}

fn text(s: &str) -> Json {
    Json::Str(s.to_string())
}

fn whole(v: i128) -> Json {
    Json::Number(JsonNumber::Integer(v))
}

fn fraction(v: f64) -> JsonNumber {
    JsonNumber::Binary64(Binary64::new(v.to_bits()).unwrap())
}

fn render(json: &Json) -> String {
    match json {
        Json::Null => "null".to_string(),
        Json::Bool(b) => b.to_string(),
        Json::Number(JsonNumber::Integer(v)) => v.to_string(),
        Json::Number(JsonNumber::Binary64(b)) => {
            serde_json::to_string(&f64::from_bits(b.bits())).unwrap()
        }
        Json::Str(s) => serde_json::to_string(s).unwrap(),
        Json::Array(items) => {
            let parts: Vec<String> = items.iter().map(render).collect();
            format!("[{}]", parts.join(","))
        }
        Json::Object(members) => {
            let parts: Vec<String> = members
                .iter()
                .map(|(k, v)| format!("{}:{}", serde_json::to_string(k).unwrap(), render(v)))
                .collect();
            format!("{{{}}}", parts.join(","))
        }
    }
}

fn keys(json: &Json) -> Vec<String> {
    match json {
        Json::Object(members) => members.iter().map(|(k, _)| k.clone()).collect(),
        other => panic!("not an object: {:?}", other),
    }
}

fn user(text: &str) -> ChatCompletionMessage {
    ChatCompletionMessage {
        role: MessageRole::user,
        content: Some(Content::PlainText(text.to_string())),
        tool_calls: None,
        tool_call_id: None,
    }
}

fn tool(name: &str) -> Tool {
    Tool {
        kind: ToolType::Function,
        function: Function {
            name: name.to_string(),
            description: None,
            parameters: Json::Object(vec![member("type", text("object"))]),
        },
    }
}

fn full_request() -> ChatCompletionRequest {
    let mut request = ChatCompletionRequest::new(
        "model-1".to_string(),
        vec![
            ChatCompletionMessage {
                role: MessageRole::system,
                content: Some(Content::PlainText("Be brief.".to_string())),
                tool_calls: None,
                tool_call_id: None,
            },
            ChatCompletionMessage {
                role: MessageRole::user,
                content: Some(Content::Structured(vec![StructuredContent::Text {
                    text: "hi".to_string(),
                }])),
                tool_calls: None,
                tool_call_id: None,
            },
            ChatCompletionMessage {
                role: MessageRole::assistant,
                content: None,
                tool_calls: Some(vec![ToolCall {
                    id: "c1".to_string(),
                    kind: "function".to_string(),
                    function: ToolCallFunction {
                        name: Some("f".to_string()),
                        arguments: Some("{}".to_string()),
                    },
                }]),
                tool_call_id: None,
            },
            ChatCompletionMessage {
                role: MessageRole::tool,
                content: Some(Content::PlainText("done".to_string())),
                tool_calls: None,
                tool_call_id: Some("c1".to_string()),
            },
        ],
    )
    .temperature(fraction(0.7))
    .top_p(fraction(0.95))
    .n(2)
    .response_format(Json::Object(vec![member("type", text("json_object"))]))
    .stream(false)
    .stop(vec!["\n\n".to_string(), "END".to_string()])
    .max_tokens(256)
    .presence_penalty(fraction(-0.5))
    .frequency_penalty(JsonNumber::Integer(1))
    .logit_bias(LogitBias { entries: vec![("50256".to_string(), -100), ("11".to_string(), 5)] })
    .user("someone".to_string())
    .seed(-7)
    .tools(vec![tool("f"), tool("g")])
    .tool_choice(ToolChoiceType::ToolChoice { tool: tool("f") });
    request.prettify_tools = Some(true);
    request.structure_output_decoding_mode = Some("strict".to_string());
    request.use_raw_output = Some(false);
    request.include_thinking = Some(true);
    request.empower_metadata = Some(EmpowerMetadata {
        id: "m".to_string(),
        lora_request: Some(LoraRequest {
            lora_id: "l".to_string(),
            lora_int_id: 3,
            lora_local_path: "/adapters/l".to_string(),
        }),
        best_of: Some(4),
        num_cached_prefix_messages: Some(2),
        ignore_eos: true,
        ..EmpowerMetadata::default()
    });
    request
}

#[test]
fn new_request_sets_nothing_but_model_and_messages() {
    let request = ChatCompletionRequest::new("m".to_string(), vec![user("hello")]);
    assert_eq!(request.model, "m");
    assert_eq!(request.messages, vec![user("hello")]);
    assert_eq!(request.temperature, None);
    assert_eq!(request.top_p, None);
    assert_eq!(request.n, None);
    assert_eq!(request.response_format, None);
    assert_eq!(request.stream, None);
    assert_eq!(request.stop, None);
    assert_eq!(request.max_tokens, None);
    assert_eq!(request.presence_penalty, None);
    assert_eq!(request.frequency_penalty, None);
    assert_eq!(request.logit_bias, None);
    assert_eq!(request.user, None);
    assert_eq!(request.seed, None);
    assert_eq!(request.tools, None);
    assert_eq!(request.tool_choice, None);
    assert_eq!(request.prettify_tools, None);
    assert_eq!(request.structure_output_decoding_mode, None);
    assert_eq!(request.use_raw_output, None);
    assert_eq!(request.include_thinking, None);
    assert_eq!(request.empower_metadata, None);
}

#[test]
fn unset_fields_are_left_out() {
    let request = ChatCompletionRequest::new("m".to_string(), vec![user("hello")]);
    let json = request.serialize();
    assert_eq!(keys(&json), vec!["model", "messages"]);
    assert_eq!(
        render(&json),
        "{\"model\":\"m\",\"messages\":[{\"role\":\"user\",\"content\":\"hello\"}]}"
    );
    assert!(!render(&json).contains("null"));
}

#[test]
fn only_fields_that_are_set_are_members() {
    let request = ChatCompletionRequest::new("m".to_string(), vec![])
        .seed(1)
        .temperature(fraction(0.25))
        .stream(true);
    let json = request.serialize();
    assert_eq!(keys(&json), vec!["model", "messages", "temperature", "stream", "seed"]);
    assert_eq!(
        render(&json),
        "{\"model\":\"m\",\"messages\":[],\"temperature\":0.25,\"stream\":true,\"seed\":1}"
    );
}

#[test]
fn empty_messages_are_an_empty_array() {
    let request = ChatCompletionRequest::new("m".to_string(), vec![]);
    let json = request.serialize();
    assert_eq!(json.get("messages"), Some(&Json::Array(vec![])));
    assert!(render(&json).contains("\"messages\":[]"));
    let back = ChatCompletionRequest::deserialize(&json).unwrap();
    assert!(back.messages.is_empty());
    assert_eq!(back, request);
}

#[test]
fn full_request_round_trip() {
    let request = full_request();
    let json = request.serialize();
    assert_eq!(
        keys(&json),
        vec![
            "model",
            "messages",
            "temperature",
            "top_p",
            "n",
            "response_format",
            "stream",
            "stop",
            "max_tokens",
            "presence_penalty",
            "frequency_penalty",
            "logit_bias",
            "user",
            "seed",
            "tools",
            "tool_choice",
            "prettify_tools",
            "structure_output_decoding_mode",
            "use_raw_output",
            "include_thinking",
            "empower_metadata",
        ]
    );
    assert_eq!(ChatCompletionRequest::deserialize(&json), Ok(request));
}

#[test]
fn full_request_as_text() {
    let text = render(&full_request().serialize());
    assert_eq!(
        text,
        "{\"model\":\"model-1\",\"messages\":[\
         {\"role\":\"system\",\"content\":\"Be brief.\"},\
         {\"role\":\"user\",\"content\":[{\"type\":\"text\",\"text\":\"hi\"}]},\
         {\"role\":\"assistant\",\"content\":null,\"tool_calls\":[{\"id\":\"c1\",\"type\":\"function\",\
         \"function\":{\"name\":\"f\",\"arguments\":\"{}\"}}]},\
         {\"role\":\"tool\",\"content\":\"done\",\"tool_call_id\":\"c1\"}],\
         \"temperature\":0.7,\"top_p\":0.95,\"n\":2,\"response_format\":{\"type\":\"json_object\"},\
         \"stream\":false,\"stop\":[\"\\n\\n\",\"END\"],\"max_tokens\":256,\
         \"presence_penalty\":-0.5,\"frequency_penalty\":1,\
         \"logit_bias\":{\"50256\":-100,\"11\":5},\"user\":\"someone\",\"seed\":-7,\
         \"tools\":[{\"type\":\"function\",\"function\":{\"name\":\"f\",\"parameters\":{\"type\":\"object\"}}},\
         {\"type\":\"function\",\"function\":{\"name\":\"g\",\"parameters\":{\"type\":\"object\"}}}],\
         \"tool_choice\":{\"type\":\"function\",\"function\":{\"name\":\"f\",\"parameters\":{\"type\":\"object\"}}},\
         \"prettify_tools\":true,\"structure_output_decoding_mode\":\"strict\",\
         \"use_raw_output\":false,\"include_thinking\":true,\
         \"empower_metadata\":{\"id\":\"m\",\"lora_request\":{\"lora_id\":\"l\",\"lora_int_id\":3,\
         \"lora_local_path\":\"/adapters/l\"},\"use_beam_search\":null,\"best_of\":4,\
         \"tools_only\":null,\"tools_enabled\":null,\"conversation_json_schema\":null,\
         \"tools_json_schema\":null,\"num_cached_prefix_messages\":2,\"logprobs\":null,\
         \"ignore_eos\":true,\"skip_chat_template\":false}}"
    );
}

#[test]
fn a_setter_replaces_what_was_set() {
    let request = ChatCompletionRequest::new("m".to_string(), vec![])
        .n(1)
        .n(5)
        .user("a".to_string())
        .user("b".to_string())
        .tool_choice(ToolChoiceType::Auto)
        .tool_choice(ToolChoiceType::NoTool);
    assert_eq!(request.n, Some(5));
    assert_eq!(request.user, Some("b".to_string()));
    assert_eq!(request.tool_choice, Some(ToolChoiceType::NoTool));
    assert_eq!(request.model, "m");
    assert_eq!(request.seed, None);
}

#[test]
fn each_setter_sets_its_own_field() {
    let base = || ChatCompletionRequest::new("m".to_string(), vec![]);
    assert_eq!(base().temperature(fraction(1.5)).temperature, Some(fraction(1.5)));
    assert_eq!(base().top_p(fraction(0.1)).top_p, Some(fraction(0.1)));
    assert_eq!(base().n(3).n, Some(3));
    assert_eq!(base().response_format(Json::Bool(true)).response_format, Some(Json::Bool(true)));
    assert_eq!(base().stream(true).stream, Some(true));
    assert_eq!(base().stop(vec!["x".to_string()]).stop, Some(vec!["x".to_string()]));
    assert_eq!(base().max_tokens(9).max_tokens, Some(9));
    assert_eq!(base().presence_penalty(fraction(0.5)).presence_penalty, Some(fraction(0.5)));
    assert_eq!(base().frequency_penalty(fraction(0.5)).frequency_penalty, Some(fraction(0.5)));
    let bias = LogitBias { entries: vec![("1".to_string(), 2)] };
    assert_eq!(base().logit_bias(bias.clone()).logit_bias, Some(bias));
    assert_eq!(base().user("u".to_string()).user, Some("u".to_string()));
    assert_eq!(base().seed(i64::MIN).seed, Some(i64::MIN));
    assert_eq!(base().tools(vec![tool("t")]).tools, Some(vec![tool("t")]));
    assert_eq!(base().tool_choice(ToolChoiceType::Any).tool_choice, Some(ToolChoiceType::Any));
    let one = base().seed(4);
    assert_eq!(one, {
        let mut expected = base();
        expected.seed = Some(4);
        expected
    });
}

#[test]
fn tools_may_be_chosen_without_being_declared() {
    let request = ChatCompletionRequest::new("m".to_string(), vec![])
        .tool_choice(ToolChoiceType::ToolChoice { tool: tool("f") });
    let json = request.serialize();
    assert_eq!(keys(&json), vec!["model", "messages", "tool_choice"]);
    assert_eq!(ChatCompletionRequest::deserialize(&json), Ok(request));
}

#[test]
fn response_format_set_to_null_reads_back_as_unset() {
    let request = ChatCompletionRequest::new("m".to_string(), vec![]).response_format(Json::Null);
    let json = request.serialize();
    assert_eq!(json.get("response_format"), Some(&Json::Null));
    let back = ChatCompletionRequest::deserialize(&json).unwrap();
    assert_eq!(back, ChatCompletionRequest::new("m".to_string(), vec![]));
}

#[test]
fn request_needs_model_and_messages() {
    let no_model = Json::Object(vec![member("messages", Json::Array(vec![]))]);
    let error = ChatCompletionRequest::deserialize(&no_model).unwrap_err();
    assert_eq!(error.kind, ErrorKind::MissingField);
    assert_eq!(error.path, vec![PathStep::Key("model".to_string())]);

    let no_messages = Json::Object(vec![member("model", text("m"))]);
    let error = ChatCompletionRequest::deserialize(&no_messages).unwrap_err();
    assert_eq!(error.kind, ErrorKind::MissingField);
    assert_eq!(error.path, vec![PathStep::Key("messages".to_string())]);

    let error = ChatCompletionRequest::deserialize(&Json::Array(vec![])).unwrap_err();
    assert_eq!(error.kind, ErrorKind::UnexpectedShape);
    assert_eq!(error.found, Found::Array);
}

#[test]
fn wrong_kinds_in_a_request_are_refused_with_their_path() {
    let with = |name: &str, value: Json| {
        Json::Object(vec![
            member("model", text("m")),
            member("messages", Json::Array(vec![])),
            member(name, value),
        ])
    };
    let cases = vec![
        ("temperature", text("hot"), Wanted::Number),
        ("n", Json::Number(fraction(1.5)), Wanted::Integer),
        ("n", whole(i64::MAX as i128 + 1), Wanted::Integer),
        ("seed", whole(i64::MIN as i128 - 1), Wanted::Integer),
        ("stream", whole(1), Wanted::Bool),
        ("stop", text("END"), Wanted::Array),
        ("user", Json::Bool(false), Wanted::Text),
        ("logit_bias", Json::Array(vec![]), Wanted::Object),
        ("tools", Json::Object(vec![]), Wanted::Array),
    ];
    for (name, value, wanted) in cases {
        let error = ChatCompletionRequest::deserialize(&with(name, value)).unwrap_err();
        assert_eq!(error.kind, ErrorKind::TypeMismatch, "{}", name);
        assert_eq!(error.wanted, wanted, "{}", name);
        assert_eq!(error.path, vec![PathStep::Key(name.to_string())], "{}", name);
    }
    let error = ChatCompletionRequest::deserialize(&Json::Object(vec![
        member("model", text("m")),
        member("messages", Json::Array(vec![user("ok").serialize(), whole(1)])),
    ]))
    .unwrap_err();
    assert_eq!(error.kind, ErrorKind::UnexpectedShape);
    assert_eq!(
        error.path,
        vec![PathStep::Key("messages".to_string()), PathStep::Index(1)]
    );
    let error = ChatCompletionRequest::deserialize(&with(
        "logit_bias",
        Json::Object(vec![member("1", whole(1)), member("2", whole(i32::MAX as i128 + 1))]),
    ))
    .unwrap_err();
    assert_eq!(error.kind, ErrorKind::TypeMismatch);
    assert_eq!(
        error.path,
        vec![PathStep::Key("logit_bias".to_string()), PathStep::Key("2".to_string())]
    );
    let error =
        ChatCompletionRequest::deserialize(&with("tool_choice", text("sometimes"))).unwrap_err();
    assert_eq!(error.kind, ErrorKind::UnknownVariant);
    assert_eq!(error.path, vec![PathStep::Key("tool_choice".to_string())]);
}

#[test]
fn numbers_are_read_as_they_stand() {
    let json = Json::Object(vec![
        member("model", text("m")),
        member("messages", Json::Array(vec![])),
        member("temperature", whole(1)),
        member("top_p", Json::Number(fraction(0.5))),
        member("max_tokens", whole(i64::MAX as i128)),
        member("seed", whole(i64::MIN as i128)),
        member("stop", Json::Null),
    ]);
    let request = ChatCompletionRequest::deserialize(&json).unwrap();
    assert_eq!(request.temperature, Some(JsonNumber::Integer(1)));
    assert_eq!(request.top_p, Some(fraction(0.5)));
    assert_eq!(request.max_tokens, Some(i64::MAX));
    assert_eq!(request.seed, Some(i64::MIN));
    assert_eq!(request.stop, None);
}

#[test]
fn message_content_is_null_where_there_is_none() {
    let message = ChatCompletionMessage {
        role: MessageRole::assistant,
        content: None,
        tool_calls: None,
        tool_call_id: None,
    };
    let json = message.serialize();
    assert_eq!(
        json,
        Json::Object(vec![member("role", text("assistant")), member("content", Json::Null)])
    );
    assert_eq!(ChatCompletionMessage::deserialize(&json), Ok(message.clone()));
    let without = Json::Object(vec![member("role", text("assistant"))]);
    assert_eq!(ChatCompletionMessage::deserialize(&without), Ok(message));
}

#[test]
fn roles_are_written_as_their_names() {
    let all = [
        (MessageRole::user, "user"),
        (MessageRole::system, "system"),
        (MessageRole::assistant, "assistant"),
        (MessageRole::function, "function"),
        (MessageRole::tool, "tool"),
    ];
    for (role, tag) in all {
        assert_eq!(role.serialize(), text(tag));
        assert_eq!(MessageRole::deserialize(&text(tag)), Ok(role));
    }
    let error = MessageRole::deserialize(&text("User")).unwrap_err();
    assert_eq!(error.kind, ErrorKind::UnknownVariant);
    let error = ChatCompletionMessage::deserialize(&Json::Object(vec![
        member("role", text("robot")),
        member("content", text("x")),
    ]))
    .unwrap_err();
    assert_eq!(error.kind, ErrorKind::UnknownVariant);
    assert_eq!(error.path, vec![PathStep::Key("role".to_string())]);
}

#[test]
fn message_content_of_another_shape_is_refused() {
    let error = ChatCompletionMessage::deserialize(&Json::Object(vec![
        member("role", text("user")),
        member("content", Json::Object(vec![])),
    ]))
    .unwrap_err();
    assert_eq!(error.kind, ErrorKind::UnexpectedShape);
    assert_eq!(error.wanted, Wanted::TextOrArray);
    assert_eq!(error.found, Found::Object);
    assert_eq!(error.path, vec![PathStep::Key("content".to_string())]);
}

#[test]
fn default_metadata_is_written_with_every_member() {
    let metadata = EmpowerMetadata::default();
    assert_eq!(metadata.id, "");
    assert!(!metadata.ignore_eos);
    assert!(!metadata.skip_chat_template);
    let json = metadata.serialize();
    assert_eq!(
        render(&json),
        "{\"id\":\"\",\"lora_request\":null,\"use_beam_search\":null,\"best_of\":null,\
         \"tools_only\":null,\"tools_enabled\":null,\"conversation_json_schema\":null,\
         \"tools_json_schema\":null,\"num_cached_prefix_messages\":null,\"logprobs\":null,\
         \"ignore_eos\":false,\"skip_chat_template\":false}"
    );
    assert_eq!(EmpowerMetadata::deserialize(&json), Ok(metadata));
}

#[test]
fn metadata_needs_its_flags() {
    let json = Json::Object(vec![member("id", text("x")), member("ignore_eos", Json::Bool(true))]);
    let error = EmpowerMetadata::deserialize(&json).unwrap_err();
    assert_eq!(error.kind, ErrorKind::MissingField);
    assert_eq!(error.path, vec![PathStep::Key("skip_chat_template".to_string())]);
    let negative = Json::Object(vec![
        member("id", text("x")),
        member("logprobs", whole(-1)),
        member("ignore_eos", Json::Bool(true)),
        member("skip_chat_template", Json::Bool(true)),
    ]);
    let error = EmpowerMetadata::deserialize(&negative).unwrap_err();
    assert_eq!(error.kind, ErrorKind::TypeMismatch);
    assert_eq!(error.path, vec![PathStep::Key("logprobs".to_string())]);
}

#[test]
fn adapter_record_round_trip() {
    let lora = LoraRequest {
        lora_id: "adapter".to_string(),
        lora_int_id: 7,
        lora_local_path: "/tmp/adapter".to_string(),
    };
    let json = lora.serialize();
    assert_eq!(
        render(&json),
        "{\"lora_id\":\"adapter\",\"lora_int_id\":7,\"lora_local_path\":\"/tmp/adapter\"}"
    );
    assert_eq!(LoraRequest::deserialize(&json), Ok(lora));
}

#[test]
fn biases_keep_their_order() {
    let bias = LogitBias {
        entries: vec![("9".to_string(), 1), ("10".to_string(), -1), ("9".to_string(), 2)],
    };
    let json = bias.serialize();
    assert_eq!(render(&json), "{\"9\":1,\"10\":-1,\"9\":2}");
    assert_eq!(LogitBias::deserialize(&json), Ok(bias));
    assert_eq!(
        LogitBias::deserialize(&Json::Object(vec![])),
        Ok(LogitBias { entries: vec![] })
    );
}
