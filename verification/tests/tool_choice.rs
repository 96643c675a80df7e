use chat_completion::codec::Wire;
use chat_completion::error::{ErrorKind, Found, PathStep, Wanted};
use chat_completion::json::{Json, JsonNumber};
use chat_completion::tool::{
    serialize_tool_choice, Function, Tool, ToolCall, ToolCallFunction, ToolChoiceType, ToolType,
};

fn member(name: &str, value: Json) -> (String, Json) {
    (name.to_string(), value)
}

fn text(s: &str) -> Json {
    Json::Str(s.to_string())
}

fn render(json: &Json) -> String {
    match json {
        Json::Null => "null".to_string(),
        Json::Bool(b) => b.to_string(),
        Json::Number(JsonNumber::Integer(v)) => v.to_string(),
        Json::Number(JsonNumber::Binary64(b)) => {
            serde_json::to_string(&f64::from_bits(b.bits())).unwrap()
        }
        Json::Str(s) => serde_json::to_string(s).unwrap(),
        Json::Array(items) => {
            let parts: Vec<String> = items.iter().map(render).collect();
            format!("[{}]", parts.join(","))
        }
        Json::Object(members) => {
            let parts: Vec<String> = members
                .iter()
                .map(|(k, v)| format!("{}:{}", serde_json::to_string(k).unwrap(), render(v)))
                .collect();
            format!("{{{}}}", parts.join(","))
        }
    }
}

fn weather_tool() -> Tool {
    Tool {
        kind: ToolType::Function,
        function: Function {
            name: "get_weather".to_string(),
            description: Some("Weather at a place".to_string()),
            parameters: Json::Object(vec![
                member("type", text("object")),
                member(
                    "properties",
                    Json::Object(vec![member(
                        "city",
                        Json::Object(vec![member("type", text("string"))]),
                    )]),
                ),
            ]),
        },
    }
}

#[test]
fn bare_choices_are_quoted_strings() {
    assert_eq!(ToolChoiceType::NoTool.serialize(), text("none"));
    assert_eq!(ToolChoiceType::Auto.serialize(), text("auto"));
    assert_eq!(ToolChoiceType::Any.serialize(), text("any"));
    assert_eq!(render(&ToolChoiceType::NoTool.serialize()), "\"none\"");
    assert_eq!(render(&ToolChoiceType::Auto.serialize()), "\"auto\"");
    assert_eq!(render(&ToolChoiceType::Any.serialize()), "\"any\"");
}

#[test]
fn chosen_tool_is_flattened_to_type_and_function() {
    let tool = weather_tool();
    let json = ToolChoiceType::ToolChoice { tool: tool.clone() }.serialize();
    match &json {
        Json::Object(members) => {
            assert_eq!(members.len(), 2);
            assert_eq!(members[0], member("type", tool.kind.serialize()));
            assert_eq!(members[1], member("function", tool.function.serialize()));
        }
        other => panic!("not an object: {:?}", other),
    }
    assert!(json.get("tool").is_none());
    assert_eq!(
        render(&json),
        "{\"type\":\"function\",\"function\":{\"name\":\"get_weather\",\
         \"description\":\"Weather at a place\",\"parameters\":{\"type\":\"object\",\
         \"properties\":{\"city\":{\"type\":\"string\"}}}}}"
    );
}

#[test]
fn tool_choice_round_trip() {
    let choices = vec![
        ToolChoiceType::NoTool,
        ToolChoiceType::Auto,
        ToolChoiceType::Any,
        ToolChoiceType::ToolChoice { tool: weather_tool() },
    ];
    for choice in choices {
        let json = choice.serialize();
        assert_eq!(ToolChoiceType::deserialize(&json), Ok(choice));
    }
}

#[test]
fn tool_choice_strings_match_exactly() {
    for bad in ["None", "AUTO", "any ", "", "required"] {
        let error = ToolChoiceType::deserialize(&text(bad)).unwrap_err();
        assert_eq!(error.kind, ErrorKind::UnknownVariant);
        assert_eq!(error.wanted, Wanted::Tag);
        assert!(error.path.is_empty());
    }
}

#[test]
fn tool_choice_object_needs_type_and_function() {
    let no_function = Json::Object(vec![member("type", text("function"))]);
    let error = ToolChoiceType::deserialize(&no_function).unwrap_err();
    assert_eq!(error.kind, ErrorKind::MissingField);
    assert_eq!(error.path, vec![PathStep::Key("function".to_string())]);

    let no_type = Json::Object(vec![member("function", weather_tool().function.serialize())]);
    let error = ToolChoiceType::deserialize(&no_type).unwrap_err();
    assert_eq!(error.kind, ErrorKind::MissingField);
    assert_eq!(error.path, vec![PathStep::Key("type".to_string())]);
}

#[test]
fn tool_choice_of_another_shape_is_refused() {
    for bad in [Json::Null, Json::Bool(true), Json::Number(JsonNumber::Integer(1)), Json::Array(vec![])] {
        let found = bad.found();
        let error = ToolChoiceType::deserialize(&bad).unwrap_err();
        assert_eq!(error.kind, ErrorKind::UnexpectedShape);
        assert_eq!(error.wanted, Wanted::TextOrObject);
        assert_eq!(error.found, found);
    }
}

#[test]
fn absent_tool_choice_is_null() {
    assert_eq!(serialize_tool_choice(&None), Json::Null);
    assert_eq!(serialize_tool_choice(&Some(ToolChoiceType::Auto)), text("auto"));
    assert_eq!(
        serialize_tool_choice(&Some(ToolChoiceType::ToolChoice { tool: weather_tool() })),
        weather_tool().serialize()
    );
}

#[test]
fn unknown_tool_type_is_refused() {
    let json = Json::Object(vec![
        member("type", text("retrieval")),
        member("function", weather_tool().function.serialize()),
    ]);
    let error = Tool::deserialize(&json).unwrap_err();
    assert_eq!(error.kind, ErrorKind::UnknownVariant);
    assert_eq!(error.path, vec![PathStep::Key("type".to_string())]);
}

#[test]
fn function_without_description_has_no_such_member() {
    let function = Function {
        name: "f".to_string(),
        description: None,
        parameters: Json::Null,
    };
    let json = function.serialize();
    assert_eq!(
        json,
        Json::Object(vec![member("name", text("f")), member("parameters", Json::Null)])
    );
    assert_eq!(Function::deserialize(&json), Ok(function));
}

#[test]
fn function_needs_its_parameters() {
    let json = Json::Object(vec![member("name", text("f"))]);
    let error = Function::deserialize(&json).unwrap_err();
    assert_eq!(error.kind, ErrorKind::MissingField);
    assert_eq!(error.path, vec![PathStep::Key("parameters".to_string())]);
    assert_eq!(error.found, Found::Absent);
}

#[test]
fn function_name_has_to_be_a_string() {
    let json = Json::Object(vec![
        member("name", Json::Number(JsonNumber::Integer(3))),
        member("parameters", Json::Null),
    ]);
    let error = Function::deserialize(&json).unwrap_err();
    assert_eq!(error.kind, ErrorKind::TypeMismatch);
    assert_eq!(error.wanted, Wanted::Text);
    assert_eq!(error.found, Found::Number);
    assert_eq!(error.path, vec![PathStep::Key("name".to_string())]);
    assert_eq!(error.message(), "expected a string, found a number");
}

#[test]
fn tool_call_round_trip() {
    let call = ToolCall {
        id: "call_1".to_string(),
        kind: "function".to_string(),
        function: ToolCallFunction {
            name: Some("get_weather".to_string()),
            arguments: Some("{\"city\":\"Oslo\"}".to_string()),
        },
    };
    let json = call.serialize();
    assert_eq!(
        render(&json),
        "{\"id\":\"call_1\",\"type\":\"function\",\"function\":{\"name\":\"get_weather\",\
         \"arguments\":\"{\\\"city\\\":\\\"Oslo\\\"}\"}}"
    );
    assert_eq!(ToolCall::deserialize(&json), Ok(call));
}

#[test]
fn members_are_found_in_any_order_and_others_are_passed_over() {
    let json = Json::Object(vec![
        member("function", Json::Object(vec![member("extra", Json::Bool(true))])),
        member("note", text("ignored")),
        member("type", text("function")),
        member("id", text("call_2")),
    ]);
    let call = ToolCall::deserialize(&json).unwrap();
    assert_eq!(call.id, "call_2");
    assert_eq!(call.kind, "function");
    assert_eq!(call.function, ToolCallFunction { name: None, arguments: None });
}

#[test]
fn first_member_of_a_name_counts() {
    let json = Json::Object(vec![member("a", text("first")), member("a", text("second"))]);
    assert_eq!(json.get("a"), Some(&text("first")));
    assert_eq!(json.get("b"), None);
    assert_eq!(text("a").get("a"), None);
}
