use chat_completion::codec::Wire;
use chat_completion::error::{ErrorKind, Found, PathStep, Wanted};
use chat_completion::json::{Json, JsonNumber};
use chat_completion::schema::{
    FunctionParameters, JSONSchemaDefine, JSONSchemaType, Properties, MAX_SCHEMA_DEPTH,
};

fn member(name: &str, value: Json) -> (String, Json) {
    (name.to_string(), value)
}

fn text(s: &str) -> Json {
    Json::Str(s.to_string())
}

fn typed(tag: &str) -> Json {
    Json::Object(vec![member("type", text(tag))])
}

fn leaf(schema_type: JSONSchemaType, description: &str) -> JSONSchemaDefine {
    let mut node = JSONSchemaDefine::new(schema_type);
    node.description = Some(description.to_string());
    node
}

fn names(properties: &Properties) -> Vec<String> {
    (0..properties.len()).map(|i| properties.name_at(i).clone()).collect()
}

#[test]
fn schema_without_type_is_refused() {
    let json = Json::Object(vec![member("description", text("no type"))]);
    let error = JSONSchemaDefine::deserialize(&json).unwrap_err();
    assert_eq!(error.kind, ErrorKind::MissingField);
    assert_eq!(error.path, vec![PathStep::Key("type".to_string())]);
    assert_eq!(error.found, Found::Absent);
}

#[test]
fn schema_with_unknown_type_is_refused() {
    let error = JSONSchemaDefine::deserialize(&typed("bogus")).unwrap_err();
    assert_eq!(error.kind, ErrorKind::UnknownVariant);
    assert_eq!(error.path, vec![PathStep::Key("type".to_string())]);
}

#[test]
fn schema_type_tags_are_lowercase_and_exact() {
    let all = [
        (JSONSchemaType::Object, "object"),
        (JSONSchemaType::Number, "number"),
        (JSONSchemaType::String, "string"),
        (JSONSchemaType::Array, "array"),
        (JSONSchemaType::Null, "null"),
        (JSONSchemaType::Boolean, "boolean"),
    ];
    for (value, tag) in all {
        assert_eq!(value.serialize(), text(tag));
        assert_eq!(JSONSchemaType::deserialize(&text(tag)), Ok(value));
    }
    for bad in ["Object", "STRING", "integer", ""] {
        let error = JSONSchemaType::deserialize(&text(bad)).unwrap_err();
        assert_eq!(error.kind, ErrorKind::UnknownVariant);
    }
    let error = JSONSchemaType::deserialize(&Json::Null).unwrap_err();
    assert_eq!(error.kind, ErrorKind::TypeMismatch);
}

#[test]
fn bare_schema_has_only_its_type() {
    let node = JSONSchemaDefine::new(JSONSchemaType::String);
    assert_eq!(node.serialize(), typed("string"));
    let back = JSONSchemaDefine::deserialize(&typed("string")).unwrap();
    assert_eq!(back, node);
    assert_eq!(back.description, None);
    assert_eq!(back.enum_values, None);
    assert_eq!(back.properties, None);
    assert_eq!(back.required, None);
    assert_eq!(back.items, None);
}

#[test]
fn members_of_a_schema_come_in_a_fixed_order() {
    let mut properties = Properties::new();
    properties.insert("unit".to_string(), {
        let mut unit = leaf(JSONSchemaType::String, "Unit of temperature");
        unit.enum_values = Some(vec!["celsius".to_string(), "kelvin".to_string()]);
        unit
    });
    let mut items = JSONSchemaDefine::new(JSONSchemaType::Number);
    items.description = None;
    let node = JSONSchemaDefine {
        schema_type: JSONSchemaType::Object,
        description: Some("all of it".to_string()),
        enum_values: Some(vec![]),
        properties: Some(properties),
        required: Some(vec!["unit".to_string()]),
        items: Some(Box::new(items)),
    };
    let expected = Json::Object(vec![
        member("type", text("object")),
        member("description", text("all of it")),
        member("enum_values", Json::Array(vec![])),
        member(
            "properties",
            Json::Object(vec![member(
                "unit",
                Json::Object(vec![
                    member("type", text("string")),
                    member("description", text("Unit of temperature")),
                    member("enum_values", Json::Array(vec![text("celsius"), text("kelvin")])),
                ]),
            )]),
        ),
        member("required", Json::Array(vec![text("unit")])),
        member("items", typed("number")),
    ]);
    assert_eq!(node.serialize(), expected);
    assert_eq!(JSONSchemaDefine::deserialize(&expected), Ok(node));
}

#[test]
fn properties_are_written_in_ascending_order() {
    let mut properties = Properties::new();
    for name in ["zeta", "alpha", "mid", "Alpha", "alphabet", ""] {
        properties.insert(name.to_string(), leaf(JSONSchemaType::String, name));
    }
    assert_eq!(names(&properties), vec!["", "Alpha", "alpha", "alphabet", "mid", "zeta"]);
    let mut node = JSONSchemaDefine::new(JSONSchemaType::Object);
    node.properties = Some(properties);
    let json = node.serialize();
    let written: Vec<String> = match json.get("properties") {
        Some(Json::Object(members)) => members.iter().map(|(k, _)| k.clone()).collect(),
        other => panic!("no properties: {:?}", other),
    };
    assert_eq!(written, vec!["", "Alpha", "alpha", "alphabet", "mid", "zeta"]);
}

#[test]
fn insertion_order_does_not_show() {
    let entries = [
        ("city", JSONSchemaType::String),
        ("days", JSONSchemaType::Number),
        ("units", JSONSchemaType::String),
        ("alerts", JSONSchemaType::Boolean),
    ];
    let mut forward = Properties::new();
    for (name, schema_type) in entries.iter() {
        forward.insert(name.to_string(), leaf(*schema_type, name));
    }
    let mut backward = Properties::new();
    for (name, schema_type) in entries.iter().rev() {
        backward.insert(name.to_string(), leaf(*schema_type, name));
    }
    assert_eq!(forward, backward);
    let mut a = JSONSchemaDefine::new(JSONSchemaType::Object);
    a.properties = Some(forward);
    let mut b = JSONSchemaDefine::new(JSONSchemaType::Object);
    b.properties = Some(backward);
    assert_eq!(a.serialize(), b.serialize());
}

#[test]
fn inserting_under_a_name_again_replaces() {
    let mut properties = Properties::new();
    properties.insert("a".to_string(), leaf(JSONSchemaType::String, "old"));
    properties.insert("b".to_string(), leaf(JSONSchemaType::Number, "other"));
    properties.insert("a".to_string(), leaf(JSONSchemaType::Boolean, "new"));
    assert_eq!(properties.len(), 2);
    assert_eq!(properties.get("a"), Some(&leaf(JSONSchemaType::Boolean, "new")));
    assert_eq!(properties.get("b"), Some(&leaf(JSONSchemaType::Number, "other")));
    assert_eq!(properties.get("c"), None);
    assert_eq!(properties.name_at(0), "a");
    assert_eq!(properties.schema_at(1), &leaf(JSONSchemaType::Number, "other"));
}

#[test]
fn empty_properties_are_an_empty_object() {
    let mut node = JSONSchemaDefine::new(JSONSchemaType::Object);
    node.properties = Some(Properties::new());
    let json = node.serialize();
    assert_eq!(json.get("properties"), Some(&Json::Object(vec![])));
    assert_eq!(JSONSchemaDefine::deserialize(&json), Ok(node));
}

#[test]
fn unsorted_properties_are_read_and_written_sorted() {
    let json = Json::Object(vec![
        member("type", text("object")),
        member(
            "properties",
            Json::Object(vec![
                member("b", typed("number")),
                member("a", typed("string")),
                member("b", typed("boolean")),
            ]),
        ),
    ]);
    let node = JSONSchemaDefine::deserialize(&json).unwrap();
    let properties = node.properties.as_ref().unwrap();
    assert_eq!(names(properties), vec!["a", "b"]);
    assert_eq!(properties.get("b"), Some(&JSONSchemaDefine::new(JSONSchemaType::Boolean)));
    let again = node.serialize();
    assert_eq!(
        again,
        Json::Object(vec![
            member("type", text("object")),
            member(
                "properties",
                Json::Object(vec![member("a", typed("string")), member("b", typed("boolean"))]),
            ),
        ])
    );
    assert_eq!(JSONSchemaDefine::deserialize(&again), Ok(node));
}

#[test]
fn sorted_document_is_written_back_as_it_was() {
    let json = Json::Object(vec![
        member("type", text("object")),
        member("description", text("where and when")),
        member(
            "properties",
            Json::Object(vec![
                member(
                    "days",
                    Json::Object(vec![
                        member("type", text("array")),
                        member("items", typed("number")),
                    ]),
                ),
                member(
                    "place",
                    Json::Object(vec![
                        member("type", text("object")),
                        member(
                            "properties",
                            Json::Object(vec![
                                member("city", typed("string")),
                                member("country", typed("string")),
                            ]),
                        ),
                        member("required", Json::Array(vec![text("city")])),
                    ]),
                ),
            ]),
        ),
        member("required", Json::Array(vec![text("place")])),
    ]);
    let node = JSONSchemaDefine::deserialize(&json).unwrap();
    assert_eq!(node.serialize(), json);
}

#[test]
fn absent_and_null_members_are_unset() {
    let json = Json::Object(vec![
        member("type", text("array")),
        member("description", Json::Null),
        member("properties", Json::Null),
        member("items", Json::Null),
    ]);
    assert_eq!(
        JSONSchemaDefine::deserialize(&json),
        Ok(JSONSchemaDefine::new(JSONSchemaType::Array))
    );
}

#[test]
fn wrong_kinds_inside_a_schema_are_refused_with_their_path() {
    let bad_description = Json::Object(vec![
        member("type", text("string")),
        member("description", Json::Number(JsonNumber::Integer(5))),
    ]);
    let error = JSONSchemaDefine::deserialize(&bad_description).unwrap_err();
    assert_eq!(error.kind, ErrorKind::TypeMismatch);
    assert_eq!(error.wanted, Wanted::Text);
    assert_eq!(error.found, Found::Number);
    assert_eq!(error.path, vec![PathStep::Key("description".to_string())]);

    let bad_required = Json::Object(vec![
        member("type", text("object")),
        member("required", Json::Array(vec![text("a"), Json::Bool(true)])),
    ]);
    let error = JSONSchemaDefine::deserialize(&bad_required).unwrap_err();
    assert_eq!(error.kind, ErrorKind::TypeMismatch);
    assert_eq!(
        error.path,
        vec![PathStep::Key("required".to_string()), PathStep::Index(1)]
    );

    let bad_properties = Json::Object(vec![
        member("type", text("object")),
        member("properties", Json::Array(vec![])),
    ]);
    let error = JSONSchemaDefine::deserialize(&bad_properties).unwrap_err();
    assert_eq!(error.kind, ErrorKind::TypeMismatch);
    assert_eq!(error.wanted, Wanted::Object);
    assert_eq!(error.found, Found::Array);
    assert_eq!(error.path, vec![PathStep::Key("properties".to_string())]);

    let bad_nested = Json::Object(vec![
        member("type", text("object")),
        member(
            "properties",
            Json::Object(vec![member("inner", Json::Object(vec![member("type", text("float"))]))]),
        ),
    ]);
    let error = JSONSchemaDefine::deserialize(&bad_nested).unwrap_err();
    assert_eq!(error.kind, ErrorKind::UnknownVariant);
    assert_eq!(
        error.path,
        vec![
            PathStep::Key("properties".to_string()),
            PathStep::Key("inner".to_string()),
            PathStep::Key("type".to_string()),
        ]
    );

    let error = JSONSchemaDefine::deserialize(&text("string")).unwrap_err();
    assert_eq!(error.kind, ErrorKind::UnexpectedShape);
    assert_eq!(error.wanted, Wanted::Object);
    assert_eq!(error.found, Found::Text);
}

fn nested_arrays(levels: usize) -> Json {
    let mut json = typed("string");
    for _ in 1..levels {
        json = Json::Object(vec![member("type", text("array")), member("items", json)]);
    }
    json
}

fn nested_objects(levels: usize) -> Json {
    let mut json = typed("string");
    for _ in 1..levels {
        json = Json::Object(vec![
            member("type", text("object")),
            member("properties", Json::Object(vec![member("p", json)])),
        ]);
    }
    json
}

#[test]
fn depth_ceiling_is_sixty_four_levels() {
    assert_eq!(MAX_SCHEMA_DEPTH, 64);
    let deepest = nested_arrays(64);
    let node = JSONSchemaDefine::deserialize(&deepest).unwrap();
    assert_eq!(node.serialize(), deepest);

    let too_deep = nested_arrays(65);
    let error = JSONSchemaDefine::deserialize(&too_deep).unwrap_err();
    assert_eq!(error.kind, ErrorKind::DepthExceeded);
    assert_eq!(error.wanted, Wanted::Shallower);
    assert_eq!(error.path.len(), 64);
    assert!(error.path.iter().all(|step| *step == PathStep::Key("items".to_string())));
}

#[test]
fn depth_counts_schemas_under_properties_too() {
    assert!(JSONSchemaDefine::deserialize(&nested_objects(64)).is_ok());
    let error = JSONSchemaDefine::deserialize(&nested_objects(65)).unwrap_err();
    assert_eq!(error.kind, ErrorKind::DepthExceeded);
    assert_eq!(error.path.len(), 128);
}

#[test]
fn room_limits_the_levels_entered() {
    let two = nested_arrays(2);
    assert!(JSONSchemaDefine::from_json(&two, 2).is_ok());
    let error = JSONSchemaDefine::from_json(&two, 1).unwrap_err();
    assert_eq!(error.kind, ErrorKind::DepthExceeded);
    let error = JSONSchemaDefine::from_json(&two, 0).unwrap_err();
    assert_eq!(error.kind, ErrorKind::DepthExceeded);
    assert!(error.path.is_empty());
}

#[test]
fn a_copy_of_a_schema_is_equal_to_it() {
    let node = JSONSchemaDefine::deserialize(&nested_objects(5)).unwrap();
    assert_eq!(node.clone(), node);
}

#[test]
fn function_parameters_round_trip() {
    let mut properties = Properties::new();
    properties.insert("q".to_string(), leaf(JSONSchemaType::String, "query"));
    let parameters = FunctionParameters {
        schema_type: JSONSchemaType::Object,
        properties: Some(properties),
        required: Some(vec!["q".to_string()]),
    };
    let json = parameters.serialize();
    assert_eq!(
        json,
        Json::Object(vec![
            member("type", text("object")),
            member(
                "properties",
                Json::Object(vec![member(
                    "q",
                    Json::Object(vec![
                        member("type", text("string")),
                        member("description", text("query")),
                    ]),
                )]),
            ),
            member("required", Json::Array(vec![text("q")])),
        ])
    );
    assert_eq!(FunctionParameters::deserialize(&json), Ok(parameters));
}

#[test]
fn function_parameters_are_the_first_level() {
    let holds = |levels: usize| {
        Json::Object(vec![
            member("type", text("object")),
            member("properties", Json::Object(vec![member("p", nested_arrays(levels))])),
        ])
    };
    assert!(FunctionParameters::deserialize(&holds(63)).is_ok());
    let error = FunctionParameters::deserialize(&holds(64)).unwrap_err();
    assert_eq!(error.kind, ErrorKind::DepthExceeded);
    let error = FunctionParameters::deserialize(&typed("bogus")).unwrap_err();
    assert_eq!(error.kind, ErrorKind::UnknownVariant);
}
