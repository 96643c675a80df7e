use chat_completion::codec::Wire;
use chat_completion::content::{Content, ImageUrlType, StructuredContent};
use chat_completion::error::{ErrorKind, Found, PathStep, Wanted};
use chat_completion::json::{Json, JsonNumber};

fn member(name: &str, value: Json) -> (String, Json) {
    (name.to_string(), value)
}

fn text(s: &str) -> Json {
    Json::Str(s.to_string())
}

#[test]
fn plain_text_is_a_string() {
    let content = Content::PlainText("hello".to_string());
    assert_eq!(content.serialize(), text("hello"));
    assert_eq!(Content::deserialize(&text("hello")), Ok(content));
}

#[test]
fn content_member_holding_a_string_is_plain_text() {
    let message = Json::Object(vec![member("content", text("hello"))]);
    let content = Content::deserialize(message.get("content").unwrap());
    assert_eq!(content, Ok(Content::PlainText("hello".to_string())));
}

#[test]
fn content_member_holding_blocks_is_structured() {
    let block = Json::Object(vec![member("type", text("text")), member("text", text("hi"))]);
    let message = Json::Object(vec![member("content", Json::Array(vec![block]))]);
    let content = Content::deserialize(message.get("content").unwrap());
    assert_eq!(
        content,
        Ok(Content::Structured(vec![StructuredContent::Text { text: "hi".to_string() }]))
    );
}

#[test]
fn content_member_holding_a_number_is_refused() {
    let message = Json::Object(vec![member("content", Json::Number(JsonNumber::Integer(5)))]);
    let error = Content::deserialize(message.get("content").unwrap()).unwrap_err();
    assert_eq!(error.kind, ErrorKind::UnexpectedShape);
    assert_eq!(error.wanted, Wanted::TextOrArray);
    assert_eq!(error.found, Found::Number);
    assert!(error.path.is_empty());
    assert_eq!(
        error.message(),
        "expected a string or an array of structured content, found a number"
    );
}

#[test]
fn structured_content_round_trip() {
    let content = Content::Structured(vec![
        StructuredContent::Text { text: "look".to_string() },
        StructuredContent::ImageUrl {
            image_url: ImageUrlType { url: "https://example.com/a.png".to_string() },
        },
    ]);
    let json = content.serialize();
    let expected = Json::Array(vec![
        Json::Object(vec![member("type", text("text")), member("text", text("look"))]),
        Json::Object(vec![
            member("type", text("image_url")),
            member(
                "image_url",
                Json::Object(vec![member("url", text("https://example.com/a.png"))]),
            ),
        ]),
    ]);
    assert_eq!(json, expected);
    assert_eq!(Content::deserialize(&json), Ok(content));
}

#[test]
fn empty_structured_content_is_an_empty_array() {
    let content = Content::Structured(vec![]);
    assert_eq!(content.serialize(), Json::Array(vec![]));
    assert_eq!(Content::deserialize(&Json::Array(vec![])), Ok(content));
}

#[test]
fn unknown_block_tag_is_refused() {
    let block = Json::Object(vec![member("type", text("audio")), member("text", text("hi"))]);
    let error = Content::deserialize(&Json::Array(vec![text_block(), block])).unwrap_err();
    assert_eq!(error.kind, ErrorKind::UnknownVariant);
    assert_eq!(error.path, vec![PathStep::Index(1), PathStep::Key("type".to_string())]);
}

fn text_block() -> Json {
    Json::Object(vec![member("type", text("text")), member("text", text("ok"))])
}

#[test]
fn block_without_its_payload_is_refused() {
    let block = Json::Object(vec![member("type", text("image_url"))]);
    let error = StructuredContent::deserialize(&block).unwrap_err();
    assert_eq!(error.kind, ErrorKind::MissingField);
    assert_eq!(error.path, vec![PathStep::Key("image_url".to_string())]);
    assert_eq!(error.found, Found::Absent);
}
