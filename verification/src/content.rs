//! Message content: plain text, or a sequence of typed blocks.
use vstd::prelude::*;
use crate::codec::{
    decoded_all, encoded_all, encoded_some, get_optional, get_required, lemma_layer,
    lemma_round_trip_all, members_of, object_members, optional, put, put_some, required, text_is,
    with, with_some, Members, Wire,
};
use crate::error::{fail, DecodeError, ErrorKind, Failure, Found, Wanted};
use crate::json::{found_of, lemma_lookup_push, lookup, Doc, Json};

verus! {

/// Where an image is.
#[derive(Debug, Clone, PartialEq, Eq)]
pub struct ImageUrlType {
    pub url: String,
}

/// The mathematical value of an [`ImageUrlType`].
pub struct ImageUrlTypeModel {
    pub url: Seq<char>,
}

impl DeepView for ImageUrlType {
    type V = ImageUrlTypeModel;

    open spec fn deep_view(&self) -> ImageUrlTypeModel {
        ImageUrlTypeModel { url: self.url@ }
    }
}

impl Wire for ImageUrlType {
    open spec fn encoded(v: ImageUrlTypeModel) -> Doc {
        Doc::Object(with::<String>(Seq::empty(), "url"@, v.url))
    }

    open spec fn decoded(d: Doc) -> Result<ImageUrlTypeModel, Failure> {
        match object_members(d) {
            Err(e) => Err(e),
            Ok(m) => match required::<String>(m, "url"@) {
                Err(e) => Err(e),
                Ok(url) => Ok(ImageUrlTypeModel { url }),
            },
        }
    }

    open spec fn faithful(v: ImageUrlTypeModel) -> bool {
        true
    }

    fn serialize(&self) -> (r: Json) {
        let mut members: Vec<(String, Json)> = Vec::new();
        put(&mut members, "url", &self.url);
        Json::Object(members)
    }

    fn deserialize(json: &Json) -> (r: Result<Self, DecodeError>) {
        let members = members_of(json)?;
        let url = get_required::<String>(members, "url")?;
        Ok(ImageUrlType { url })
    }

    proof fn lemma_round_trip(v: ImageUrlTypeModel) {
        broadcast use lemma_lookup_push;

    }
}

/// One block of structured content, told apart on the wire by its `type`
/// member.
#[derive(Debug, Clone, PartialEq, Eq)]
pub enum StructuredContent {
    Text { text: String },
    ImageUrl { image_url: ImageUrlType },
}

/// The mathematical value of a [`StructuredContent`].
pub enum StructuredContentModel {
    Text { text: Seq<char> },
    ImageUrl { image_url: ImageUrlTypeModel },
}

impl DeepView for StructuredContent {
    type V = StructuredContentModel;

    open spec fn deep_view(&self) -> StructuredContentModel {
        match self {
            StructuredContent::Text { text } => StructuredContentModel::Text { text: text@ },
            StructuredContent::ImageUrl { image_url } => StructuredContentModel::ImageUrl {
                image_url: image_url.deep_view(),
            },
        }
    }
}

impl Wire for StructuredContent {
    open spec fn encoded(v: StructuredContentModel) -> Doc {
        match v {
            StructuredContentModel::Text { text } => Doc::Object(
                with::<String>(with::<String>(Seq::empty(), "type"@, "text"@), "text"@, text),
            ),
            StructuredContentModel::ImageUrl { image_url } => Doc::Object(
                with::<ImageUrlType>(
                    with::<String>(Seq::empty(), "type"@, "image_url"@),
                    "image_url"@,
                    image_url,
                ),
            ),
        }
    }

    open spec fn decoded(d: Doc) -> Result<StructuredContentModel, Failure> {
        match object_members(d) {
            Err(e) => Err(e),
            Ok(m) => match required::<String>(m, "type"@) {
                Err(e) => Err(e),
                Ok(tag) => if tag == "text"@ {
                    match required::<String>(m, "text"@) {
                        Err(e) => Err(e),
                        Ok(text) => Ok(StructuredContentModel::Text { text }),
                    }
                } else if tag == "image_url"@ {
                    match required::<ImageUrlType>(m, "image_url"@) {
                        Err(e) => Err(e),
                        Ok(image_url) => Ok(StructuredContentModel::ImageUrl { image_url }),
                    }
                } else {
                    Err(
                        fail(ErrorKind::UnknownVariant, Wanted::Tag, Found::Text).at_key("type"@),
                    )
                },
            },
        }
    }

    open spec fn faithful(v: StructuredContentModel) -> bool {
        true
    }

    fn serialize(&self) -> (r: Json) {
        let mut members: Vec<(String, Json)> = Vec::new();
        match self {
            StructuredContent::Text { text } => {
                put(&mut members, "type", &String::from_str("text"));
                put(&mut members, "text", text);
            },
            StructuredContent::ImageUrl { image_url } => {
                put(&mut members, "type", &String::from_str("image_url"));
                put(&mut members, "image_url", image_url);
            },
        }
        Json::Object(members)
    }

    fn deserialize(json: &Json) -> (r: Result<Self, DecodeError>) {
        let members = members_of(json)?;
        let tag = get_required::<String>(members, "type")?;
        if text_is(&tag, "text") {
            let text = get_required::<String>(members, "text")?;
            Ok(StructuredContent::Text { text })
        } else if text_is(&tag, "image_url") {
            let image_url = get_required::<ImageUrlType>(members, "image_url")?;
            Ok(StructuredContent::ImageUrl { image_url })
        } else {
            Err(
                DecodeError::new(ErrorKind::UnknownVariant, Wanted::Tag, Found::Text).at_key(
                    "type",
                ),
            )
        }
    }

    proof fn lemma_round_trip(v: StructuredContentModel) {
        broadcast use lemma_lookup_push;

        reveal_strlit("type");
        reveal_strlit("text");
        reveal_strlit("image_url");
        assert("type"@[1] != "text"@[1]);
        match v {
            StructuredContentModel::Text { text } => {},
            StructuredContentModel::ImageUrl { image_url } => {
                ImageUrlType::lemma_round_trip(image_url);
            },
        }
    }
}

/// The content of a message.
#[derive(Debug, Clone, PartialEq, Eq)]
pub enum Content {
    PlainText(String),
    Structured(Vec<StructuredContent>),
}

/// The mathematical value of a [`Content`].
pub enum ContentModel {
    PlainText(Seq<char>),
    Structured(Seq<StructuredContentModel>),
}

impl DeepView for Content {
    type V = ContentModel;

    open spec fn deep_view(&self) -> ContentModel {
        match self {
            Content::PlainText(s) => ContentModel::PlainText(s@),
            Content::Structured(blocks) => ContentModel::Structured(blocks.deep_view()),
        }
    }
}

impl Wire for Content {
    /// Plain text is a string; structured content is the array of its blocks,
    /// in order.
    open spec fn encoded(v: ContentModel) -> Doc {
        match v {
            ContentModel::PlainText(s) => Doc::Str(s),
            ContentModel::Structured(blocks) => Doc::Array(
                encoded_all::<StructuredContent>(blocks),
            ),
        }
    }

    /// A string is plain text; an array is structured content, if each of its
    /// items is a block. Nothing else is content.
    open spec fn decoded(d: Doc) -> Result<ContentModel, Failure> {
        match d {
            Doc::Str(s) => Ok(ContentModel::PlainText(s)),
            Doc::Array(items) => match decoded_all::<StructuredContent>(items) {
                Ok(blocks) => Ok(ContentModel::Structured(blocks)),
                Err(e) => Err(e),
            },
            _ => Err(fail(ErrorKind::UnexpectedShape, Wanted::TextOrArray, found_of(d))),
        }
    }

    open spec fn faithful(v: ContentModel) -> bool {
        true
    }

    fn serialize(&self) -> (r: Json) {
        match self {
            Content::PlainText(s) => Json::Str(s.clone()),
            Content::Structured(blocks) => blocks.serialize(),
        }
    }

    fn deserialize(json: &Json) -> (r: Result<Self, DecodeError>) {
        match json {
            Json::Str(s) => Ok(Content::PlainText(s.clone())),
            Json::Array(_) => {
                let blocks = Vec::<StructuredContent>::deserialize(json)?;
                Ok(Content::Structured(blocks))
            },
            _ => Err(
                DecodeError::new(ErrorKind::UnexpectedShape, Wanted::TextOrArray, json.found()),
            ),
        }
    }

    proof fn lemma_round_trip(v: ContentModel) {
        match v {
            ContentModel::PlainText(s) => {},
            ContentModel::Structured(blocks) => {
                assert forall|i: int| 0 <= i < blocks.len() implies StructuredContent::faithful(
                    #[trigger] blocks[i],
                ) by {}
                lemma_round_trip_all::<StructuredContent>(blocks);
            },
        }
    }
}

/// Every content is read back unchanged from the document it is written as.
pub proof fn lemma_content_round_trip(v: ContentModel)
    ensures
        Content::decoded(Content::encoded(v)) == Ok::<ContentModel, Failure>(v),
{
    Content::lemma_round_trip(v);
}

/// A string is read as plain text, and plain text is written as the string
/// it was read from.
pub proof fn lemma_text_rewritten(s: Seq<char>)
    ensures
        Content::decoded(Doc::Str(s)) == Ok::<ContentModel, Failure>(ContentModel::PlainText(s)),
        Content::encoded(ContentModel::PlainText(s)) == Doc::Str(s),
{
}

/// Whether each document of a sequence is a block as blocks are written: with
/// `type` first and nothing but the block's own members.
pub open spec fn blocks_as_written(items: Seq<Doc>) -> bool {
    forall|i: int|
        0 <= i < items.len() ==> exists|b: StructuredContentModel| #[trigger]
            items[i] == StructuredContent::encoded(b)
}

/// An array of blocks as they are written is read as structured content, and
/// that content is written as the same array.
pub proof fn lemma_array_rewritten(items: Seq<Doc>)
    requires
        blocks_as_written(items),
    ensures
        Content::decoded(Doc::Array(items)) is Ok,
        Content::encoded(Content::decoded(Doc::Array(items))->Ok_0) == Doc::Array(items),
{
    let blocks = Seq::new(
        items.len(),
        |i: int| choose|b: StructuredContentModel| items[i] == StructuredContent::encoded(b),
    );
    assert(encoded_all::<StructuredContent>(blocks) =~= items);
    Content::lemma_round_trip(ContentModel::Structured(blocks));
}

/// What a document is read as is written as a document that is read as the
/// same content again: writing what was read, and then writing what is read
/// from that, gives the same document twice.
pub proof fn lemma_content_rewritten(d: Doc)
    requires
        Content::decoded(d) is Ok,
    ensures
        Content::decoded(Content::encoded(Content::decoded(d)->Ok_0)) == Content::decoded(d),
{
    Content::lemma_round_trip(Content::decoded(d)->Ok_0);
}

/// The kinds of content block.
#[derive(Debug, Clone, Copy, PartialEq, Eq, Structural)]
#[allow(non_camel_case_types)]
pub enum ContentType {
    text,
    image_url,
}

impl DeepView for ContentType {
    type V = ContentType;

    open spec fn deep_view(&self) -> ContentType {
        *self
    }
}

/// The tag a [`ContentType`] is written as.
pub open spec fn content_type_tag(v: ContentType) -> Seq<char> {
    match v {
        ContentType::text => "text"@,
        ContentType::image_url => "image_url"@,
    }
}

impl Wire for ContentType {
    /// A string: the tag.
    open spec fn encoded(v: ContentType) -> Doc {
        Doc::Str(content_type_tag(v))
    }

    /// A string that is one of the tags, letter for letter.
    open spec fn decoded(d: Doc) -> Result<ContentType, Failure> {
        match d {
            Doc::Str(s) => if s == "text"@ {
                Ok(ContentType::text)
            } else if s == "image_url"@ {
                Ok(ContentType::image_url)
            } else {
                Err(fail(ErrorKind::UnknownVariant, Wanted::Tag, Found::Text))
            },
            _ => Err(fail(ErrorKind::TypeMismatch, Wanted::Text, found_of(d))),
        }
    }

    open spec fn faithful(v: ContentType) -> bool {
        true
    }

    fn serialize(&self) -> (r: Json) {
        let tag = match self {
            ContentType::text => "text",
            ContentType::image_url => "image_url",
        };
        Json::Str(String::from_str(tag))
    }

    fn deserialize(json: &Json) -> (r: Result<Self, DecodeError>) {
        match json {
            Json::Str(s) => if text_is(s, "text") {
                Ok(ContentType::text)
            } else if text_is(s, "image_url") {
                Ok(ContentType::image_url)
            } else {
                Err(DecodeError::new(ErrorKind::UnknownVariant, Wanted::Tag, Found::Text))
            },
            _ => Err(DecodeError::new(ErrorKind::TypeMismatch, Wanted::Text, json.found())),
        }
    }

    proof fn lemma_round_trip(v: ContentType) {
        reveal_strlit("text");
        reveal_strlit("image_url");
        assert("text"@.len() == 4);
        assert("image_url"@.len() == 9);
    }
}

/// A content block as a record: its kind, and the text or the image that goes
/// with the kind.
#[derive(Debug, Clone, PartialEq, Eq)]
pub struct ImageUrl {
    /// Written as the member `type`.
    pub kind: ContentType,
    pub text: Option<String>,
    pub image_url: Option<ImageUrlType>,
}

/// The mathematical value of a [`ImageUrl`].
pub struct ImageUrlModel {
    pub kind: ContentType,
    pub text: Option<Seq<char>>,
    pub image_url: Option<ImageUrlTypeModel>,
}

impl DeepView for ImageUrl {
    type V = ImageUrlModel;

    open spec fn deep_view(&self) -> ImageUrlModel {
        ImageUrlModel {
            kind: self.kind.deep_view(),
            text: self.text.deep_view(),
            image_url: self.image_url.deep_view(),
        }
    }
}

/// The members a [`ImageUrl`] is written with: `type` and those of `text` and
/// `image_url` that are set, in this order.
pub open spec fn image_url_members(v: ImageUrlModel) -> Members {
    let m = Seq::<(Seq<char>, Doc)>::empty();
    let m = with::<ContentType>(m, "type"@, v.kind);
    let m = with_some::<String>(m, "text"@, v.text);
    let m = with_some::<ImageUrlType>(m, "image_url"@, v.image_url);
    m
}

/// The place of a name among the members of a [`ImageUrl`]; -1 for a name that
/// is none of them.
pub open spec fn image_url_place(key: Seq<char>) -> int {
    if key == "type"@ {
        0
    } else if key == "text"@ {
        1
    } else if key == "image_url"@ {
        2
    } else {
        -1
    }
}

/// What is found under each name among the members of a [`ImageUrl`].
pub proof fn lemma_image_url_lookups(v: ImageUrlModel)
    ensures
        lookup(image_url_members(v), "type"@) == Some(ContentType::encoded(v.kind)),
        lookup(image_url_members(v), "text"@) == encoded_some::<String>(v.text),
        lookup(image_url_members(v), "image_url"@) == encoded_some::<ImageUrlType>(v.image_url),
{
    reveal_strlit("type");
    reveal_strlit("text");
    reveal_strlit("image_url");
    assert("type"@.len() == 4);
    assert("type"@[1] == 'y');
    assert("text"@.len() == 4);
    assert("text"@[1] == 'e');
    assert("image_url"@.len() == 9);
    assert(image_url_place("type"@) == 0);
    assert(image_url_place("text"@) == 1);
    assert(image_url_place("image_url"@) == 2);
    let place = |key: Seq<char>| image_url_place(key);
    let m = Seq::<(Seq<char>, Doc)>::empty();
    assert(forall|key: Seq<char>| lookup(m, key) is None);
    let longer = with::<ContentType>(m, "type"@, v.kind);
    lemma_layer(m, longer, "type"@, place, 0);
    let m = longer;
    let longer = with_some::<String>(m, "text"@, v.text);
    lemma_layer(m, longer, "text"@, place, 1);
    let m = longer;
    let longer = with_some::<ImageUrlType>(m, "image_url"@, v.image_url);
    lemma_layer(m, longer, "image_url"@, place, 2);
}

impl Wire for ImageUrl {
    /// An object with the members that [`image_url_members`] gives.
    open spec fn encoded(v: ImageUrlModel) -> Doc {
        Doc::Object(image_url_members(v))
    }

    /// The document has to be an object. Members are found by name, the first
    /// of a name counting; where several are at fault, the failure is that of
    /// the first in the order of the fields.
    open spec fn decoded(d: Doc) -> Result<ImageUrlModel, Failure> {
        match object_members(d) {
            Err(e) => Err(e),
            Ok(m) => {
                let kind = required::<ContentType>(m, "type"@);
                let text = optional::<String>(m, "text"@);
                let image_url = optional::<ImageUrlType>(m, "image_url"@);
                if kind is Err {
                    Err(kind->Err_0)
                } else if text is Err {
                    Err(text->Err_0)
                } else if image_url is Err {
                    Err(image_url->Err_0)
                } else {
                    Ok(
                        ImageUrlModel {
                            kind: kind->Ok_0,
                            text: text->Ok_0,
                            image_url: image_url->Ok_0,
                        },
                    )
                }
            },
        }
    }

    open spec fn faithful(v: ImageUrlModel) -> bool {
        true
    }

    fn serialize(&self) -> (r: Json) {
        let mut members: Vec<(String, Json)> = Vec::new();
        put(&mut members, "type", &self.kind);
        put_some(&mut members, "text", &self.text);
        put_some(&mut members, "image_url", &self.image_url);
        Json::Object(members)
    }

    fn deserialize(json: &Json) -> (r: Result<Self, DecodeError>) {
        let members = members_of(json)?;
        let kind = get_required::<ContentType>(members, "type")?;
        let text = get_optional::<String>(members, "text")?;
        let image_url = get_optional::<ImageUrlType>(members, "image_url")?;
        Ok(ImageUrl { kind, text, image_url })
    }

    proof fn lemma_round_trip(v: ImageUrlModel) {
        lemma_image_url_lookups(v);
        ContentType::lemma_round_trip(v.kind);
        if let Some(x) = v.image_url {
            ImageUrlType::lemma_round_trip(x);
        }
        let m = image_url_members(v);
        assert(required::<ContentType>(m, "type"@) == Ok::<ContentType, Failure>(v.kind));
        assert(optional::<String>(m, "text"@) == Ok::<Option<Seq<char>>, Failure>(v.text));
        assert(optional::<ImageUrlType>(m, "image_url"@) == Ok::<
            Option<ImageUrlTypeModel>,
            Failure,
        >(v.image_url));
    }
}

} // verus!
