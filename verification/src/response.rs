//! What comes back: the choices the model made, and what they cost.
use vstd::prelude::*;
use crate::codec::{
    encoded_nullable, get_optional, get_required, lemma_layer, members_of, object_members, optional,
    put, put_nullable, required, text_is, with, with_nullable, Members, Wire,
};
use crate::error::{fail, DecodeError, ErrorKind, Failure, Found, Wanted};
use crate::json::{found_of, lookup, Doc, Json};
use crate::message::{ChatCompletionMessageForResponse, ChatCompletionMessageForResponseModel};

verus! {

/// Why the model stopped. `null` is a tag of its own, written as the string
/// `null`: it is not the absence of a reason.
#[derive(Debug, Clone, Copy, PartialEq, Eq, Structural)]
#[allow(non_camel_case_types)]
pub enum FinishReason {
    stop,
    length,
    content_filter,
    tool_calls,
    null,
}

impl DeepView for FinishReason {
    type V = FinishReason;

    open spec fn deep_view(&self) -> FinishReason {
        *self
    }
}

/// The tag a [`FinishReason`] is written as.
pub open spec fn finish_reason_tag(v: FinishReason) -> Seq<char> {
    match v {
        FinishReason::stop => "stop"@,
        FinishReason::length => "length"@,
        FinishReason::content_filter => "content_filter"@,
        FinishReason::tool_calls => "tool_calls"@,
        FinishReason::null => "null"@,
    }
}

impl Wire for FinishReason {
    /// A string: the tag.
    open spec fn encoded(v: FinishReason) -> Doc {
        Doc::Str(finish_reason_tag(v))
    }

    /// A string that is one of the tags, letter for letter.
    open spec fn decoded(d: Doc) -> Result<FinishReason, Failure> {
        match d {
            Doc::Str(s) => if s == "stop"@ {
                Ok(FinishReason::stop)
            } else if s == "length"@ {
                Ok(FinishReason::length)
            } else if s == "content_filter"@ {
                Ok(FinishReason::content_filter)
            } else if s == "tool_calls"@ {
                Ok(FinishReason::tool_calls)
            } else if s == "null"@ {
                Ok(FinishReason::null)
            } else {
                Err(fail(ErrorKind::UnknownVariant, Wanted::Tag, Found::Text))
            },
            _ => Err(fail(ErrorKind::TypeMismatch, Wanted::Text, found_of(d))),
        }
    }

    open spec fn faithful(v: FinishReason) -> bool {
        true
    }

    fn serialize(&self) -> (r: Json) {
        let tag = match self {
            FinishReason::stop => "stop",
            FinishReason::length => "length",
            FinishReason::content_filter => "content_filter",
            FinishReason::tool_calls => "tool_calls",
            FinishReason::null => "null",
        };
        Json::Str(String::from_str(tag))
    }

    fn deserialize(json: &Json) -> (r: Result<Self, DecodeError>) {
        match json {
            Json::Str(s) => if text_is(s, "stop") {
                Ok(FinishReason::stop)
            } else if text_is(s, "length") {
                Ok(FinishReason::length)
            } else if text_is(s, "content_filter") {
                Ok(FinishReason::content_filter)
            } else if text_is(s, "tool_calls") {
                Ok(FinishReason::tool_calls)
            } else if text_is(s, "null") {
                Ok(FinishReason::null)
            } else {
                Err(DecodeError::new(ErrorKind::UnknownVariant, Wanted::Tag, Found::Text))
            },
            _ => Err(DecodeError::new(ErrorKind::TypeMismatch, Wanted::Text, json.found())),
        }
    }

    proof fn lemma_round_trip(v: FinishReason) {
        reveal_strlit("stop");
        reveal_strlit("length");
        reveal_strlit("content_filter");
        reveal_strlit("tool_calls");
        reveal_strlit("null");
        assert("stop"@.len() == 4);
        assert("stop"@[0] == 's');
        assert("length"@.len() == 6);
        assert("content_filter"@.len() == 14);
        assert("tool_calls"@.len() == 10);
        assert("null"@.len() == 4);
        assert("null"@[0] == 'n');
    }
}

/// More on why the model stopped.
#[derive(Debug, Clone, PartialEq, Eq)]
pub struct FinishDetails {
    /// Written as the member `type`.
    pub kind: FinishReason,
    pub stop: String,
}

/// The mathematical value of a [`FinishDetails`].
pub struct FinishDetailsModel {
    pub kind: FinishReason,
    pub stop: Seq<char>,
}

impl DeepView for FinishDetails {
    type V = FinishDetailsModel;

    open spec fn deep_view(&self) -> FinishDetailsModel {
        FinishDetailsModel {
            kind: self.kind.deep_view(),
            stop: self.stop.deep_view(),
        }
    }
}

/// The members a [`FinishDetails`] is written with: `type` and `stop`, in this
/// order.
pub open spec fn finish_details_members(v: FinishDetailsModel) -> Members {
    let m = Seq::<(Seq<char>, Doc)>::empty();
    let m = with::<FinishReason>(m, "type"@, v.kind);
    let m = with::<String>(m, "stop"@, v.stop);
    m
}

/// The place of a name among the members of a [`FinishDetails`]; -1 for a name
/// that is none of them.
pub open spec fn finish_details_place(key: Seq<char>) -> int {
    if key == "type"@ {
        0
    } else if key == "stop"@ {
        1
    } else {
        -1
    }
}

/// What is found under each name among the members of a [`FinishDetails`].
pub proof fn lemma_finish_details_lookups(v: FinishDetailsModel)
    ensures
        lookup(finish_details_members(v), "type"@) == Some(FinishReason::encoded(v.kind)),
        lookup(finish_details_members(v), "stop"@) == Some(String::encoded(v.stop)),
{
    reveal_strlit("type");
    reveal_strlit("stop");
    assert("type"@.len() == 4);
    assert("type"@[0] == 't');
    assert("stop"@.len() == 4);
    assert("stop"@[0] == 's');
    assert(finish_details_place("type"@) == 0);
    assert(finish_details_place("stop"@) == 1);
    let place = |key: Seq<char>| finish_details_place(key);
    let m = Seq::<(Seq<char>, Doc)>::empty();
    assert(forall|key: Seq<char>| lookup(m, key) is None);
    let longer = with::<FinishReason>(m, "type"@, v.kind);
    lemma_layer(m, longer, "type"@, place, 0);
    let m = longer;
    let longer = with::<String>(m, "stop"@, v.stop);
    lemma_layer(m, longer, "stop"@, place, 1);
}

impl Wire for FinishDetails {
    /// An object with the members that [`finish_details_members`] gives.
    open spec fn encoded(v: FinishDetailsModel) -> Doc {
        Doc::Object(finish_details_members(v))
    }

    /// The document has to be an object. Members are found by name, the first
    /// of a name counting; where several are at fault, the failure is that of
    /// the first in the order of the fields.
    open spec fn decoded(d: Doc) -> Result<FinishDetailsModel, Failure> {
        match object_members(d) {
            Err(e) => Err(e),
            Ok(m) => {
                let kind = required::<FinishReason>(m, "type"@);
                let stop = required::<String>(m, "stop"@);
                if kind is Err {
                    Err(kind->Err_0)
                } else if stop is Err {
                    Err(stop->Err_0)
                } else {
                    Ok(
                        FinishDetailsModel {
                            kind: kind->Ok_0,
                            stop: stop->Ok_0,
                        },
                    )
                }
            },
        }
    }

    open spec fn faithful(v: FinishDetailsModel) -> bool {
        true
    }

    fn serialize(&self) -> (r: Json) {
        let mut members: Vec<(String, Json)> = Vec::new();
        put(&mut members, "type", &self.kind);
        put(&mut members, "stop", &self.stop);
        Json::Object(members)
    }

    fn deserialize(json: &Json) -> (r: Result<Self, DecodeError>) {
        let members = members_of(json)?;
        let kind = get_required::<FinishReason>(members, "type")?;
        let stop = get_required::<String>(members, "stop")?;
        Ok(FinishDetails { kind, stop })
    }

    proof fn lemma_round_trip(v: FinishDetailsModel) {
        lemma_finish_details_lookups(v);
        FinishReason::lemma_round_trip(v.kind);
        let m = finish_details_members(v);
        assert(required::<FinishReason>(m, "type"@) == Ok::<FinishReason, Failure>(v.kind));
        assert(required::<String>(m, "stop"@) == Ok::<Seq<char>, Failure>(v.stop));
    }
}

/// How many tokens a request took.
#[derive(Debug, Clone, PartialEq, Eq)]
pub struct Usage {
    pub prompt_tokens: i32,
    pub completion_tokens: i32,
    pub total_tokens: i32,
}

/// The mathematical value of a [`Usage`].
pub struct UsageModel {
    pub prompt_tokens: i32,
    pub completion_tokens: i32,
    pub total_tokens: i32,
}

impl DeepView for Usage {
    type V = UsageModel;

    open spec fn deep_view(&self) -> UsageModel {
        UsageModel {
            prompt_tokens: self.prompt_tokens.deep_view(),
            completion_tokens: self.completion_tokens.deep_view(),
            total_tokens: self.total_tokens.deep_view(),
        }
    }
}

/// The members a [`Usage`] is written with: `prompt_tokens`,
/// `completion_tokens` and `total_tokens`, in this order.
pub open spec fn usage_members(v: UsageModel) -> Members {
    let m = Seq::<(Seq<char>, Doc)>::empty();
    let m = with::<i32>(m, "prompt_tokens"@, v.prompt_tokens);
    let m = with::<i32>(m, "completion_tokens"@, v.completion_tokens);
    let m = with::<i32>(m, "total_tokens"@, v.total_tokens);
    m
}

/// The place of a name among the members of a [`Usage`]; -1 for a name that is
/// none of them.
pub open spec fn usage_place(key: Seq<char>) -> int {
    if key == "prompt_tokens"@ {
        0
    } else if key == "completion_tokens"@ {
        1
    } else if key == "total_tokens"@ {
        2
    } else {
        -1
    }
}

/// What is found under each name among the members of a [`Usage`].
pub proof fn lemma_usage_lookups(v: UsageModel)
    ensures
        lookup(usage_members(v), "prompt_tokens"@) == Some(i32::encoded(v.prompt_tokens)),
        lookup(usage_members(v), "completion_tokens"@) == Some(i32::encoded(v.completion_tokens)),
        lookup(usage_members(v), "total_tokens"@) == Some(i32::encoded(v.total_tokens)),
{
    reveal_strlit("prompt_tokens");
    reveal_strlit("completion_tokens");
    reveal_strlit("total_tokens");
    assert("prompt_tokens"@.len() == 13);
    assert("completion_tokens"@.len() == 17);
    assert("total_tokens"@.len() == 12);
    assert(usage_place("prompt_tokens"@) == 0);
    assert(usage_place("completion_tokens"@) == 1);
    assert(usage_place("total_tokens"@) == 2);
    let place = |key: Seq<char>| usage_place(key);
    let m = Seq::<(Seq<char>, Doc)>::empty();
    assert(forall|key: Seq<char>| lookup(m, key) is None);
    let longer = with::<i32>(m, "prompt_tokens"@, v.prompt_tokens);
    lemma_layer(m, longer, "prompt_tokens"@, place, 0);
    let m = longer;
    let longer = with::<i32>(m, "completion_tokens"@, v.completion_tokens);
    lemma_layer(m, longer, "completion_tokens"@, place, 1);
    let m = longer;
    let longer = with::<i32>(m, "total_tokens"@, v.total_tokens);
    lemma_layer(m, longer, "total_tokens"@, place, 2);
}

impl Wire for Usage {
    /// An object with the members that [`usage_members`] gives.
    open spec fn encoded(v: UsageModel) -> Doc {
        Doc::Object(usage_members(v))
    }

    /// The document has to be an object. Members are found by name, the first
    /// of a name counting; where several are at fault, the failure is that of
    /// the first in the order of the fields.
    open spec fn decoded(d: Doc) -> Result<UsageModel, Failure> {
        match object_members(d) {
            Err(e) => Err(e),
            Ok(m) => {
                let prompt_tokens = required::<i32>(m, "prompt_tokens"@);
                let completion_tokens = required::<i32>(m, "completion_tokens"@);
                let total_tokens = required::<i32>(m, "total_tokens"@);
                if prompt_tokens is Err {
                    Err(prompt_tokens->Err_0)
                } else if completion_tokens is Err {
                    Err(completion_tokens->Err_0)
                } else if total_tokens is Err {
                    Err(total_tokens->Err_0)
                } else {
                    Ok(
                        UsageModel {
                            prompt_tokens: prompt_tokens->Ok_0,
                            completion_tokens: completion_tokens->Ok_0,
                            total_tokens: total_tokens->Ok_0,
                        },
                    )
                }
            },
        }
    }

    open spec fn faithful(v: UsageModel) -> bool {
        true
    }

    fn serialize(&self) -> (r: Json) {
        let mut members: Vec<(String, Json)> = Vec::new();
        put(&mut members, "prompt_tokens", &self.prompt_tokens);
        put(&mut members, "completion_tokens", &self.completion_tokens);
        put(&mut members, "total_tokens", &self.total_tokens);
        Json::Object(members)
    }

    fn deserialize(json: &Json) -> (r: Result<Self, DecodeError>) {
        let members = members_of(json)?;
        let prompt_tokens = get_required::<i32>(members, "prompt_tokens")?;
        let completion_tokens = get_required::<i32>(members, "completion_tokens")?;
        let total_tokens = get_required::<i32>(members, "total_tokens")?;
        Ok(Usage { prompt_tokens, completion_tokens, total_tokens })
    }

    proof fn lemma_round_trip(v: UsageModel) {
        lemma_usage_lookups(v);
        let m = usage_members(v);
        assert(required::<i32>(m, "prompt_tokens"@) == Ok::<i32, Failure>(v.prompt_tokens));
        assert(required::<i32>(m, "completion_tokens"@) == Ok::<i32, Failure>(v.completion_tokens));
        assert(required::<i32>(m, "total_tokens"@) == Ok::<i32, Failure>(v.total_tokens));
    }
}

/// One answer of the model.
#[derive(Debug, Clone, PartialEq, Eq)]
pub struct ChatCompletionChoice {
    pub index: i64,
    pub message: ChatCompletionMessageForResponse,
    pub finish_reason: Option<FinishReason>,
    pub finish_details: Option<FinishDetails>,
}

/// The mathematical value of a [`ChatCompletionChoice`].
pub struct ChatCompletionChoiceModel {
    pub index: i64,
    pub message: ChatCompletionMessageForResponseModel,
    pub finish_reason: Option<FinishReason>,
    pub finish_details: Option<FinishDetailsModel>,
}

impl DeepView for ChatCompletionChoice {
    type V = ChatCompletionChoiceModel;

    open spec fn deep_view(&self) -> ChatCompletionChoiceModel {
        ChatCompletionChoiceModel {
            index: self.index.deep_view(),
            message: self.message.deep_view(),
            finish_reason: self.finish_reason.deep_view(),
            finish_details: self.finish_details.deep_view(),
        }
    }
}

/// The members a [`ChatCompletionChoice`] is written with: `index`, `message`,
/// `finish_reason` and `finish_details`, in this order; the last two are `null`
/// where they are not set.
pub open spec fn choice_members(v: ChatCompletionChoiceModel) -> Members {
    let m = Seq::<(Seq<char>, Doc)>::empty();
    let m = with::<i64>(m, "index"@, v.index);
    let m = with::<ChatCompletionMessageForResponse>(m, "message"@, v.message);
    let m = with_nullable::<FinishReason>(m, "finish_reason"@, v.finish_reason);
    let m = with_nullable::<FinishDetails>(m, "finish_details"@, v.finish_details);
    m
}

/// The place of a name among the members of a [`ChatCompletionChoice`]; -1 for
/// a name that is none of them.
pub open spec fn choice_place(key: Seq<char>) -> int {
    if key == "index"@ {
        0
    } else if key == "message"@ {
        1
    } else if key == "finish_reason"@ {
        2
    } else if key == "finish_details"@ {
        3
    } else {
        -1
    }
}

/// What is found under each name among the members of a [`ChatCompletionChoice`].
pub proof fn lemma_choice_lookups(v: ChatCompletionChoiceModel)
    ensures
        lookup(choice_members(v), "index"@) == Some(i64::encoded(v.index)),
        lookup(choice_members(v), "message"@) == Some(
            ChatCompletionMessageForResponse::encoded(v.message),
        ),
        lookup(choice_members(v), "finish_reason"@) == Some(
            encoded_nullable::<FinishReason>(v.finish_reason),
        ),
        lookup(choice_members(v), "finish_details"@) == Some(
            encoded_nullable::<FinishDetails>(v.finish_details),
        ),
{
    reveal_strlit("index");
    reveal_strlit("message");
    reveal_strlit("finish_reason");
    reveal_strlit("finish_details");
    assert("index"@.len() == 5);
    assert("message"@.len() == 7);
    assert("finish_reason"@.len() == 13);
    assert("finish_details"@.len() == 14);
    assert(choice_place("index"@) == 0);
    assert(choice_place("message"@) == 1);
    assert(choice_place("finish_reason"@) == 2);
    assert(choice_place("finish_details"@) == 3);
    let place = |key: Seq<char>| choice_place(key);
    let m = Seq::<(Seq<char>, Doc)>::empty();
    assert(forall|key: Seq<char>| lookup(m, key) is None);
    let longer = with::<i64>(m, "index"@, v.index);
    lemma_layer(m, longer, "index"@, place, 0);
    let m = longer;
    let longer = with::<ChatCompletionMessageForResponse>(m, "message"@, v.message);
    lemma_layer(m, longer, "message"@, place, 1);
    let m = longer;
    let longer = with_nullable::<FinishReason>(m, "finish_reason"@, v.finish_reason);
    lemma_layer(m, longer, "finish_reason"@, place, 2);
    let m = longer;
    let longer = with_nullable::<FinishDetails>(m, "finish_details"@, v.finish_details);
    lemma_layer(m, longer, "finish_details"@, place, 3);
}

impl Wire for ChatCompletionChoice {
    /// An object with the members that [`choice_members`] gives.
    open spec fn encoded(v: ChatCompletionChoiceModel) -> Doc {
        Doc::Object(choice_members(v))
    }

    /// The document has to be an object. Members are found by name, the first
    /// of a name counting; where several are at fault, the failure is that of
    /// the first in the order of the fields.
    open spec fn decoded(d: Doc) -> Result<ChatCompletionChoiceModel, Failure> {
        match object_members(d) {
            Err(e) => Err(e),
            Ok(m) => {
                let index = required::<i64>(m, "index"@);
                let message = required::<ChatCompletionMessageForResponse>(m, "message"@);
                let finish_reason = optional::<FinishReason>(m, "finish_reason"@);
                let finish_details = optional::<FinishDetails>(m, "finish_details"@);
                if index is Err {
                    Err(index->Err_0)
                } else if message is Err {
                    Err(message->Err_0)
                } else if finish_reason is Err {
                    Err(finish_reason->Err_0)
                } else if finish_details is Err {
                    Err(finish_details->Err_0)
                } else {
                    Ok(
                        ChatCompletionChoiceModel {
                            index: index->Ok_0,
                            message: message->Ok_0,
                            finish_reason: finish_reason->Ok_0,
                            finish_details: finish_details->Ok_0,
                        },
                    )
                }
            },
        }
    }

    open spec fn faithful(v: ChatCompletionChoiceModel) -> bool {
        true
    }

    fn serialize(&self) -> (r: Json) {
        let mut members: Vec<(String, Json)> = Vec::new();
        put(&mut members, "index", &self.index);
        put(&mut members, "message", &self.message);
        put_nullable(&mut members, "finish_reason", &self.finish_reason);
        put_nullable(&mut members, "finish_details", &self.finish_details);
        Json::Object(members)
    }

    fn deserialize(json: &Json) -> (r: Result<Self, DecodeError>) {
        let members = members_of(json)?;
        let index = get_required::<i64>(members, "index")?;
        let message = get_required::<ChatCompletionMessageForResponse>(members, "message")?;
        let finish_reason = get_optional::<FinishReason>(members, "finish_reason")?;
        let finish_details = get_optional::<FinishDetails>(members, "finish_details")?;
        Ok(ChatCompletionChoice { index, message, finish_reason, finish_details })
    }

    proof fn lemma_round_trip(v: ChatCompletionChoiceModel) {
        lemma_choice_lookups(v);
        ChatCompletionMessageForResponse::lemma_round_trip(v.message);
        if let Some(x) = v.finish_reason {
            FinishReason::lemma_round_trip(x);
        }
        if let Some(x) = v.finish_details {
            FinishDetails::lemma_round_trip(x);
        }
        let m = choice_members(v);
        assert(required::<i64>(m, "index"@) == Ok::<i64, Failure>(v.index));
        assert(required::<ChatCompletionMessageForResponse>(m, "message"@) == Ok::<
            ChatCompletionMessageForResponseModel,
            Failure,
        >(v.message));
        assert(optional::<FinishReason>(m, "finish_reason"@) == Ok::<Option<FinishReason>, Failure>(
            v.finish_reason,
        ));
        assert(optional::<FinishDetails>(m, "finish_details"@) == Ok::<
            Option<FinishDetailsModel>,
            Failure,
        >(v.finish_details));
    }
}

/// The response to a request.
#[derive(Debug, Clone, PartialEq, Eq)]
pub struct ChatCompletionResponse {
    pub id: String,
    pub model: String,
    /// In the order the model gave them.
    pub choices: Vec<ChatCompletionChoice>,
    pub usage: Usage,
    pub system_fingerprint: Option<String>,
}

/// The mathematical value of a [`ChatCompletionResponse`].
pub struct ChatCompletionResponseModel {
    pub id: Seq<char>,
    pub model: Seq<char>,
    pub choices: Seq<ChatCompletionChoiceModel>,
    pub usage: UsageModel,
    pub system_fingerprint: Option<Seq<char>>,
}

impl DeepView for ChatCompletionResponse {
    type V = ChatCompletionResponseModel;

    open spec fn deep_view(&self) -> ChatCompletionResponseModel {
        ChatCompletionResponseModel {
            id: self.id.deep_view(),
            model: self.model.deep_view(),
            choices: self.choices.deep_view(),
            usage: self.usage.deep_view(),
            system_fingerprint: self.system_fingerprint.deep_view(),
        }
    }
}

/// The members a [`ChatCompletionResponse`] is written with: `id`, `model`,
/// `choices`, `usage` and `system_fingerprint`, in this order; the last is
/// `null` where it is not set.
pub open spec fn response_members(v: ChatCompletionResponseModel) -> Members {
    let m = Seq::<(Seq<char>, Doc)>::empty();
    let m = with::<String>(m, "id"@, v.id);
    let m = with::<String>(m, "model"@, v.model);
    let m = with::<Vec<ChatCompletionChoice>>(m, "choices"@, v.choices);
    let m = with::<Usage>(m, "usage"@, v.usage);
    let m = with_nullable::<String>(m, "system_fingerprint"@, v.system_fingerprint);
    m
}

/// The place of a name among the members of a [`ChatCompletionResponse`]; -1
/// for a name that is none of them.
pub open spec fn response_place(key: Seq<char>) -> int {
    if key == "id"@ {
        0
    } else if key == "model"@ {
        1
    } else if key == "choices"@ {
        2
    } else if key == "usage"@ {
        3
    } else if key == "system_fingerprint"@ {
        4
    } else {
        -1
    }
}

/// What is found under each name among the members of a [`ChatCompletionResponse`].
pub proof fn lemma_response_lookups(v: ChatCompletionResponseModel)
    ensures
        lookup(response_members(v), "id"@) == Some(String::encoded(v.id)),
        lookup(response_members(v), "model"@) == Some(String::encoded(v.model)),
        lookup(response_members(v), "choices"@) == Some(
            Vec::<ChatCompletionChoice>::encoded(v.choices),
        ),
        lookup(response_members(v), "usage"@) == Some(Usage::encoded(v.usage)),
        lookup(response_members(v), "system_fingerprint"@) == Some(
            encoded_nullable::<String>(v.system_fingerprint),
        ),
{
    reveal_strlit("id");
    reveal_strlit("model");
    reveal_strlit("choices");
    reveal_strlit("usage");
    reveal_strlit("system_fingerprint");
    assert("id"@.len() == 2);
    assert("model"@.len() == 5);
    assert("model"@[0] == 'm');
    assert("choices"@.len() == 7);
    assert("usage"@.len() == 5);
    assert("usage"@[0] == 'u');
    assert("system_fingerprint"@.len() == 18);
    assert(response_place("id"@) == 0);
    assert(response_place("model"@) == 1);
    assert(response_place("choices"@) == 2);
    assert(response_place("usage"@) == 3);
    assert(response_place("system_fingerprint"@) == 4);
    let place = |key: Seq<char>| response_place(key);
    let m = Seq::<(Seq<char>, Doc)>::empty();
    assert(forall|key: Seq<char>| lookup(m, key) is None);
    let longer = with::<String>(m, "id"@, v.id);
    lemma_layer(m, longer, "id"@, place, 0);
    let m = longer;
    let longer = with::<String>(m, "model"@, v.model);
    lemma_layer(m, longer, "model"@, place, 1);
    let m = longer;
    let longer = with::<Vec<ChatCompletionChoice>>(m, "choices"@, v.choices);
    lemma_layer(m, longer, "choices"@, place, 2);
    let m = longer;
    let longer = with::<Usage>(m, "usage"@, v.usage);
    lemma_layer(m, longer, "usage"@, place, 3);
    let m = longer;
    let longer = with_nullable::<String>(m, "system_fingerprint"@, v.system_fingerprint);
    lemma_layer(m, longer, "system_fingerprint"@, place, 4);
}

impl Wire for ChatCompletionResponse {
    /// An object with the members that [`response_members`] gives.
    open spec fn encoded(v: ChatCompletionResponseModel) -> Doc {
        Doc::Object(response_members(v))
    }

    /// The document has to be an object. Members are found by name, the first
    /// of a name counting; where several are at fault, the failure is that of
    /// the first in the order of the fields.
    open spec fn decoded(d: Doc) -> Result<ChatCompletionResponseModel, Failure> {
        match object_members(d) {
            Err(e) => Err(e),
            Ok(m) => {
                let id = required::<String>(m, "id"@);
                let model = required::<String>(m, "model"@);
                let choices = required::<Vec<ChatCompletionChoice>>(m, "choices"@);
                let usage = required::<Usage>(m, "usage"@);
                let system_fingerprint = optional::<String>(m, "system_fingerprint"@);
                if id is Err {
                    Err(id->Err_0)
                } else if model is Err {
                    Err(model->Err_0)
                } else if choices is Err {
                    Err(choices->Err_0)
                } else if usage is Err {
                    Err(usage->Err_0)
                } else if system_fingerprint is Err {
                    Err(system_fingerprint->Err_0)
                } else {
                    Ok(
                        ChatCompletionResponseModel {
                            id: id->Ok_0,
                            model: model->Ok_0,
                            choices: choices->Ok_0,
                            usage: usage->Ok_0,
                            system_fingerprint: system_fingerprint->Ok_0,
                        },
                    )
                }
            },
        }
    }

    open spec fn faithful(v: ChatCompletionResponseModel) -> bool {
        true
    }

    fn serialize(&self) -> (r: Json) {
        let mut members: Vec<(String, Json)> = Vec::new();
        put(&mut members, "id", &self.id);
        put(&mut members, "model", &self.model);
        put(&mut members, "choices", &self.choices);
        put(&mut members, "usage", &self.usage);
        put_nullable(&mut members, "system_fingerprint", &self.system_fingerprint);
        Json::Object(members)
    }

    fn deserialize(json: &Json) -> (r: Result<Self, DecodeError>) {
        let members = members_of(json)?;
        let id = get_required::<String>(members, "id")?;
        let model = get_required::<String>(members, "model")?;
        let choices = get_required::<Vec<ChatCompletionChoice>>(members, "choices")?;
        let usage = get_required::<Usage>(members, "usage")?;
        let system_fingerprint = get_optional::<String>(members, "system_fingerprint")?;
        Ok(ChatCompletionResponse { id, model, choices, usage, system_fingerprint })
    }

    proof fn lemma_round_trip(v: ChatCompletionResponseModel) {
        lemma_response_lookups(v);
        Vec::<ChatCompletionChoice>::lemma_round_trip(v.choices);
        Usage::lemma_round_trip(v.usage);
        let m = response_members(v);
        assert(required::<String>(m, "id"@) == Ok::<Seq<char>, Failure>(v.id));
        assert(required::<String>(m, "model"@) == Ok::<Seq<char>, Failure>(v.model));
        assert(required::<Vec<ChatCompletionChoice>>(m, "choices"@) == Ok::<
            Seq<ChatCompletionChoiceModel>,
            Failure,
        >(v.choices));
        assert(required::<Usage>(m, "usage"@) == Ok::<UsageModel, Failure>(v.usage));
        assert(optional::<String>(m, "system_fingerprint"@) == Ok::<Option<Seq<char>>, Failure>(
            v.system_fingerprint,
        ));
    }
}

} // verus!
