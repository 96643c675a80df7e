//! The messages of a conversation, as a request carries them and as a
//! response returns them.
use vstd::prelude::*;
use crate::codec::{
    encoded_nullable, encoded_some, get_optional, get_required, lemma_layer, members_of,
    object_members, optional, put, put_nullable, put_some, required, text_is, with, with_nullable,
    with_some, Members, Wire,
};
use crate::content::{Content, ContentModel};
use crate::error::{fail, DecodeError, ErrorKind, Failure, Found, Wanted};
use crate::json::{found_of, lookup, Doc, Json};
use crate::tool::{ToolCall, ToolCallFunction, ToolCallFunctionModel, ToolCallModel};

verus! {

/// Who a message is from.
#[derive(Debug, Clone, Copy, PartialEq, Eq, Structural)]
#[allow(non_camel_case_types)]
pub enum MessageRole {
    user,
    system,
    assistant,
    function,
    tool,
}

impl DeepView for MessageRole {
    type V = MessageRole;

    open spec fn deep_view(&self) -> MessageRole {
        *self
    }
}

/// The tag a [`MessageRole`] is written as.
pub open spec fn message_role_tag(v: MessageRole) -> Seq<char> {
    match v {
        MessageRole::user => "user"@,
        MessageRole::system => "system"@,
        MessageRole::assistant => "assistant"@,
        MessageRole::function => "function"@,
        MessageRole::tool => "tool"@,
    }
}

impl Wire for MessageRole {
    /// A string: the tag.
    open spec fn encoded(v: MessageRole) -> Doc {
        Doc::Str(message_role_tag(v))
    }

    /// A string that is one of the tags, letter for letter.
    open spec fn decoded(d: Doc) -> Result<MessageRole, Failure> {
        match d {
            Doc::Str(s) => if s == "user"@ {
                Ok(MessageRole::user)
            } else if s == "system"@ {
                Ok(MessageRole::system)
            } else if s == "assistant"@ {
                Ok(MessageRole::assistant)
            } else if s == "function"@ {
                Ok(MessageRole::function)
            } else if s == "tool"@ {
                Ok(MessageRole::tool)
            } else {
                Err(fail(ErrorKind::UnknownVariant, Wanted::Tag, Found::Text))
            },
            _ => Err(fail(ErrorKind::TypeMismatch, Wanted::Text, found_of(d))),
        }
    }

    open spec fn faithful(v: MessageRole) -> bool {
        true
    }

    fn serialize(&self) -> (r: Json) {
        let tag = match self {
            MessageRole::user => "user",
            MessageRole::system => "system",
            MessageRole::assistant => "assistant",
            MessageRole::function => "function",
            MessageRole::tool => "tool",
        };
        Json::Str(String::from_str(tag))
    }

    fn deserialize(json: &Json) -> (r: Result<Self, DecodeError>) {
        match json {
            Json::Str(s) => if text_is(s, "user") {
                Ok(MessageRole::user)
            } else if text_is(s, "system") {
                Ok(MessageRole::system)
            } else if text_is(s, "assistant") {
                Ok(MessageRole::assistant)
            } else if text_is(s, "function") {
                Ok(MessageRole::function)
            } else if text_is(s, "tool") {
                Ok(MessageRole::tool)
            } else {
                Err(DecodeError::new(ErrorKind::UnknownVariant, Wanted::Tag, Found::Text))
            },
            _ => Err(DecodeError::new(ErrorKind::TypeMismatch, Wanted::Text, json.found())),
        }
    }

    proof fn lemma_round_trip(v: MessageRole) {
        reveal_strlit("user");
        reveal_strlit("system");
        reveal_strlit("assistant");
        reveal_strlit("function");
        reveal_strlit("tool");
        assert("user"@.len() == 4);
        assert("user"@[0] == 'u');
        assert("system"@.len() == 6);
        assert("assistant"@.len() == 9);
        assert("function"@.len() == 8);
        assert("tool"@.len() == 4);
        assert("tool"@[0] == 't');
    }
}

/// A message of the conversation that a request carries.
#[derive(Debug, Clone, PartialEq, Eq)]
pub struct ChatCompletionMessage {
    pub role: MessageRole,
    /// Written as `null` where there is none.
    pub content: Option<Content>,
    pub tool_calls: Option<Vec<ToolCall>>,
    pub tool_call_id: Option<String>,
}

/// The mathematical value of a [`ChatCompletionMessage`].
pub struct ChatCompletionMessageModel {
    pub role: MessageRole,
    pub content: Option<ContentModel>,
    pub tool_calls: Option<Seq<ToolCallModel>>,
    pub tool_call_id: Option<Seq<char>>,
}

impl DeepView for ChatCompletionMessage {
    type V = ChatCompletionMessageModel;

    open spec fn deep_view(&self) -> ChatCompletionMessageModel {
        ChatCompletionMessageModel {
            role: self.role.deep_view(),
            content: self.content.deep_view(),
            tool_calls: self.tool_calls.deep_view(),
            tool_call_id: self.tool_call_id.deep_view(),
        }
    }
}

/// The members a [`ChatCompletionMessage`] is written with: `role`, `content`
/// (`null` where there is none) and those of `tool_calls` and `tool_call_id`
/// that are set, in this order.
pub open spec fn message_members(v: ChatCompletionMessageModel) -> Members {
    let m = Seq::<(Seq<char>, Doc)>::empty();
    let m = with::<MessageRole>(m, "role"@, v.role);
    let m = with_nullable::<Content>(m, "content"@, v.content);
    let m = with_some::<Vec<ToolCall>>(m, "tool_calls"@, v.tool_calls);
    let m = with_some::<String>(m, "tool_call_id"@, v.tool_call_id);
    m
}

/// The place of a name among the members of a [`ChatCompletionMessage`]; -1 for
/// a name that is none of them.
pub open spec fn message_place(key: Seq<char>) -> int {
    if key == "role"@ {
        0
    } else if key == "content"@ {
        1
    } else if key == "tool_calls"@ {
        2
    } else if key == "tool_call_id"@ {
        3
    } else {
        -1
    }
}

/// What is found under each name among the members of a [`ChatCompletionMessage`].
pub proof fn lemma_message_lookups(v: ChatCompletionMessageModel)
    ensures
        lookup(message_members(v), "role"@) == Some(MessageRole::encoded(v.role)),
        lookup(message_members(v), "content"@) == Some(encoded_nullable::<Content>(v.content)),
        lookup(message_members(v), "tool_calls"@) == encoded_some::<Vec<ToolCall>>(v.tool_calls),
        lookup(message_members(v), "tool_call_id"@) == encoded_some::<String>(v.tool_call_id),
{
    reveal_strlit("role");
    reveal_strlit("content");
    reveal_strlit("tool_calls");
    reveal_strlit("tool_call_id");
    assert("role"@.len() == 4);
    assert("content"@.len() == 7);
    assert("tool_calls"@.len() == 10);
    assert("tool_call_id"@.len() == 12);
    assert(message_place("role"@) == 0);
    assert(message_place("content"@) == 1);
    assert(message_place("tool_calls"@) == 2);
    assert(message_place("tool_call_id"@) == 3);
    let place = |key: Seq<char>| message_place(key);
    let m = Seq::<(Seq<char>, Doc)>::empty();
    assert(forall|key: Seq<char>| lookup(m, key) is None);
    let longer = with::<MessageRole>(m, "role"@, v.role);
    lemma_layer(m, longer, "role"@, place, 0);
    let m = longer;
    let longer = with_nullable::<Content>(m, "content"@, v.content);
    lemma_layer(m, longer, "content"@, place, 1);
    let m = longer;
    let longer = with_some::<Vec<ToolCall>>(m, "tool_calls"@, v.tool_calls);
    lemma_layer(m, longer, "tool_calls"@, place, 2);
    let m = longer;
    let longer = with_some::<String>(m, "tool_call_id"@, v.tool_call_id);
    lemma_layer(m, longer, "tool_call_id"@, place, 3);
}

impl Wire for ChatCompletionMessage {
    /// An object with the members that [`message_members`] gives.
    open spec fn encoded(v: ChatCompletionMessageModel) -> Doc {
        Doc::Object(message_members(v))
    }

    /// The document has to be an object. Members are found by name, the first
    /// of a name counting; where several are at fault, the failure is that of
    /// the first in the order of the fields.
    open spec fn decoded(d: Doc) -> Result<ChatCompletionMessageModel, Failure> {
        match object_members(d) {
            Err(e) => Err(e),
            Ok(m) => {
                let role = required::<MessageRole>(m, "role"@);
                let content = optional::<Content>(m, "content"@);
                let tool_calls = optional::<Vec<ToolCall>>(m, "tool_calls"@);
                let tool_call_id = optional::<String>(m, "tool_call_id"@);
                if role is Err {
                    Err(role->Err_0)
                } else if content is Err {
                    Err(content->Err_0)
                } else if tool_calls is Err {
                    Err(tool_calls->Err_0)
                } else if tool_call_id is Err {
                    Err(tool_call_id->Err_0)
                } else {
                    Ok(
                        ChatCompletionMessageModel {
                            role: role->Ok_0,
                            content: content->Ok_0,
                            tool_calls: tool_calls->Ok_0,
                            tool_call_id: tool_call_id->Ok_0,
                        },
                    )
                }
            },
        }
    }

    open spec fn faithful(v: ChatCompletionMessageModel) -> bool {
        true
    }

    fn serialize(&self) -> (r: Json) {
        let mut members: Vec<(String, Json)> = Vec::new();
        put(&mut members, "role", &self.role);
        put_nullable(&mut members, "content", &self.content);
        put_some(&mut members, "tool_calls", &self.tool_calls);
        put_some(&mut members, "tool_call_id", &self.tool_call_id);
        Json::Object(members)
    }

    fn deserialize(json: &Json) -> (r: Result<Self, DecodeError>) {
        let members = members_of(json)?;
        let role = get_required::<MessageRole>(members, "role")?;
        let content = get_optional::<Content>(members, "content")?;
        let tool_calls = get_optional::<Vec<ToolCall>>(members, "tool_calls")?;
        let tool_call_id = get_optional::<String>(members, "tool_call_id")?;
        Ok(ChatCompletionMessage { role, content, tool_calls, tool_call_id })
    }

    proof fn lemma_round_trip(v: ChatCompletionMessageModel) {
        lemma_message_lookups(v);
        MessageRole::lemma_round_trip(v.role);
        if let Some(x) = v.content {
            Content::lemma_round_trip(x);
        }
        if let Some(x) = v.tool_calls {
            Vec::<ToolCall>::lemma_round_trip(x);
        }
        let m = message_members(v);
        assert(required::<MessageRole>(m, "role"@) == Ok::<MessageRole, Failure>(v.role));
        assert(optional::<Content>(m, "content"@) == Ok::<Option<ContentModel>, Failure>(
            v.content,
        ));
        assert(optional::<Vec<ToolCall>>(m, "tool_calls"@) == Ok::<
            Option<Seq<ToolCallModel>>,
            Failure,
        >(v.tool_calls));
        assert(optional::<String>(m, "tool_call_id"@) == Ok::<Option<Seq<char>>, Failure>(
            v.tool_call_id,
        ));
    }
}

/// The message that a choice of a response holds.
#[derive(Debug, Clone, PartialEq, Eq)]
pub struct ChatCompletionMessageForResponse {
    pub role: MessageRole,
    pub content: Option<String>,
    pub name: Option<String>,
    pub function_call: Option<ToolCallFunction>,
    pub tool_calls: Option<Vec<ToolCall>>,
}

/// The mathematical value of a [`ChatCompletionMessageForResponse`].
pub struct ChatCompletionMessageForResponseModel {
    pub role: MessageRole,
    pub content: Option<Seq<char>>,
    pub name: Option<Seq<char>>,
    pub function_call: Option<ToolCallFunctionModel>,
    pub tool_calls: Option<Seq<ToolCallModel>>,
}

impl DeepView for ChatCompletionMessageForResponse {
    type V = ChatCompletionMessageForResponseModel;

    open spec fn deep_view(&self) -> ChatCompletionMessageForResponseModel {
        ChatCompletionMessageForResponseModel {
            role: self.role.deep_view(),
            content: self.content.deep_view(),
            name: self.name.deep_view(),
            function_call: self.function_call.deep_view(),
            tool_calls: self.tool_calls.deep_view(),
        }
    }
}

/// The members a [`ChatCompletionMessageForResponse`] is written with: `role`
/// and those of `content`, `name`, `function_call` and `tool_calls` that are
/// set, in this order.
pub open spec fn response_message_members(v: ChatCompletionMessageForResponseModel) -> Members {
    let m = Seq::<(Seq<char>, Doc)>::empty();
    let m = with::<MessageRole>(m, "role"@, v.role);
    let m = with_some::<String>(m, "content"@, v.content);
    let m = with_some::<String>(m, "name"@, v.name);
    let m = with_some::<ToolCallFunction>(m, "function_call"@, v.function_call);
    let m = with_some::<Vec<ToolCall>>(m, "tool_calls"@, v.tool_calls);
    m
}

/// The place of a name among the members of a
/// [`ChatCompletionMessageForResponse`]; -1 for a name that is none of them.
pub open spec fn response_message_place(key: Seq<char>) -> int {
    if key == "role"@ {
        0
    } else if key == "content"@ {
        1
    } else if key == "name"@ {
        2
    } else if key == "function_call"@ {
        3
    } else if key == "tool_calls"@ {
        4
    } else {
        -1
    }
}

/// What is found under each name among the members of a [`ChatCompletionMessageForResponse`].
pub proof fn lemma_response_message_lookups(v: ChatCompletionMessageForResponseModel)
    ensures
        lookup(response_message_members(v), "role"@) == Some(MessageRole::encoded(v.role)),
        lookup(response_message_members(v), "content"@) == encoded_some::<String>(v.content),
        lookup(response_message_members(v), "name"@) == encoded_some::<String>(v.name),
        lookup(response_message_members(v), "function_call"@) == encoded_some::<ToolCallFunction>(
            v.function_call,
        ),
        lookup(response_message_members(v), "tool_calls"@) == encoded_some::<Vec<ToolCall>>(
            v.tool_calls,
        ),
{
    reveal_strlit("role");
    reveal_strlit("content");
    reveal_strlit("name");
    reveal_strlit("function_call");
    reveal_strlit("tool_calls");
    assert("role"@.len() == 4);
    assert("role"@[0] == 'r');
    assert("content"@.len() == 7);
    assert("name"@.len() == 4);
    assert("name"@[0] == 'n');
    assert("function_call"@.len() == 13);
    assert("tool_calls"@.len() == 10);
    assert(response_message_place("role"@) == 0);
    assert(response_message_place("content"@) == 1);
    assert(response_message_place("name"@) == 2);
    assert(response_message_place("function_call"@) == 3);
    assert(response_message_place("tool_calls"@) == 4);
    let place = |key: Seq<char>| response_message_place(key);
    let m = Seq::<(Seq<char>, Doc)>::empty();
    assert(forall|key: Seq<char>| lookup(m, key) is None);
    let longer = with::<MessageRole>(m, "role"@, v.role);
    lemma_layer(m, longer, "role"@, place, 0);
    let m = longer;
    let longer = with_some::<String>(m, "content"@, v.content);
    lemma_layer(m, longer, "content"@, place, 1);
    let m = longer;
    let longer = with_some::<String>(m, "name"@, v.name);
    lemma_layer(m, longer, "name"@, place, 2);
    let m = longer;
    let longer = with_some::<ToolCallFunction>(m, "function_call"@, v.function_call);
    lemma_layer(m, longer, "function_call"@, place, 3);
    let m = longer;
    let longer = with_some::<Vec<ToolCall>>(m, "tool_calls"@, v.tool_calls);
    lemma_layer(m, longer, "tool_calls"@, place, 4);
}

impl Wire for ChatCompletionMessageForResponse {
    /// An object with the members that [`response_message_members`] gives.
    open spec fn encoded(v: ChatCompletionMessageForResponseModel) -> Doc {
        Doc::Object(response_message_members(v))
    }

    /// The document has to be an object. Members are found by name, the first
    /// of a name counting; where several are at fault, the failure is that of
    /// the first in the order of the fields.
    open spec fn decoded(d: Doc) -> Result<ChatCompletionMessageForResponseModel, Failure> {
        match object_members(d) {
            Err(e) => Err(e),
            Ok(m) => {
                let role = required::<MessageRole>(m, "role"@);
                let content = optional::<String>(m, "content"@);
                let name = optional::<String>(m, "name"@);
                let function_call = optional::<ToolCallFunction>(m, "function_call"@);
                let tool_calls = optional::<Vec<ToolCall>>(m, "tool_calls"@);
                if role is Err {
                    Err(role->Err_0)
                } else if content is Err {
                    Err(content->Err_0)
                } else if name is Err {
                    Err(name->Err_0)
                } else if function_call is Err {
                    Err(function_call->Err_0)
                } else if tool_calls is Err {
                    Err(tool_calls->Err_0)
                } else {
                    Ok(
                        ChatCompletionMessageForResponseModel {
                            role: role->Ok_0,
                            content: content->Ok_0,
                            name: name->Ok_0,
                            function_call: function_call->Ok_0,
                            tool_calls: tool_calls->Ok_0,
                        },
                    )
                }
            },
        }
    }

    open spec fn faithful(v: ChatCompletionMessageForResponseModel) -> bool {
        true
    }

    fn serialize(&self) -> (r: Json) {
        let mut members: Vec<(String, Json)> = Vec::new();
        put(&mut members, "role", &self.role);
        put_some(&mut members, "content", &self.content);
        put_some(&mut members, "name", &self.name);
        put_some(&mut members, "function_call", &self.function_call);
        put_some(&mut members, "tool_calls", &self.tool_calls);
        Json::Object(members)
    }

    fn deserialize(json: &Json) -> (r: Result<Self, DecodeError>) {
        let members = members_of(json)?;
        let role = get_required::<MessageRole>(members, "role")?;
        let content = get_optional::<String>(members, "content")?;
        let name = get_optional::<String>(members, "name")?;
        let function_call = get_optional::<ToolCallFunction>(members, "function_call")?;
        let tool_calls = get_optional::<Vec<ToolCall>>(members, "tool_calls")?;
        Ok(ChatCompletionMessageForResponse { role, content, name, function_call, tool_calls })
    }

    proof fn lemma_round_trip(v: ChatCompletionMessageForResponseModel) {
        lemma_response_message_lookups(v);
        MessageRole::lemma_round_trip(v.role);
        if let Some(x) = v.function_call {
            ToolCallFunction::lemma_round_trip(x);
        }
        if let Some(x) = v.tool_calls {
            Vec::<ToolCall>::lemma_round_trip(x);
        }
        let m = response_message_members(v);
        assert(required::<MessageRole>(m, "role"@) == Ok::<MessageRole, Failure>(v.role));
        assert(optional::<String>(m, "content"@) == Ok::<Option<Seq<char>>, Failure>(v.content));
        assert(optional::<String>(m, "name"@) == Ok::<Option<Seq<char>>, Failure>(v.name));
        assert(optional::<ToolCallFunction>(m, "function_call"@) == Ok::<
            Option<ToolCallFunctionModel>,
            Failure,
        >(v.function_call));
        assert(optional::<Vec<ToolCall>>(m, "tool_calls"@) == Ok::<
            Option<Seq<ToolCallModel>>,
            Failure,
        >(v.tool_calls));
    }
}

} // verus!
