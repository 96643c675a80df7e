//! The request: the conversation so far, and how the model is to go on.
use vstd::prelude::*;
use crate::codec::{
    encoded_all, encoded_nullable, encoded_some, get_optional, get_required, lemma_layer,
    members_of, object_members, optional, put, put_json, put_nullable, put_some, required, with,
    with_nullable, with_some, Members, Wire,
};
use crate::error::{fail, DecodeError, ErrorKind, Failure, Wanted};
use crate::json::{
    found_of, lemma_member_docs, lemma_member_docs_push, lookup, member_docs, Doc, Json, JsonNumber,
};
use crate::message::{ChatCompletionMessage, ChatCompletionMessageModel};
use crate::tool::{serialize_tool_choice, Tool, ToolChoiceType, ToolChoiceTypeModel, ToolModel};

verus! {

/// Which adapter a backend is to load. The record is carried as it is.
#[derive(Debug, Clone, PartialEq, Eq)]
pub struct LoraRequest {
    pub lora_id: String,
    pub lora_int_id: i32,
    pub lora_local_path: String,
}

/// The mathematical value of a [`LoraRequest`].
pub struct LoraRequestModel {
    pub lora_id: Seq<char>,
    pub lora_int_id: i32,
    pub lora_local_path: Seq<char>,
}

impl DeepView for LoraRequest {
    type V = LoraRequestModel;

    open spec fn deep_view(&self) -> LoraRequestModel {
        LoraRequestModel {
            lora_id: self.lora_id.deep_view(),
            lora_int_id: self.lora_int_id.deep_view(),
            lora_local_path: self.lora_local_path.deep_view(),
        }
    }
}

/// The members a [`LoraRequest`] is written with: `lora_id`, `lora_int_id` and
/// `lora_local_path`, in this order.
pub open spec fn lora_request_members(v: LoraRequestModel) -> Members {
    let m = Seq::<(Seq<char>, Doc)>::empty();
    let m = with::<String>(m, "lora_id"@, v.lora_id);
    let m = with::<i32>(m, "lora_int_id"@, v.lora_int_id);
    let m = with::<String>(m, "lora_local_path"@, v.lora_local_path);
    m
}

/// The place of a name among the members of a [`LoraRequest`]; -1 for a name
/// that is none of them.
pub open spec fn lora_request_place(key: Seq<char>) -> int {
    if key == "lora_id"@ {
        0
    } else if key == "lora_int_id"@ {
        1
    } else if key == "lora_local_path"@ {
        2
    } else {
        -1
    }
}

/// What is found under each name among the members of a [`LoraRequest`].
pub proof fn lemma_lora_request_lookups(v: LoraRequestModel)
    ensures
        lookup(lora_request_members(v), "lora_id"@) == Some(String::encoded(v.lora_id)),
        lookup(lora_request_members(v), "lora_int_id"@) == Some(i32::encoded(v.lora_int_id)),
        lookup(lora_request_members(v), "lora_local_path"@) == Some(
            String::encoded(v.lora_local_path),
        ),
{
    reveal_strlit("lora_id");
    reveal_strlit("lora_int_id");
    reveal_strlit("lora_local_path");
    assert("lora_id"@.len() == 7);
    assert("lora_int_id"@.len() == 11);
    assert("lora_local_path"@.len() == 15);
    assert(lora_request_place("lora_id"@) == 0);
    assert(lora_request_place("lora_int_id"@) == 1);
    assert(lora_request_place("lora_local_path"@) == 2);
    let place = |key: Seq<char>| lora_request_place(key);
    let m = Seq::<(Seq<char>, Doc)>::empty();
    assert(forall|key: Seq<char>| lookup(m, key) is None);
    let longer = with::<String>(m, "lora_id"@, v.lora_id);
    lemma_layer(m, longer, "lora_id"@, place, 0);
    let m = longer;
    let longer = with::<i32>(m, "lora_int_id"@, v.lora_int_id);
    lemma_layer(m, longer, "lora_int_id"@, place, 1);
    let m = longer;
    let longer = with::<String>(m, "lora_local_path"@, v.lora_local_path);
    lemma_layer(m, longer, "lora_local_path"@, place, 2);
}

impl Wire for LoraRequest {
    /// An object with the members that [`lora_request_members`] gives.
    open spec fn encoded(v: LoraRequestModel) -> Doc {
        Doc::Object(lora_request_members(v))
    }

    /// The document has to be an object. Members are found by name, the first
    /// of a name counting; where several are at fault, the failure is that of
    /// the first in the order of the fields.
    open spec fn decoded(d: Doc) -> Result<LoraRequestModel, Failure> {
        match object_members(d) {
            Err(e) => Err(e),
            Ok(m) => {
                let lora_id = required::<String>(m, "lora_id"@);
                let lora_int_id = required::<i32>(m, "lora_int_id"@);
                let lora_local_path = required::<String>(m, "lora_local_path"@);
                if lora_id is Err {
                    Err(lora_id->Err_0)
                } else if lora_int_id is Err {
                    Err(lora_int_id->Err_0)
                } else if lora_local_path is Err {
                    Err(lora_local_path->Err_0)
                } else {
                    Ok(
                        LoraRequestModel {
                            lora_id: lora_id->Ok_0,
                            lora_int_id: lora_int_id->Ok_0,
                            lora_local_path: lora_local_path->Ok_0,
                        },
                    )
                }
            },
        }
    }

    open spec fn faithful(v: LoraRequestModel) -> bool {
        true
    }

    fn serialize(&self) -> (r: Json) {
        let mut members: Vec<(String, Json)> = Vec::new();
        put(&mut members, "lora_id", &self.lora_id);
        put(&mut members, "lora_int_id", &self.lora_int_id);
        put(&mut members, "lora_local_path", &self.lora_local_path);
        Json::Object(members)
    }

    fn deserialize(json: &Json) -> (r: Result<Self, DecodeError>) {
        let members = members_of(json)?;
        let lora_id = get_required::<String>(members, "lora_id")?;
        let lora_int_id = get_required::<i32>(members, "lora_int_id")?;
        let lora_local_path = get_required::<String>(members, "lora_local_path")?;
        Ok(LoraRequest { lora_id, lora_int_id, lora_local_path })
    }

    proof fn lemma_round_trip(v: LoraRequestModel) {
        lemma_lora_request_lookups(v);
        let m = lora_request_members(v);
        assert(required::<String>(m, "lora_id"@) == Ok::<Seq<char>, Failure>(v.lora_id));
        assert(required::<i32>(m, "lora_int_id"@) == Ok::<i32, Failure>(v.lora_int_id));
        assert(required::<String>(m, "lora_local_path"@) == Ok::<Seq<char>, Failure>(
            v.lora_local_path,
        ));
    }
}

/// Settings for one backend, carried as they are.
#[derive(Debug, Clone, PartialEq, Eq)]
pub struct EmpowerMetadata {
    pub id: String,
    pub lora_request: Option<LoraRequest>,
    pub use_beam_search: Option<bool>,
    pub best_of: Option<i32>,
    pub tools_only: Option<bool>,
    pub tools_enabled: Option<bool>,
    pub conversation_json_schema: Option<String>,
    pub tools_json_schema: Option<String>,
    pub num_cached_prefix_messages: Option<usize>,
    pub logprobs: Option<usize>,
    pub ignore_eos: bool,
    pub skip_chat_template: bool,
}

/// The mathematical value of a [`EmpowerMetadata`].
pub struct EmpowerMetadataModel {
    pub id: Seq<char>,
    pub lora_request: Option<LoraRequestModel>,
    pub use_beam_search: Option<bool>,
    pub best_of: Option<i32>,
    pub tools_only: Option<bool>,
    pub tools_enabled: Option<bool>,
    pub conversation_json_schema: Option<Seq<char>>,
    pub tools_json_schema: Option<Seq<char>>,
    pub num_cached_prefix_messages: Option<usize>,
    pub logprobs: Option<usize>,
    pub ignore_eos: bool,
    pub skip_chat_template: bool,
}

impl DeepView for EmpowerMetadata {
    type V = EmpowerMetadataModel;

    open spec fn deep_view(&self) -> EmpowerMetadataModel {
        EmpowerMetadataModel {
            id: self.id.deep_view(),
            lora_request: self.lora_request.deep_view(),
            use_beam_search: self.use_beam_search.deep_view(),
            best_of: self.best_of.deep_view(),
            tools_only: self.tools_only.deep_view(),
            tools_enabled: self.tools_enabled.deep_view(),
            conversation_json_schema: self.conversation_json_schema.deep_view(),
            tools_json_schema: self.tools_json_schema.deep_view(),
            num_cached_prefix_messages: self.num_cached_prefix_messages.deep_view(),
            logprobs: self.logprobs.deep_view(),
            ignore_eos: self.ignore_eos.deep_view(),
            skip_chat_template: self.skip_chat_template.deep_view(),
        }
    }
}

/// The members a [`EmpowerMetadata`] is written with: every field as a member,
/// in the order of the fields; a field that is not set is `null`.
pub open spec fn empower_metadata_members(v: EmpowerMetadataModel) -> Members {
    let m = Seq::<(Seq<char>, Doc)>::empty();
    let m = with::<String>(m, "id"@, v.id);
    let m = with_nullable::<LoraRequest>(m, "lora_request"@, v.lora_request);
    let m = with_nullable::<bool>(m, "use_beam_search"@, v.use_beam_search);
    let m = with_nullable::<i32>(m, "best_of"@, v.best_of);
    let m = with_nullable::<bool>(m, "tools_only"@, v.tools_only);
    let m = with_nullable::<bool>(m, "tools_enabled"@, v.tools_enabled);
    let m = with_nullable::<String>(m, "conversation_json_schema"@, v.conversation_json_schema);
    let m = with_nullable::<String>(m, "tools_json_schema"@, v.tools_json_schema);
    let m = with_nullable::<usize>(m, "num_cached_prefix_messages"@, v.num_cached_prefix_messages);
    let m = with_nullable::<usize>(m, "logprobs"@, v.logprobs);
    let m = with::<bool>(m, "ignore_eos"@, v.ignore_eos);
    let m = with::<bool>(m, "skip_chat_template"@, v.skip_chat_template);
    m
}

/// The place of a name among the members of a [`EmpowerMetadata`]; -1 for a
/// name that is none of them.
pub open spec fn empower_metadata_place(key: Seq<char>) -> int {
    if key == "id"@ {
        0
    } else if key == "lora_request"@ {
        1
    } else if key == "use_beam_search"@ {
        2
    } else if key == "best_of"@ {
        3
    } else if key == "tools_only"@ {
        4
    } else if key == "tools_enabled"@ {
        5
    } else if key == "conversation_json_schema"@ {
        6
    } else if key == "tools_json_schema"@ {
        7
    } else if key == "num_cached_prefix_messages"@ {
        8
    } else if key == "logprobs"@ {
        9
    } else if key == "ignore_eos"@ {
        10
    } else if key == "skip_chat_template"@ {
        11
    } else {
        -1
    }
}

/// What is found under each name among the members of a [`EmpowerMetadata`].
pub proof fn lemma_empower_metadata_lookups(v: EmpowerMetadataModel)
    ensures
        lookup(empower_metadata_members(v), "id"@) == Some(String::encoded(v.id)),
        lookup(empower_metadata_members(v), "lora_request"@) == Some(
            encoded_nullable::<LoraRequest>(v.lora_request),
        ),
        lookup(empower_metadata_members(v), "use_beam_search"@) == Some(
            encoded_nullable::<bool>(v.use_beam_search),
        ),
        lookup(empower_metadata_members(v), "best_of"@) == Some(encoded_nullable::<i32>(v.best_of)),
        lookup(empower_metadata_members(v), "tools_only"@) == Some(
            encoded_nullable::<bool>(v.tools_only),
        ),
        lookup(empower_metadata_members(v), "tools_enabled"@) == Some(
            encoded_nullable::<bool>(v.tools_enabled),
        ),
        lookup(empower_metadata_members(v), "conversation_json_schema"@) == Some(
            encoded_nullable::<String>(v.conversation_json_schema),
        ),
        lookup(empower_metadata_members(v), "tools_json_schema"@) == Some(
            encoded_nullable::<String>(v.tools_json_schema),
        ),
        lookup(empower_metadata_members(v), "num_cached_prefix_messages"@) == Some(
            encoded_nullable::<usize>(v.num_cached_prefix_messages),
        ),
        lookup(empower_metadata_members(v), "logprobs"@) == Some(
            encoded_nullable::<usize>(v.logprobs),
        ),
        lookup(empower_metadata_members(v), "ignore_eos"@) == Some(bool::encoded(v.ignore_eos)),
        lookup(empower_metadata_members(v), "skip_chat_template"@) == Some(
            bool::encoded(v.skip_chat_template),
        ),
{
    reveal_strlit("id");
    reveal_strlit("lora_request");
    reveal_strlit("use_beam_search");
    reveal_strlit("best_of");
    reveal_strlit("tools_only");
    reveal_strlit("tools_enabled");
    reveal_strlit("conversation_json_schema");
    reveal_strlit("tools_json_schema");
    reveal_strlit("num_cached_prefix_messages");
    reveal_strlit("logprobs");
    reveal_strlit("ignore_eos");
    reveal_strlit("skip_chat_template");
    assert("id"@.len() == 2);
    assert("lora_request"@.len() == 12);
    assert("use_beam_search"@.len() == 15);
    assert("best_of"@.len() == 7);
    assert("tools_only"@.len() == 10);
    assert("tools_only"@[0] == 't');
    assert("tools_enabled"@.len() == 13);
    assert("conversation_json_schema"@.len() == 24);
    assert("tools_json_schema"@.len() == 17);
    assert("num_cached_prefix_messages"@.len() == 26);
    assert("logprobs"@.len() == 8);
    assert("ignore_eos"@.len() == 10);
    assert("ignore_eos"@[0] == 'i');
    assert("skip_chat_template"@.len() == 18);
    assert(empower_metadata_place("id"@) == 0);
    assert(empower_metadata_place("lora_request"@) == 1);
    assert(empower_metadata_place("use_beam_search"@) == 2);
    assert(empower_metadata_place("best_of"@) == 3);
    assert(empower_metadata_place("tools_only"@) == 4);
    assert(empower_metadata_place("tools_enabled"@) == 5);
    assert(empower_metadata_place("conversation_json_schema"@) == 6);
    assert(empower_metadata_place("tools_json_schema"@) == 7);
    assert(empower_metadata_place("num_cached_prefix_messages"@) == 8);
    assert(empower_metadata_place("logprobs"@) == 9);
    assert(empower_metadata_place("ignore_eos"@) == 10);
    assert(empower_metadata_place("skip_chat_template"@) == 11);
    let place = |key: Seq<char>| empower_metadata_place(key);
    let m = Seq::<(Seq<char>, Doc)>::empty();
    assert(forall|key: Seq<char>| lookup(m, key) is None);
    let longer = with::<String>(m, "id"@, v.id);
    lemma_layer(m, longer, "id"@, place, 0);
    let m = longer;
    let longer = with_nullable::<LoraRequest>(m, "lora_request"@, v.lora_request);
    lemma_layer(m, longer, "lora_request"@, place, 1);
    let m = longer;
    let longer = with_nullable::<bool>(m, "use_beam_search"@, v.use_beam_search);
    lemma_layer(m, longer, "use_beam_search"@, place, 2);
    let m = longer;
    let longer = with_nullable::<i32>(m, "best_of"@, v.best_of);
    lemma_layer(m, longer, "best_of"@, place, 3);
    let m = longer;
    let longer = with_nullable::<bool>(m, "tools_only"@, v.tools_only);
    lemma_layer(m, longer, "tools_only"@, place, 4);
    let m = longer;
    let longer = with_nullable::<bool>(m, "tools_enabled"@, v.tools_enabled);
    lemma_layer(m, longer, "tools_enabled"@, place, 5);
    let m = longer;
    let longer = with_nullable::<String>(
        m,
        "conversation_json_schema"@,
        v.conversation_json_schema,
    );
    lemma_layer(m, longer, "conversation_json_schema"@, place, 6);
    let m = longer;
    let longer = with_nullable::<String>(m, "tools_json_schema"@, v.tools_json_schema);
    lemma_layer(m, longer, "tools_json_schema"@, place, 7);
    let m = longer;
    let longer = with_nullable::<usize>(
        m,
        "num_cached_prefix_messages"@,
        v.num_cached_prefix_messages,
    );
    lemma_layer(m, longer, "num_cached_prefix_messages"@, place, 8);
    let m = longer;
    let longer = with_nullable::<usize>(m, "logprobs"@, v.logprobs);
    lemma_layer(m, longer, "logprobs"@, place, 9);
    let m = longer;
    let longer = with::<bool>(m, "ignore_eos"@, v.ignore_eos);
    lemma_layer(m, longer, "ignore_eos"@, place, 10);
    let m = longer;
    let longer = with::<bool>(m, "skip_chat_template"@, v.skip_chat_template);
    lemma_layer(m, longer, "skip_chat_template"@, place, 11);
}

impl Wire for EmpowerMetadata {
    /// An object with the members that [`empower_metadata_members`] gives.
    open spec fn encoded(v: EmpowerMetadataModel) -> Doc {
        Doc::Object(empower_metadata_members(v))
    }

    /// The document has to be an object. Members are found by name, the first
    /// of a name counting; where several are at fault, the failure is that of
    /// the first in the order of the fields.
    open spec fn decoded(d: Doc) -> Result<EmpowerMetadataModel, Failure> {
        match object_members(d) {
            Err(e) => Err(e),
            Ok(m) => {
                let id = required::<String>(m, "id"@);
                let lora_request = optional::<LoraRequest>(m, "lora_request"@);
                let use_beam_search = optional::<bool>(m, "use_beam_search"@);
                let best_of = optional::<i32>(m, "best_of"@);
                let tools_only = optional::<bool>(m, "tools_only"@);
                let tools_enabled = optional::<bool>(m, "tools_enabled"@);
                let conversation_json_schema = optional::<String>(m, "conversation_json_schema"@);
                let tools_json_schema = optional::<String>(m, "tools_json_schema"@);
                let num_cached_prefix_messages = optional::<usize>(
                    m,
                    "num_cached_prefix_messages"@,
                );
                let logprobs = optional::<usize>(m, "logprobs"@);
                let ignore_eos = required::<bool>(m, "ignore_eos"@);
                let skip_chat_template = required::<bool>(m, "skip_chat_template"@);
                if id is Err {
                    Err(id->Err_0)
                } else if lora_request is Err {
                    Err(lora_request->Err_0)
                } else if use_beam_search is Err {
                    Err(use_beam_search->Err_0)
                } else if best_of is Err {
                    Err(best_of->Err_0)
                } else if tools_only is Err {
                    Err(tools_only->Err_0)
                } else if tools_enabled is Err {
                    Err(tools_enabled->Err_0)
                } else if conversation_json_schema is Err {
                    Err(conversation_json_schema->Err_0)
                } else if tools_json_schema is Err {
                    Err(tools_json_schema->Err_0)
                } else if num_cached_prefix_messages is Err {
                    Err(num_cached_prefix_messages->Err_0)
                } else if logprobs is Err {
                    Err(logprobs->Err_0)
                } else if ignore_eos is Err {
                    Err(ignore_eos->Err_0)
                } else if skip_chat_template is Err {
                    Err(skip_chat_template->Err_0)
                } else {
                    Ok(
                        EmpowerMetadataModel {
                            id: id->Ok_0,
                            lora_request: lora_request->Ok_0,
                            use_beam_search: use_beam_search->Ok_0,
                            best_of: best_of->Ok_0,
                            tools_only: tools_only->Ok_0,
                            tools_enabled: tools_enabled->Ok_0,
                            conversation_json_schema: conversation_json_schema->Ok_0,
                            tools_json_schema: tools_json_schema->Ok_0,
                            num_cached_prefix_messages: num_cached_prefix_messages->Ok_0,
                            logprobs: logprobs->Ok_0,
                            ignore_eos: ignore_eos->Ok_0,
                            skip_chat_template: skip_chat_template->Ok_0,
                        },
                    )
                }
            },
        }
    }

    open spec fn faithful(v: EmpowerMetadataModel) -> bool {
        true
    }

    fn serialize(&self) -> (r: Json) {
        let mut members: Vec<(String, Json)> = Vec::new();
        put(&mut members, "id", &self.id);
        put_nullable(&mut members, "lora_request", &self.lora_request);
        put_nullable(&mut members, "use_beam_search", &self.use_beam_search);
        put_nullable(&mut members, "best_of", &self.best_of);
        put_nullable(&mut members, "tools_only", &self.tools_only);
        put_nullable(&mut members, "tools_enabled", &self.tools_enabled);
        put_nullable(&mut members, "conversation_json_schema", &self.conversation_json_schema);
        put_nullable(&mut members, "tools_json_schema", &self.tools_json_schema);
        put_nullable(&mut members, "num_cached_prefix_messages", &self.num_cached_prefix_messages);
        put_nullable(&mut members, "logprobs", &self.logprobs);
        put(&mut members, "ignore_eos", &self.ignore_eos);
        put(&mut members, "skip_chat_template", &self.skip_chat_template);
        Json::Object(members)
    }

    fn deserialize(json: &Json) -> (r: Result<Self, DecodeError>) {
        let members = members_of(json)?;
        let id = get_required::<String>(members, "id")?;
        let lora_request = get_optional::<LoraRequest>(members, "lora_request")?;
        let use_beam_search = get_optional::<bool>(members, "use_beam_search")?;
        let best_of = get_optional::<i32>(members, "best_of")?;
        let tools_only = get_optional::<bool>(members, "tools_only")?;
        let tools_enabled = get_optional::<bool>(members, "tools_enabled")?;
        let conversation_json_schema = get_optional::<String>(members, "conversation_json_schema")?;
        let tools_json_schema = get_optional::<String>(members, "tools_json_schema")?;
        let num_cached_prefix_messages = get_optional::<usize>(
            members,
            "num_cached_prefix_messages",
        )?;
        let logprobs = get_optional::<usize>(members, "logprobs")?;
        let ignore_eos = get_required::<bool>(members, "ignore_eos")?;
        let skip_chat_template = get_required::<bool>(members, "skip_chat_template")?;
        Ok(
            EmpowerMetadata {
                id,
                lora_request,
                use_beam_search,
                best_of,
                tools_only,
                tools_enabled,
                conversation_json_schema,
                tools_json_schema,
                num_cached_prefix_messages,
                logprobs,
                ignore_eos,
                skip_chat_template,
            },
        )
    }

    proof fn lemma_round_trip(v: EmpowerMetadataModel) {
        lemma_empower_metadata_lookups(v);
        if let Some(x) = v.lora_request {
            LoraRequest::lemma_round_trip(x);
        }
        let m = empower_metadata_members(v);
        assert(required::<String>(m, "id"@) == Ok::<Seq<char>, Failure>(v.id));
        assert(optional::<LoraRequest>(m, "lora_request"@) == Ok::<
            Option<LoraRequestModel>,
            Failure,
        >(v.lora_request));
        assert(optional::<bool>(m, "use_beam_search"@) == Ok::<Option<bool>, Failure>(
            v.use_beam_search,
        ));
        assert(optional::<i32>(m, "best_of"@) == Ok::<Option<i32>, Failure>(v.best_of));
        assert(optional::<bool>(m, "tools_only"@) == Ok::<Option<bool>, Failure>(v.tools_only));
        assert(optional::<bool>(m, "tools_enabled"@) == Ok::<Option<bool>, Failure>(
            v.tools_enabled,
        ));
        assert(optional::<String>(m, "conversation_json_schema"@) == Ok::<
            Option<Seq<char>>,
            Failure,
        >(v.conversation_json_schema));
        assert(optional::<String>(m, "tools_json_schema"@) == Ok::<Option<Seq<char>>, Failure>(
            v.tools_json_schema,
        ));
        assert(optional::<usize>(m, "num_cached_prefix_messages"@) == Ok::<Option<usize>, Failure>(
            v.num_cached_prefix_messages,
        ));
        assert(optional::<usize>(m, "logprobs"@) == Ok::<Option<usize>, Failure>(v.logprobs));
        assert(required::<bool>(m, "ignore_eos"@) == Ok::<bool, Failure>(v.ignore_eos));
        assert(required::<bool>(m, "skip_chat_template"@) == Ok::<bool, Failure>(
            v.skip_chat_template,
        ));
    }
}

impl Default for EmpowerMetadata {
    fn default() -> (r: Self)
        ensures
            r.deep_view() == (EmpowerMetadataModel {
                id: Seq::empty(),
                lora_request: None,
                use_beam_search: None,
                best_of: None,
                tools_only: None,
                tools_enabled: None,
                conversation_json_schema: None,
                tools_json_schema: None,
                num_cached_prefix_messages: None,
                logprobs: None,
                ignore_eos: false,
                skip_chat_template: false,
            }),
    {
        EmpowerMetadata {
            id: String::new(),
            lora_request: None,
            use_beam_search: None,
            best_of: None,
            tools_only: None,
            tools_enabled: None,
            conversation_json_schema: None,
            tools_json_schema: None,
            num_cached_prefix_messages: None,
            logprobs: None,
            ignore_eos: false,
            skip_chat_template: false,
        }
    }
}

/// Biases for tokens: whole numbers under the tokens' names, in the order
/// given.
#[derive(Debug, Clone, PartialEq, Eq)]
pub struct LogitBias {
    pub entries: Vec<(String, i32)>,
}

impl DeepView for LogitBias {
    type V = Seq<(Seq<char>, i32)>;

    open spec fn deep_view(&self) -> Seq<(Seq<char>, i32)> {
        self.entries.deep_view()
    }
}

/// The members that biases are written as, in their order.
pub open spec fn bias_members(entries: Seq<(Seq<char>, i32)>) -> Members {
    Seq::new(entries.len(), |i: int| (entries[i].0, i32::encoded(entries[i].1)))
}

/// The biases read from the members of an object, in their order; the
/// failure of the first member that holds no such number, at its name.
pub open spec fn bias_decoded(named: Members) -> Result<Seq<(Seq<char>, i32)>, Failure>
    decreases named.len(),
{
    if named.len() == 0 {
        Ok(Seq::empty())
    } else {
        match bias_decoded(named.drop_last()) {
            Err(e) => Err(e),
            Ok(entries) => match i32::decoded(named.last().1) {
                Ok(v) => Ok(entries.push((named.last().0, v))),
                Err(e) => Err(e.at_key(named.last().0)),
            },
        }
    }
}

/// A failure among the first members is the failure of all of them.
pub proof fn lemma_bias_decoded_prefix(named: Members, n: int)
    requires
        0 <= n <= named.len(),
        bias_decoded(named.take(n)) is Err,
    ensures
        bias_decoded(named) == bias_decoded(named.take(n)),
    decreases named.len() - n,
{
    if n < named.len() {
        assert(named.take(n + 1).drop_last() =~= named.take(n));
        lemma_bias_decoded_prefix(named, n + 1);
    } else {
        assert(named.take(n) =~= named);
    }
}

/// Reading the members that biases are written as gives the biases back.
pub proof fn lemma_bias_round_trip(entries: Seq<(Seq<char>, i32)>)
    ensures
        bias_decoded(bias_members(entries)) == Ok::<Seq<(Seq<char>, i32)>, Failure>(entries),
    decreases entries.len(),
{
    if entries.len() == 0 {
        assert(entries =~= Seq::empty());
    } else {
        assert(bias_members(entries).drop_last() =~= bias_members(entries.drop_last()));
        lemma_bias_round_trip(entries.drop_last());
        assert(entries.drop_last().push(entries.last()) =~= entries);
    }
}

impl Wire for LogitBias {
    /// An object with one member for each bias, in their order.
    open spec fn encoded(v: Seq<(Seq<char>, i32)>) -> Doc {
        Doc::Object(bias_members(v))
    }

    open spec fn decoded(d: Doc) -> Result<Seq<(Seq<char>, i32)>, Failure> {
        match d {
            Doc::Object(named) => bias_decoded(named),
            _ => Err(fail(ErrorKind::TypeMismatch, Wanted::Object, found_of(d))),
        }
    }

    open spec fn faithful(v: Seq<(Seq<char>, i32)>) -> bool {
        true
    }

    fn serialize(&self) -> (r: Json) {
        let ghost all = self.deep_view();
        let mut out: Vec<(String, Json)> = Vec::new();
        let mut i: usize = 0;
        proof {
            assert(bias_members(all.take(0)) =~= Seq::empty());
        }
        while i < self.entries.len()
            invariant
                i <= self.entries.len(),
                all == self.deep_view(),
                member_docs(out@) == bias_members(all.take(i as int)),
            decreases self.entries.len() - i,
        {
            let member = (self.entries[i].0.clone(), self.entries[i].1.serialize());
            proof {
                lemma_member_docs_push(out@, member);
                assert(bias_members(all.take(i + 1)) =~= bias_members(all.take(i as int)).push(
                    (member.0@, member.1@),
                ));
            }
            out.push(member);
            i += 1;
        }
        proof {
            assert(all.take(i as int) =~= all);
        }
        Json::Object(out)
    }

    fn deserialize(json: &Json) -> (r: Result<Self, DecodeError>) {
        match json {
            Json::Object(named) => {
                let ghost all = member_docs(named@);
                proof {
                    lemma_member_docs(named@);
                }
                let mut out: Vec<(String, i32)> = Vec::new();
                let mut i: usize = 0;
                proof {
                    assert(out.deep_view() =~= Seq::empty());
                    assert(all.take(0).len() == 0);
                }
                while i < named.len()
                    invariant
                        i <= named.len(),
                        all == member_docs(named@),
                        json@ == Doc::Object(all),
                        all.len() == named@.len(),
                        forall|k: int|
                            0 <= k < named@.len() ==> #[trigger] all[k] == (
                                named@[k].0@,
                                named@[k].1@,
                            ),
                        bias_decoded(all.take(i as int)) == Ok::<Seq<(Seq<char>, i32)>, Failure>(
                            out.deep_view(),
                        ),
                    decreases named.len() - i,
                {
                    proof {
                        assert(all.take(i + 1).drop_last() =~= all.take(i as int));
                        assert(all.take(i + 1).last() == all[i as int]);
                    }
                    match i32::deserialize(&named[i].1) {
                        Ok(v) => {
                            let ghost before = out.deep_view();
                            let name = named[i].0.clone();
                            out.push((name, v));
                            assert(out.deep_view() =~= before.push((named@[i as int].0@, v)));
                        },
                        Err(e) => {
                            proof {
                                lemma_bias_decoded_prefix(all, i + 1);
                            }
                            return Err(e.at_key(named[i].0.as_str()));
                        },
                    }
                    i += 1;
                }
                proof {
                    assert(all.take(i as int) =~= all);
                }
                Ok(LogitBias { entries: out })
            },
            _ => Err(DecodeError::new(ErrorKind::TypeMismatch, Wanted::Object, json.found())),
        }
    }

    proof fn lemma_round_trip(v: Seq<(Seq<char>, i32)>) {
        lemma_bias_round_trip(v);
    }
}

/// What a request is read back as from its own document: itself, but for a
/// response format that was set to `null`, which is read as not set.
pub open spec fn read_back(v: ChatCompletionRequestModel) -> ChatCompletionRequestModel {
    ChatCompletionRequestModel {
        response_format: match v.response_format {
            Some(Doc::Null) => None,
            other => other,
        },
        ..v
    }
}

/// A request for chat completions. Only `model` and `messages` have to be
/// there; nothing is checked across fields.
#[derive(Debug, Clone, PartialEq, Eq)]
pub struct ChatCompletionRequest {
    pub model: String,
    /// The conversation, in its order.
    pub messages: Vec<ChatCompletionMessage>,
    pub temperature: Option<JsonNumber>,
    pub top_p: Option<JsonNumber>,
    pub n: Option<i64>,
    /// Any document.
    pub response_format: Option<Json>,
    pub stream: Option<bool>,
    pub stop: Option<Vec<String>>,
    pub max_tokens: Option<i64>,
    pub presence_penalty: Option<JsonNumber>,
    pub frequency_penalty: Option<JsonNumber>,
    pub logit_bias: Option<LogitBias>,
    pub user: Option<String>,
    pub seed: Option<i64>,
    pub tools: Option<Vec<Tool>>,
    pub tool_choice: Option<ToolChoiceType>,
    pub prettify_tools: Option<bool>,
    pub structure_output_decoding_mode: Option<String>,
    pub use_raw_output: Option<bool>,
    pub include_thinking: Option<bool>,
    pub empower_metadata: Option<EmpowerMetadata>,
}

/// The mathematical value of a [`ChatCompletionRequest`].
pub struct ChatCompletionRequestModel {
    pub model: Seq<char>,
    pub messages: Seq<ChatCompletionMessageModel>,
    pub temperature: Option<JsonNumber>,
    pub top_p: Option<JsonNumber>,
    pub n: Option<i64>,
    pub response_format: Option<Doc>,
    pub stream: Option<bool>,
    pub stop: Option<Seq<Seq<char>>>,
    pub max_tokens: Option<i64>,
    pub presence_penalty: Option<JsonNumber>,
    pub frequency_penalty: Option<JsonNumber>,
    pub logit_bias: Option<Seq<(Seq<char>, i32)>>,
    pub user: Option<Seq<char>>,
    pub seed: Option<i64>,
    pub tools: Option<Seq<ToolModel>>,
    pub tool_choice: Option<ToolChoiceTypeModel>,
    pub prettify_tools: Option<bool>,
    pub structure_output_decoding_mode: Option<Seq<char>>,
    pub use_raw_output: Option<bool>,
    pub include_thinking: Option<bool>,
    pub empower_metadata: Option<EmpowerMetadataModel>,
}

impl DeepView for ChatCompletionRequest {
    type V = ChatCompletionRequestModel;

    open spec fn deep_view(&self) -> ChatCompletionRequestModel {
        ChatCompletionRequestModel {
            model: self.model.deep_view(),
            messages: self.messages.deep_view(),
            temperature: self.temperature.deep_view(),
            top_p: self.top_p.deep_view(),
            n: self.n.deep_view(),
            response_format: self.response_format.deep_view(),
            stream: self.stream.deep_view(),
            stop: self.stop.deep_view(),
            max_tokens: self.max_tokens.deep_view(),
            presence_penalty: self.presence_penalty.deep_view(),
            frequency_penalty: self.frequency_penalty.deep_view(),
            logit_bias: self.logit_bias.deep_view(),
            user: self.user.deep_view(),
            seed: self.seed.deep_view(),
            tools: self.tools.deep_view(),
            tool_choice: self.tool_choice.deep_view(),
            prettify_tools: self.prettify_tools.deep_view(),
            structure_output_decoding_mode: self.structure_output_decoding_mode.deep_view(),
            use_raw_output: self.use_raw_output.deep_view(),
            include_thinking: self.include_thinking.deep_view(),
            empower_metadata: self.empower_metadata.deep_view(),
        }
    }
}

/// The members a [`ChatCompletionRequest`] is written with: `model` and
/// `messages`, then each of the other fields that is set, in the order of the
/// fields. A field that is not set is left out.
pub open spec fn request_members(v: ChatCompletionRequestModel) -> Members {
    let m = Seq::<(Seq<char>, Doc)>::empty();
    let m = with::<String>(m, "model"@, v.model);
    let m = with::<Vec<ChatCompletionMessage>>(m, "messages"@, v.messages);
    let m = with_some::<JsonNumber>(m, "temperature"@, v.temperature);
    let m = with_some::<JsonNumber>(m, "top_p"@, v.top_p);
    let m = with_some::<i64>(m, "n"@, v.n);
    let m = with_some::<Json>(m, "response_format"@, v.response_format);
    let m = with_some::<bool>(m, "stream"@, v.stream);
    let m = with_some::<Vec<String>>(m, "stop"@, v.stop);
    let m = with_some::<i64>(m, "max_tokens"@, v.max_tokens);
    let m = with_some::<JsonNumber>(m, "presence_penalty"@, v.presence_penalty);
    let m = with_some::<JsonNumber>(m, "frequency_penalty"@, v.frequency_penalty);
    let m = with_some::<LogitBias>(m, "logit_bias"@, v.logit_bias);
    let m = with_some::<String>(m, "user"@, v.user);
    let m = with_some::<i64>(m, "seed"@, v.seed);
    let m = with_some::<Vec<Tool>>(m, "tools"@, v.tools);
    let m = with_some::<ToolChoiceType>(m, "tool_choice"@, v.tool_choice);
    let m = with_some::<bool>(m, "prettify_tools"@, v.prettify_tools);
    let m = with_some::<String>(
        m,
        "structure_output_decoding_mode"@,
        v.structure_output_decoding_mode,
    );
    let m = with_some::<bool>(m, "use_raw_output"@, v.use_raw_output);
    let m = with_some::<bool>(m, "include_thinking"@, v.include_thinking);
    let m = with_some::<EmpowerMetadata>(m, "empower_metadata"@, v.empower_metadata);
    m
}

/// The place of a name among the members of a [`ChatCompletionRequest`]; -1 for
/// a name that is none of them.
pub open spec fn request_place(key: Seq<char>) -> int {
    if key == "model"@ {
        0
    } else if key == "messages"@ {
        1
    } else if key == "temperature"@ {
        2
    } else if key == "top_p"@ {
        3
    } else if key == "n"@ {
        4
    } else if key == "response_format"@ {
        5
    } else if key == "stream"@ {
        6
    } else if key == "stop"@ {
        7
    } else if key == "max_tokens"@ {
        8
    } else if key == "presence_penalty"@ {
        9
    } else if key == "frequency_penalty"@ {
        10
    } else if key == "logit_bias"@ {
        11
    } else if key == "user"@ {
        12
    } else if key == "seed"@ {
        13
    } else if key == "tools"@ {
        14
    } else if key == "tool_choice"@ {
        15
    } else if key == "prettify_tools"@ {
        16
    } else if key == "structure_output_decoding_mode"@ {
        17
    } else if key == "use_raw_output"@ {
        18
    } else if key == "include_thinking"@ {
        19
    } else if key == "empower_metadata"@ {
        20
    } else {
        -1
    }
}

/// What is found under each name among the members of a [`ChatCompletionRequest`].
pub proof fn lemma_request_lookups(v: ChatCompletionRequestModel)
    ensures
        lookup(request_members(v), "model"@) == Some(String::encoded(v.model)),
        lookup(request_members(v), "messages"@) == Some(
            Vec::<ChatCompletionMessage>::encoded(v.messages),
        ),
        lookup(request_members(v), "temperature"@) == encoded_some::<JsonNumber>(v.temperature),
        lookup(request_members(v), "top_p"@) == encoded_some::<JsonNumber>(v.top_p),
        lookup(request_members(v), "n"@) == encoded_some::<i64>(v.n),
        lookup(request_members(v), "response_format"@) == encoded_some::<Json>(v.response_format),
        lookup(request_members(v), "stream"@) == encoded_some::<bool>(v.stream),
        lookup(request_members(v), "stop"@) == encoded_some::<Vec<String>>(v.stop),
        lookup(request_members(v), "max_tokens"@) == encoded_some::<i64>(v.max_tokens),
        lookup(request_members(v), "presence_penalty"@) == encoded_some::<JsonNumber>(
            v.presence_penalty,
        ),
        lookup(request_members(v), "frequency_penalty"@) == encoded_some::<JsonNumber>(
            v.frequency_penalty,
        ),
        lookup(request_members(v), "logit_bias"@) == encoded_some::<LogitBias>(v.logit_bias),
        lookup(request_members(v), "user"@) == encoded_some::<String>(v.user),
        lookup(request_members(v), "seed"@) == encoded_some::<i64>(v.seed),
        lookup(request_members(v), "tools"@) == encoded_some::<Vec<Tool>>(v.tools),
        lookup(request_members(v), "tool_choice"@) == encoded_some::<ToolChoiceType>(v.tool_choice),
        lookup(request_members(v), "prettify_tools"@) == encoded_some::<bool>(v.prettify_tools),
        lookup(request_members(v), "structure_output_decoding_mode"@) == encoded_some::<String>(
            v.structure_output_decoding_mode,
        ),
        lookup(request_members(v), "use_raw_output"@) == encoded_some::<bool>(v.use_raw_output),
        lookup(request_members(v), "include_thinking"@) == encoded_some::<bool>(v.include_thinking),
        lookup(request_members(v), "empower_metadata"@) == encoded_some::<EmpowerMetadata>(
            v.empower_metadata,
        ),
{
    reveal_strlit("model");
    reveal_strlit("messages");
    reveal_strlit("temperature");
    reveal_strlit("top_p");
    reveal_strlit("n");
    reveal_strlit("response_format");
    reveal_strlit("stream");
    reveal_strlit("stop");
    reveal_strlit("max_tokens");
    reveal_strlit("presence_penalty");
    reveal_strlit("frequency_penalty");
    reveal_strlit("logit_bias");
    reveal_strlit("user");
    reveal_strlit("seed");
    reveal_strlit("tools");
    reveal_strlit("tool_choice");
    reveal_strlit("prettify_tools");
    reveal_strlit("structure_output_decoding_mode");
    reveal_strlit("use_raw_output");
    reveal_strlit("include_thinking");
    reveal_strlit("empower_metadata");
    assert("model"@.len() == 5);
    assert("model"@[0] == 'm');
    assert("messages"@.len() == 8);
    assert("temperature"@.len() == 11);
    assert("temperature"@[1] == 'e');
    assert("top_p"@.len() == 5);
    assert("top_p"@[0] == 't');
    assert("top_p"@[2] == 'p');
    assert("n"@.len() == 1);
    assert("response_format"@.len() == 15);
    assert("stream"@.len() == 6);
    assert("stop"@.len() == 4);
    assert("stop"@[0] == 's');
    assert("stop"@[1] == 't');
    assert("max_tokens"@.len() == 10);
    assert("max_tokens"@[0] == 'm');
    assert("presence_penalty"@.len() == 16);
    assert("presence_penalty"@[0] == 'p');
    assert("frequency_penalty"@.len() == 17);
    assert("logit_bias"@.len() == 10);
    assert("logit_bias"@[0] == 'l');
    assert("user"@.len() == 4);
    assert("user"@[0] == 'u');
    assert("seed"@.len() == 4);
    assert("seed"@[0] == 's');
    assert("seed"@[1] == 'e');
    assert("tools"@.len() == 5);
    assert("tools"@[0] == 't');
    assert("tools"@[2] == 'o');
    assert("tool_choice"@.len() == 11);
    assert("tool_choice"@[1] == 'o');
    assert("prettify_tools"@.len() == 14);
    assert("prettify_tools"@[0] == 'p');
    assert("structure_output_decoding_mode"@.len() == 30);
    assert("use_raw_output"@.len() == 14);
    assert("use_raw_output"@[0] == 'u');
    assert("include_thinking"@.len() == 16);
    assert("include_thinking"@[0] == 'i');
    assert("empower_metadata"@.len() == 16);
    assert("empower_metadata"@[0] == 'e');
    assert(request_place("model"@) == 0);
    assert(request_place("messages"@) == 1);
    assert(request_place("temperature"@) == 2);
    assert(request_place("top_p"@) == 3);
    assert(request_place("n"@) == 4);
    assert(request_place("response_format"@) == 5);
    assert(request_place("stream"@) == 6);
    assert(request_place("stop"@) == 7);
    assert(request_place("max_tokens"@) == 8);
    assert(request_place("presence_penalty"@) == 9);
    assert(request_place("frequency_penalty"@) == 10);
    assert(request_place("logit_bias"@) == 11);
    assert(request_place("user"@) == 12);
    assert(request_place("seed"@) == 13);
    assert(request_place("tools"@) == 14);
    assert(request_place("tool_choice"@) == 15);
    assert(request_place("prettify_tools"@) == 16);
    assert(request_place("structure_output_decoding_mode"@) == 17);
    assert(request_place("use_raw_output"@) == 18);
    assert(request_place("include_thinking"@) == 19);
    assert(request_place("empower_metadata"@) == 20);
    let place = |key: Seq<char>| request_place(key);
    let m = Seq::<(Seq<char>, Doc)>::empty();
    assert(forall|key: Seq<char>| lookup(m, key) is None);
    let longer = with::<String>(m, "model"@, v.model);
    lemma_layer(m, longer, "model"@, place, 0);
    let m = longer;
    let longer = with::<Vec<ChatCompletionMessage>>(m, "messages"@, v.messages);
    lemma_layer(m, longer, "messages"@, place, 1);
    let m = longer;
    let longer = with_some::<JsonNumber>(m, "temperature"@, v.temperature);
    lemma_layer(m, longer, "temperature"@, place, 2);
    let m = longer;
    let longer = with_some::<JsonNumber>(m, "top_p"@, v.top_p);
    lemma_layer(m, longer, "top_p"@, place, 3);
    let m = longer;
    let longer = with_some::<i64>(m, "n"@, v.n);
    lemma_layer(m, longer, "n"@, place, 4);
    let m = longer;
    let longer = with_some::<Json>(m, "response_format"@, v.response_format);
    lemma_layer(m, longer, "response_format"@, place, 5);
    let m = longer;
    let longer = with_some::<bool>(m, "stream"@, v.stream);
    lemma_layer(m, longer, "stream"@, place, 6);
    let m = longer;
    let longer = with_some::<Vec<String>>(m, "stop"@, v.stop);
    lemma_layer(m, longer, "stop"@, place, 7);
    let m = longer;
    let longer = with_some::<i64>(m, "max_tokens"@, v.max_tokens);
    lemma_layer(m, longer, "max_tokens"@, place, 8);
    let m = longer;
    let longer = with_some::<JsonNumber>(m, "presence_penalty"@, v.presence_penalty);
    lemma_layer(m, longer, "presence_penalty"@, place, 9);
    let m = longer;
    let longer = with_some::<JsonNumber>(m, "frequency_penalty"@, v.frequency_penalty);
    lemma_layer(m, longer, "frequency_penalty"@, place, 10);
    let m = longer;
    let longer = with_some::<LogitBias>(m, "logit_bias"@, v.logit_bias);
    lemma_layer(m, longer, "logit_bias"@, place, 11);
    let m = longer;
    let longer = with_some::<String>(m, "user"@, v.user);
    lemma_layer(m, longer, "user"@, place, 12);
    let m = longer;
    let longer = with_some::<i64>(m, "seed"@, v.seed);
    lemma_layer(m, longer, "seed"@, place, 13);
    let m = longer;
    let longer = with_some::<Vec<Tool>>(m, "tools"@, v.tools);
    lemma_layer(m, longer, "tools"@, place, 14);
    let m = longer;
    let longer = with_some::<ToolChoiceType>(m, "tool_choice"@, v.tool_choice);
    lemma_layer(m, longer, "tool_choice"@, place, 15);
    let m = longer;
    let longer = with_some::<bool>(m, "prettify_tools"@, v.prettify_tools);
    lemma_layer(m, longer, "prettify_tools"@, place, 16);
    let m = longer;
    let longer = with_some::<String>(
        m,
        "structure_output_decoding_mode"@,
        v.structure_output_decoding_mode,
    );
    lemma_layer(m, longer, "structure_output_decoding_mode"@, place, 17);
    let m = longer;
    let longer = with_some::<bool>(m, "use_raw_output"@, v.use_raw_output);
    lemma_layer(m, longer, "use_raw_output"@, place, 18);
    let m = longer;
    let longer = with_some::<bool>(m, "include_thinking"@, v.include_thinking);
    lemma_layer(m, longer, "include_thinking"@, place, 19);
    let m = longer;
    let longer = with_some::<EmpowerMetadata>(m, "empower_metadata"@, v.empower_metadata);
    lemma_layer(m, longer, "empower_metadata"@, place, 20);
}

impl Wire for ChatCompletionRequest {
    /// An object with the members that [`request_members`] gives.
    open spec fn encoded(v: ChatCompletionRequestModel) -> Doc {
        Doc::Object(request_members(v))
    }

    /// The document has to be an object. Members are found by name, the first
    /// of a name counting; where several are at fault, the failure is that of
    /// the first in the order of the fields.
    open spec fn decoded(d: Doc) -> Result<ChatCompletionRequestModel, Failure> {
        match object_members(d) {
            Err(e) => Err(e),
            Ok(m) => {
                let model = required::<String>(m, "model"@);
                let messages = required::<Vec<ChatCompletionMessage>>(m, "messages"@);
                let temperature = optional::<JsonNumber>(m, "temperature"@);
                let top_p = optional::<JsonNumber>(m, "top_p"@);
                let n = optional::<i64>(m, "n"@);
                let response_format = optional::<Json>(m, "response_format"@);
                let stream = optional::<bool>(m, "stream"@);
                let stop = optional::<Vec<String>>(m, "stop"@);
                let max_tokens = optional::<i64>(m, "max_tokens"@);
                let presence_penalty = optional::<JsonNumber>(m, "presence_penalty"@);
                let frequency_penalty = optional::<JsonNumber>(m, "frequency_penalty"@);
                let logit_bias = optional::<LogitBias>(m, "logit_bias"@);
                let user = optional::<String>(m, "user"@);
                let seed = optional::<i64>(m, "seed"@);
                let tools = optional::<Vec<Tool>>(m, "tools"@);
                let tool_choice = optional::<ToolChoiceType>(m, "tool_choice"@);
                let prettify_tools = optional::<bool>(m, "prettify_tools"@);
                let structure_output_decoding_mode = optional::<String>(
                    m,
                    "structure_output_decoding_mode"@,
                );
                let use_raw_output = optional::<bool>(m, "use_raw_output"@);
                let include_thinking = optional::<bool>(m, "include_thinking"@);
                let empower_metadata = optional::<EmpowerMetadata>(m, "empower_metadata"@);
                if model is Err {
                    Err(model->Err_0)
                } else if messages is Err {
                    Err(messages->Err_0)
                } else if temperature is Err {
                    Err(temperature->Err_0)
                } else if top_p is Err {
                    Err(top_p->Err_0)
                } else if n is Err {
                    Err(n->Err_0)
                } else if response_format is Err {
                    Err(response_format->Err_0)
                } else if stream is Err {
                    Err(stream->Err_0)
                } else if stop is Err {
                    Err(stop->Err_0)
                } else if max_tokens is Err {
                    Err(max_tokens->Err_0)
                } else if presence_penalty is Err {
                    Err(presence_penalty->Err_0)
                } else if frequency_penalty is Err {
                    Err(frequency_penalty->Err_0)
                } else if logit_bias is Err {
                    Err(logit_bias->Err_0)
                } else if user is Err {
                    Err(user->Err_0)
                } else if seed is Err {
                    Err(seed->Err_0)
                } else if tools is Err {
                    Err(tools->Err_0)
                } else if tool_choice is Err {
                    Err(tool_choice->Err_0)
                } else if prettify_tools is Err {
                    Err(prettify_tools->Err_0)
                } else if structure_output_decoding_mode is Err {
                    Err(structure_output_decoding_mode->Err_0)
                } else if use_raw_output is Err {
                    Err(use_raw_output->Err_0)
                } else if include_thinking is Err {
                    Err(include_thinking->Err_0)
                } else if empower_metadata is Err {
                    Err(empower_metadata->Err_0)
                } else {
                    Ok(
                        ChatCompletionRequestModel {
                            model: model->Ok_0,
                            messages: messages->Ok_0,
                            temperature: temperature->Ok_0,
                            top_p: top_p->Ok_0,
                            n: n->Ok_0,
                            response_format: response_format->Ok_0,
                            stream: stream->Ok_0,
                            stop: stop->Ok_0,
                            max_tokens: max_tokens->Ok_0,
                            presence_penalty: presence_penalty->Ok_0,
                            frequency_penalty: frequency_penalty->Ok_0,
                            logit_bias: logit_bias->Ok_0,
                            user: user->Ok_0,
                            seed: seed->Ok_0,
                            tools: tools->Ok_0,
                            tool_choice: tool_choice->Ok_0,
                            prettify_tools: prettify_tools->Ok_0,
                            structure_output_decoding_mode: structure_output_decoding_mode->Ok_0,
                            use_raw_output: use_raw_output->Ok_0,
                            include_thinking: include_thinking->Ok_0,
                            empower_metadata: empower_metadata->Ok_0,
                        },
                    )
                }
            },
        }
    }

    /// A response format that is set to `null` is written as `null`, which reads
    /// back as not set: every other request is read back unchanged.
    open spec fn faithful(v: ChatCompletionRequestModel) -> bool {
        !(v.response_format matches Some(Doc::Null))
    }

    fn serialize(&self) -> (r: Json) {
        let mut members: Vec<(String, Json)> = Vec::new();
        put(&mut members, "model", &self.model);
        put(&mut members, "messages", &self.messages);
        put_some(&mut members, "temperature", &self.temperature);
        put_some(&mut members, "top_p", &self.top_p);
        put_some(&mut members, "n", &self.n);
        put_some(&mut members, "response_format", &self.response_format);
        put_some(&mut members, "stream", &self.stream);
        put_some(&mut members, "stop", &self.stop);
        put_some(&mut members, "max_tokens", &self.max_tokens);
        put_some(&mut members, "presence_penalty", &self.presence_penalty);
        put_some(&mut members, "frequency_penalty", &self.frequency_penalty);
        put_some(&mut members, "logit_bias", &self.logit_bias);
        put_some(&mut members, "user", &self.user);
        put_some(&mut members, "seed", &self.seed);
        put_some(&mut members, "tools", &self.tools);
        if self.tool_choice.is_some() {
            put_json(&mut members, "tool_choice", serialize_tool_choice(&self.tool_choice));
        }
        put_some(&mut members, "prettify_tools", &self.prettify_tools);
        put_some(
            &mut members,
            "structure_output_decoding_mode",
            &self.structure_output_decoding_mode,
        );
        put_some(&mut members, "use_raw_output", &self.use_raw_output);
        put_some(&mut members, "include_thinking", &self.include_thinking);
        put_some(&mut members, "empower_metadata", &self.empower_metadata);
        Json::Object(members)
    }

    fn deserialize(json: &Json) -> (r: Result<Self, DecodeError>) {
        let members = members_of(json)?;
        let model = get_required::<String>(members, "model")?;
        let messages = get_required::<Vec<ChatCompletionMessage>>(members, "messages")?;
        let temperature = get_optional::<JsonNumber>(members, "temperature")?;
        let top_p = get_optional::<JsonNumber>(members, "top_p")?;
        let n = get_optional::<i64>(members, "n")?;
        let response_format = get_optional::<Json>(members, "response_format")?;
        let stream = get_optional::<bool>(members, "stream")?;
        let stop = get_optional::<Vec<String>>(members, "stop")?;
        let max_tokens = get_optional::<i64>(members, "max_tokens")?;
        let presence_penalty = get_optional::<JsonNumber>(members, "presence_penalty")?;
        let frequency_penalty = get_optional::<JsonNumber>(members, "frequency_penalty")?;
        let logit_bias = get_optional::<LogitBias>(members, "logit_bias")?;
        let user = get_optional::<String>(members, "user")?;
        let seed = get_optional::<i64>(members, "seed")?;
        let tools = get_optional::<Vec<Tool>>(members, "tools")?;
        let tool_choice = get_optional::<ToolChoiceType>(members, "tool_choice")?;
        let prettify_tools = get_optional::<bool>(members, "prettify_tools")?;
        let structure_output_decoding_mode = get_optional::<String>(
            members,
            "structure_output_decoding_mode",
        )?;
        let use_raw_output = get_optional::<bool>(members, "use_raw_output")?;
        let include_thinking = get_optional::<bool>(members, "include_thinking")?;
        let empower_metadata = get_optional::<EmpowerMetadata>(members, "empower_metadata")?;
        Ok(
            ChatCompletionRequest {
                model,
                messages,
                temperature,
                top_p,
                n,
                response_format,
                stream,
                stop,
                max_tokens,
                presence_penalty,
                frequency_penalty,
                logit_bias,
                user,
                seed,
                tools,
                tool_choice,
                prettify_tools,
                structure_output_decoding_mode,
                use_raw_output,
                include_thinking,
                empower_metadata,
            },
        )
    }

    proof fn lemma_round_trip(v: ChatCompletionRequestModel) {
        lemma_request_read_back(v);
    }
}

/// Reading the document of a request gives the request back, but for a
/// response format that was set to `null`, which is read as not set.
pub proof fn lemma_request_read_back(v: ChatCompletionRequestModel)
    ensures
        ChatCompletionRequest::decoded(ChatCompletionRequest::encoded(v)) == Ok::<
            ChatCompletionRequestModel,
            Failure,
        >(read_back(v)),
{
    lemma_request_lookups(v);
    Vec::<ChatCompletionMessage>::lemma_round_trip(v.messages);
    if let Some(x) = v.stop {
        Vec::<String>::lemma_round_trip(x);
    }
    if let Some(x) = v.logit_bias {
        LogitBias::lemma_round_trip(x);
    }
    if let Some(x) = v.tools {
        Vec::<Tool>::lemma_round_trip(x);
    }
    if let Some(x) = v.tool_choice {
        ToolChoiceType::lemma_round_trip(x);
    }
    if let Some(x) = v.empower_metadata {
        EmpowerMetadata::lemma_round_trip(x);
    }
    let m = request_members(v);
    assert(required::<String>(m, "model"@) == Ok::<Seq<char>, Failure>(read_back(v).model));
    assert(required::<Vec<ChatCompletionMessage>>(m, "messages"@) == Ok::<
        Seq<ChatCompletionMessageModel>,
        Failure,
    >(read_back(v).messages));
    assert(optional::<JsonNumber>(m, "temperature"@) == Ok::<Option<JsonNumber>, Failure>(
        read_back(v).temperature,
    ));
    assert(optional::<JsonNumber>(m, "top_p"@) == Ok::<Option<JsonNumber>, Failure>(
        read_back(v).top_p,
    ));
    assert(optional::<i64>(m, "n"@) == Ok::<Option<i64>, Failure>(read_back(v).n));
    assert(optional::<Json>(m, "response_format"@) == Ok::<Option<Doc>, Failure>(
        read_back(v).response_format,
    ));
    assert(optional::<bool>(m, "stream"@) == Ok::<Option<bool>, Failure>(read_back(v).stream));
    assert(optional::<Vec<String>>(m, "stop"@) == Ok::<Option<Seq<Seq<char>>>, Failure>(
        read_back(v).stop,
    ));
    assert(optional::<i64>(m, "max_tokens"@) == Ok::<Option<i64>, Failure>(
        read_back(v).max_tokens,
    ));
    assert(optional::<JsonNumber>(m, "presence_penalty"@) == Ok::<Option<JsonNumber>, Failure>(
        read_back(v).presence_penalty,
    ));
    assert(optional::<JsonNumber>(m, "frequency_penalty"@) == Ok::<Option<JsonNumber>, Failure>(
        read_back(v).frequency_penalty,
    ));
    assert(optional::<LogitBias>(m, "logit_bias"@) == Ok::<
        Option<Seq<(Seq<char>, i32)>>,
        Failure,
    >(read_back(v).logit_bias));
    assert(optional::<String>(m, "user"@) == Ok::<Option<Seq<char>>, Failure>(
        read_back(v).user,
    ));
    assert(optional::<i64>(m, "seed"@) == Ok::<Option<i64>, Failure>(read_back(v).seed));
    assert(optional::<Vec<Tool>>(m, "tools"@) == Ok::<Option<Seq<ToolModel>>, Failure>(
        read_back(v).tools,
    ));
    assert(optional::<ToolChoiceType>(m, "tool_choice"@) == Ok::<
        Option<ToolChoiceTypeModel>,
        Failure,
    >(read_back(v).tool_choice));
    assert(optional::<bool>(m, "prettify_tools"@) == Ok::<Option<bool>, Failure>(
        read_back(v).prettify_tools,
    ));
    assert(optional::<String>(m, "structure_output_decoding_mode"@) == Ok::<
        Option<Seq<char>>,
        Failure,
    >(read_back(v).structure_output_decoding_mode));
    assert(optional::<bool>(m, "use_raw_output"@) == Ok::<Option<bool>, Failure>(
        read_back(v).use_raw_output,
    ));
    assert(optional::<bool>(m, "include_thinking"@) == Ok::<Option<bool>, Failure>(
        read_back(v).include_thinking,
    ));
    assert(optional::<EmpowerMetadata>(m, "empower_metadata"@) == Ok::<
        Option<EmpowerMetadataModel>,
        Failure,
    >(read_back(v).empower_metadata));
}

impl ChatCompletionRequest {
    /// A request with the model and the conversation, and nothing else set.
    pub fn new(model: String, messages: Vec<ChatCompletionMessage>) -> (r: Self)
        ensures
            r.deep_view() == (ChatCompletionRequestModel {
                model: model@,
                messages: messages.deep_view(),
                temperature: None,
                top_p: None,
                n: None,
                response_format: None,
                stream: None,
                stop: None,
                max_tokens: None,
                presence_penalty: None,
                frequency_penalty: None,
                logit_bias: None,
                user: None,
                seed: None,
                tools: None,
                tool_choice: None,
                prettify_tools: None,
                structure_output_decoding_mode: None,
                use_raw_output: None,
                include_thinking: None,
                empower_metadata: None,
            }),
    {
        Self {
            model,
            messages,
            temperature: None,
            top_p: None,
            n: None,
            response_format: None,
            stream: None,
            stop: None,
            max_tokens: None,
            presence_penalty: None,
            frequency_penalty: None,
            logit_bias: None,
            user: None,
            seed: None,
            tools: None,
            tool_choice: None,
            prettify_tools: None,
            structure_output_decoding_mode: None,
            use_raw_output: None,
            include_thinking: None,
            empower_metadata: None,
        }
    }

    /// The request with `temperature` set to the value given, whatever it was before.
    pub fn temperature(self, temperature: JsonNumber) -> (r: Self)
        ensures
            r.deep_view() == (ChatCompletionRequestModel {
                temperature: Some(temperature.deep_view()),
                ..self.deep_view()
            }),
    {
        let mut r = self;
        r.temperature = Some(temperature);
        r
    }

    /// The request with `top_p` set to the value given, whatever it was before.
    pub fn top_p(self, top_p: JsonNumber) -> (r: Self)
        ensures
            r.deep_view() == (ChatCompletionRequestModel {
                top_p: Some(top_p.deep_view()),
                ..self.deep_view()
            }),
    {
        let mut r = self;
        r.top_p = Some(top_p);
        r
    }

    /// The request with `n` set to the value given, whatever it was before.
    pub fn n(self, n: i64) -> (r: Self)
        ensures
            r.deep_view() == (ChatCompletionRequestModel {
                n: Some(n.deep_view()),
                ..self.deep_view()
            }),
    {
        let mut r = self;
        r.n = Some(n);
        r
    }

    /// The request with `response_format` set to the value given, whatever it was before.
    pub fn response_format(self, response_format: Json) -> (r: Self)
        ensures
            r.deep_view() == (ChatCompletionRequestModel {
                response_format: Some(response_format.deep_view()),
                ..self.deep_view()
            }),
    {
        let mut r = self;
        r.response_format = Some(response_format);
        r
    }

    /// The request with `stream` set to the value given, whatever it was before.
    pub fn stream(self, stream: bool) -> (r: Self)
        ensures
            r.deep_view() == (ChatCompletionRequestModel {
                stream: Some(stream.deep_view()),
                ..self.deep_view()
            }),
    {
        let mut r = self;
        r.stream = Some(stream);
        r
    }

    /// The request with `stop` set to the value given, whatever it was before.
    pub fn stop(self, stop: Vec<String>) -> (r: Self)
        ensures
            r.deep_view() == (ChatCompletionRequestModel {
                stop: Some(stop.deep_view()),
                ..self.deep_view()
            }),
    {
        let mut r = self;
        r.stop = Some(stop);
        r
    }

    /// The request with `max_tokens` set to the value given, whatever it was before.
    pub fn max_tokens(self, max_tokens: i64) -> (r: Self)
        ensures
            r.deep_view() == (ChatCompletionRequestModel {
                max_tokens: Some(max_tokens.deep_view()),
                ..self.deep_view()
            }),
    {
        let mut r = self;
        r.max_tokens = Some(max_tokens);
        r
    }

    /// The request with `presence_penalty` set to the value given, whatever it was before.
    pub fn presence_penalty(self, presence_penalty: JsonNumber) -> (r: Self)
        ensures
            r.deep_view() == (ChatCompletionRequestModel {
                presence_penalty: Some(presence_penalty.deep_view()),
                ..self.deep_view()
            }),
    {
        let mut r = self;
        r.presence_penalty = Some(presence_penalty);
        r
    }

    /// The request with `frequency_penalty` set to the value given, whatever it was before.
    pub fn frequency_penalty(self, frequency_penalty: JsonNumber) -> (r: Self)
        ensures
            r.deep_view() == (ChatCompletionRequestModel {
                frequency_penalty: Some(frequency_penalty.deep_view()),
                ..self.deep_view()
            }),
    {
        let mut r = self;
        r.frequency_penalty = Some(frequency_penalty);
        r
    }

    /// The request with `logit_bias` set to the value given, whatever it was before.
    pub fn logit_bias(self, logit_bias: LogitBias) -> (r: Self)
        ensures
            r.deep_view() == (ChatCompletionRequestModel {
                logit_bias: Some(logit_bias.deep_view()),
                ..self.deep_view()
            }),
    {
        let mut r = self;
        r.logit_bias = Some(logit_bias);
        r
    }

    /// The request with `user` set to the value given, whatever it was before.
    pub fn user(self, user: String) -> (r: Self)
        ensures
            r.deep_view() == (ChatCompletionRequestModel {
                user: Some(user.deep_view()),
                ..self.deep_view()
            }),
    {
        let mut r = self;
        r.user = Some(user);
        r
    }

    /// The request with `seed` set to the value given, whatever it was before.
    pub fn seed(self, seed: i64) -> (r: Self)
        ensures
            r.deep_view() == (ChatCompletionRequestModel {
                seed: Some(seed.deep_view()),
                ..self.deep_view()
            }),
    {
        let mut r = self;
        r.seed = Some(seed);
        r
    }

    /// The request with `tools` set to the value given, whatever it was before.
    pub fn tools(self, tools: Vec<Tool>) -> (r: Self)
        ensures
            r.deep_view() == (ChatCompletionRequestModel {
                tools: Some(tools.deep_view()),
                ..self.deep_view()
            }),
    {
        let mut r = self;
        r.tools = Some(tools);
        r
    }

    /// The request with `tool_choice` set to the value given, whatever it was before.
    pub fn tool_choice(self, tool_choice: ToolChoiceType) -> (r: Self)
        ensures
            r.deep_view() == (ChatCompletionRequestModel {
                tool_choice: Some(tool_choice.deep_view()),
                ..self.deep_view()
            }),
    {
        let mut r = self;
        r.tool_choice = Some(tool_choice);
        r
    }
}

/// A field that is not set is not a member of the document: it is left out,
/// not written as `null`. The model and the messages are always members.
pub proof fn lemma_unset_fields_absent(v: ChatCompletionRequestModel)
    ensures
        lookup(request_members(v), "model"@) is Some,
        lookup(request_members(v), "messages"@) is Some,
        v.temperature is None <==> lookup(request_members(v), "temperature"@) is None,
        v.top_p is None <==> lookup(request_members(v), "top_p"@) is None,
        v.n is None <==> lookup(request_members(v), "n"@) is None,
        v.response_format is None <==> lookup(request_members(v), "response_format"@) is None,
        v.stream is None <==> lookup(request_members(v), "stream"@) is None,
        v.stop is None <==> lookup(request_members(v), "stop"@) is None,
        v.max_tokens is None <==> lookup(request_members(v), "max_tokens"@) is None,
        v.presence_penalty is None <==> lookup(request_members(v), "presence_penalty"@) is None,
        v.frequency_penalty is None <==> lookup(request_members(v), "frequency_penalty"@) is None,
        v.logit_bias is None <==> lookup(request_members(v), "logit_bias"@) is None,
        v.user is None <==> lookup(request_members(v), "user"@) is None,
        v.seed is None <==> lookup(request_members(v), "seed"@) is None,
        v.tools is None <==> lookup(request_members(v), "tools"@) is None,
        v.tool_choice is None <==> lookup(request_members(v), "tool_choice"@) is None,
        v.prettify_tools is None <==> lookup(request_members(v), "prettify_tools"@) is None,
        v.structure_output_decoding_mode is None <==> lookup(
            request_members(v),
            "structure_output_decoding_mode"@,
        ) is None,
        v.use_raw_output is None <==> lookup(request_members(v), "use_raw_output"@) is None,
        v.include_thinking is None <==> lookup(request_members(v), "include_thinking"@) is None,
        v.empower_metadata is None <==> lookup(request_members(v), "empower_metadata"@) is None,
{
    lemma_request_lookups(v);
}

/// A request without messages is written with the member `messages` holding
/// the empty array, and reading the document gives a request without
/// messages: the request that was written, where its response format is not
/// set to `null`.
pub proof fn lemma_empty_messages(v: ChatCompletionRequestModel)
    requires
        v.messages.len() == 0,
    ensures
        lookup(request_members(v), "messages"@) == Some(Doc::Array(Seq::empty())),
        ChatCompletionRequest::decoded(ChatCompletionRequest::encoded(v)) is Ok,
        ChatCompletionRequest::decoded(ChatCompletionRequest::encoded(v))->Ok_0.messages
            == Seq::<ChatCompletionMessageModel>::empty(),
        ChatCompletionRequest::faithful(v) ==> ChatCompletionRequest::decoded(
            ChatCompletionRequest::encoded(v),
        ) == Ok::<ChatCompletionRequestModel, Failure>(v),
{
    lemma_request_lookups(v);
    lemma_request_read_back(v);
    assert(encoded_all::<ChatCompletionMessage>(v.messages) =~= Seq::empty());
    assert(v.messages =~= Seq::empty());
}

} // verus!
