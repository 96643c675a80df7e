//! Tools a model may call: their declarations, the calls a model makes, and
//! the value that says whether and which tool to call.
use vstd::prelude::*;
use crate::codec::{
    encoded_nullable, encoded_some, get_optional, get_required, lemma_layer, members_of,
    object_members, optional, put, put_some, required, text_is, with, with_some, Members, Wire,
};
use crate::error::{fail, DecodeError, ErrorKind, Failure, Found, Wanted};
use crate::json::{found_of, lemma_lookup_push, lookup, Doc, Json};

verus! {

/// The kind of a tool.
#[derive(Debug, Clone, Copy, PartialEq, Eq, Structural)]
pub enum ToolType {
    /// A function the model may call.
    Function,
}

impl DeepView for ToolType {
    type V = ToolType;

    open spec fn deep_view(&self) -> ToolType {
        *self
    }
}

/// The tag a [`ToolType`] is written as.
pub open spec fn tool_type_tag(v: ToolType) -> Seq<char> {
    match v {
        ToolType::Function => "function"@,
    }
}

impl Wire for ToolType {
    /// A string: the tag.
    open spec fn encoded(v: ToolType) -> Doc {
        Doc::Str(tool_type_tag(v))
    }

    /// A string that is one of the tags, letter for letter.
    open spec fn decoded(d: Doc) -> Result<ToolType, Failure> {
        match d {
            Doc::Str(s) => if s == "function"@ {
                Ok(ToolType::Function)
            } else {
                Err(fail(ErrorKind::UnknownVariant, Wanted::Tag, Found::Text))
            },
            _ => Err(fail(ErrorKind::TypeMismatch, Wanted::Text, found_of(d))),
        }
    }

    open spec fn faithful(v: ToolType) -> bool {
        true
    }

    fn serialize(&self) -> (r: Json) {
        let tag = match self {
            ToolType::Function => "function",
        };
        Json::Str(String::from_str(tag))
    }

    fn deserialize(json: &Json) -> (r: Result<Self, DecodeError>) {
        match json {
            Json::Str(s) => if text_is(s, "function") {
                Ok(ToolType::Function)
            } else {
                Err(DecodeError::new(ErrorKind::UnknownVariant, Wanted::Tag, Found::Text))
            },
            _ => Err(DecodeError::new(ErrorKind::TypeMismatch, Wanted::Text, json.found())),
        }
    }

    proof fn lemma_round_trip(v: ToolType) {
        reveal_strlit("function");
        assert("function"@.len() == 8);
    }
}

/// The declaration of a function the model may call.
#[derive(Debug, Clone, PartialEq, Eq)]
pub struct Function {
    pub name: String,
    pub description: Option<String>,
    /// Any document; by convention a schema of the arguments.
    pub parameters: Json,
}

/// The mathematical value of a [`Function`].
pub struct FunctionModel {
    pub name: Seq<char>,
    pub description: Option<Seq<char>>,
    pub parameters: Doc,
}

impl DeepView for Function {
    type V = FunctionModel;

    open spec fn deep_view(&self) -> FunctionModel {
        FunctionModel {
            name: self.name.deep_view(),
            description: self.description.deep_view(),
            parameters: self.parameters.deep_view(),
        }
    }
}

/// The members a [`Function`] is written with: `name`, `description` where it
/// is set, and `parameters`, in this order.
pub open spec fn function_members(v: FunctionModel) -> Members {
    let m = Seq::<(Seq<char>, Doc)>::empty();
    let m = with::<String>(m, "name"@, v.name);
    let m = with_some::<String>(m, "description"@, v.description);
    let m = with::<Json>(m, "parameters"@, v.parameters);
    m
}

/// The place of a name among the members of a [`Function`]; -1 for a name that
/// is none of them.
pub open spec fn function_place(key: Seq<char>) -> int {
    if key == "name"@ {
        0
    } else if key == "description"@ {
        1
    } else if key == "parameters"@ {
        2
    } else {
        -1
    }
}

/// What is found under each name among the members of a [`Function`].
pub proof fn lemma_function_lookups(v: FunctionModel)
    ensures
        lookup(function_members(v), "name"@) == Some(String::encoded(v.name)),
        lookup(function_members(v), "description"@) == encoded_some::<String>(v.description),
        lookup(function_members(v), "parameters"@) == Some(Json::encoded(v.parameters)),
{
    reveal_strlit("name");
    reveal_strlit("description");
    reveal_strlit("parameters");
    assert("name"@.len() == 4);
    assert("description"@.len() == 11);
    assert("parameters"@.len() == 10);
    assert(function_place("name"@) == 0);
    assert(function_place("description"@) == 1);
    assert(function_place("parameters"@) == 2);
    let place = |key: Seq<char>| function_place(key);
    let m = Seq::<(Seq<char>, Doc)>::empty();
    assert(forall|key: Seq<char>| lookup(m, key) is None);
    let longer = with::<String>(m, "name"@, v.name);
    lemma_layer(m, longer, "name"@, place, 0);
    let m = longer;
    let longer = with_some::<String>(m, "description"@, v.description);
    lemma_layer(m, longer, "description"@, place, 1);
    let m = longer;
    let longer = with::<Json>(m, "parameters"@, v.parameters);
    lemma_layer(m, longer, "parameters"@, place, 2);
}

impl Wire for Function {
    /// An object with the members that [`function_members`] gives.
    open spec fn encoded(v: FunctionModel) -> Doc {
        Doc::Object(function_members(v))
    }

    /// The document has to be an object. Members are found by name, the first
    /// of a name counting; where several are at fault, the failure is that of
    /// the first in the order of the fields.
    open spec fn decoded(d: Doc) -> Result<FunctionModel, Failure> {
        match object_members(d) {
            Err(e) => Err(e),
            Ok(m) => {
                let name = required::<String>(m, "name"@);
                let description = optional::<String>(m, "description"@);
                let parameters = required::<Json>(m, "parameters"@);
                if name is Err {
                    Err(name->Err_0)
                } else if description is Err {
                    Err(description->Err_0)
                } else if parameters is Err {
                    Err(parameters->Err_0)
                } else {
                    Ok(
                        FunctionModel {
                            name: name->Ok_0,
                            description: description->Ok_0,
                            parameters: parameters->Ok_0,
                        },
                    )
                }
            },
        }
    }

    open spec fn faithful(v: FunctionModel) -> bool {
        true
    }

    fn serialize(&self) -> (r: Json) {
        let mut members: Vec<(String, Json)> = Vec::new();
        put(&mut members, "name", &self.name);
        put_some(&mut members, "description", &self.description);
        put(&mut members, "parameters", &self.parameters);
        Json::Object(members)
    }

    fn deserialize(json: &Json) -> (r: Result<Self, DecodeError>) {
        let members = members_of(json)?;
        let name = get_required::<String>(members, "name")?;
        let description = get_optional::<String>(members, "description")?;
        let parameters = get_required::<Json>(members, "parameters")?;
        Ok(Function { name, description, parameters })
    }

    proof fn lemma_round_trip(v: FunctionModel) {
        lemma_function_lookups(v);
        let m = function_members(v);
        assert(required::<String>(m, "name"@) == Ok::<Seq<char>, Failure>(v.name));
        assert(optional::<String>(m, "description"@) == Ok::<Option<Seq<char>>, Failure>(
            v.description,
        ));
        assert(required::<Json>(m, "parameters"@) == Ok::<Doc, Failure>(v.parameters));
    }
}

/// The declaration of a tool.
#[derive(Debug, Clone, PartialEq, Eq)]
pub struct Tool {
    /// Written as the member `type`.
    pub kind: ToolType,
    pub function: Function,
}

/// The mathematical value of a [`Tool`].
pub struct ToolModel {
    pub kind: ToolType,
    pub function: FunctionModel,
}

impl DeepView for Tool {
    type V = ToolModel;

    open spec fn deep_view(&self) -> ToolModel {
        ToolModel {
            kind: self.kind.deep_view(),
            function: self.function.deep_view(),
        }
    }
}

/// The members a [`Tool`] is written with: `type` and `function`, in this
/// order.
pub open spec fn tool_members(v: ToolModel) -> Members {
    let m = Seq::<(Seq<char>, Doc)>::empty();
    let m = with::<ToolType>(m, "type"@, v.kind);
    let m = with::<Function>(m, "function"@, v.function);
    m
}

/// The place of a name among the members of a [`Tool`]; -1 for a name that is
/// none of them.
pub open spec fn tool_place(key: Seq<char>) -> int {
    if key == "type"@ {
        0
    } else if key == "function"@ {
        1
    } else {
        -1
    }
}

/// What is found under each name among the members of a [`Tool`].
pub proof fn lemma_tool_lookups(v: ToolModel)
    ensures
        lookup(tool_members(v), "type"@) == Some(ToolType::encoded(v.kind)),
        lookup(tool_members(v), "function"@) == Some(Function::encoded(v.function)),
{
    reveal_strlit("type");
    reveal_strlit("function");
    assert("type"@.len() == 4);
    assert("function"@.len() == 8);
    assert(tool_place("type"@) == 0);
    assert(tool_place("function"@) == 1);
    let place = |key: Seq<char>| tool_place(key);
    let m = Seq::<(Seq<char>, Doc)>::empty();
    assert(forall|key: Seq<char>| lookup(m, key) is None);
    let longer = with::<ToolType>(m, "type"@, v.kind);
    lemma_layer(m, longer, "type"@, place, 0);
    let m = longer;
    let longer = with::<Function>(m, "function"@, v.function);
    lemma_layer(m, longer, "function"@, place, 1);
}

impl Wire for Tool {
    /// An object with the members that [`tool_members`] gives.
    open spec fn encoded(v: ToolModel) -> Doc {
        Doc::Object(tool_members(v))
    }

    /// The document has to be an object. Members are found by name, the first
    /// of a name counting; where several are at fault, the failure is that of
    /// the first in the order of the fields.
    open spec fn decoded(d: Doc) -> Result<ToolModel, Failure> {
        match object_members(d) {
            Err(e) => Err(e),
            Ok(m) => {
                let kind = required::<ToolType>(m, "type"@);
                let function = required::<Function>(m, "function"@);
                if kind is Err {
                    Err(kind->Err_0)
                } else if function is Err {
                    Err(function->Err_0)
                } else {
                    Ok(
                        ToolModel {
                            kind: kind->Ok_0,
                            function: function->Ok_0,
                        },
                    )
                }
            },
        }
    }

    open spec fn faithful(v: ToolModel) -> bool {
        true
    }

    fn serialize(&self) -> (r: Json) {
        let mut members: Vec<(String, Json)> = Vec::new();
        put(&mut members, "type", &self.kind);
        put(&mut members, "function", &self.function);
        Json::Object(members)
    }

    fn deserialize(json: &Json) -> (r: Result<Self, DecodeError>) {
        let members = members_of(json)?;
        let kind = get_required::<ToolType>(members, "type")?;
        let function = get_required::<Function>(members, "function")?;
        Ok(Tool { kind, function })
    }

    proof fn lemma_round_trip(v: ToolModel) {
        lemma_tool_lookups(v);
        ToolType::lemma_round_trip(v.kind);
        Function::lemma_round_trip(v.function);
        let m = tool_members(v);
        assert(required::<ToolType>(m, "type"@) == Ok::<ToolType, Failure>(v.kind));
        assert(required::<Function>(m, "function"@) == Ok::<FunctionModel, Failure>(v.function));
    }
}

/// The function a tool call names, and the arguments it hands over.
#[derive(Debug, Clone, PartialEq, Eq)]
pub struct ToolCallFunction {
    pub name: Option<String>,
    pub arguments: Option<String>,
}

/// The mathematical value of a [`ToolCallFunction`].
pub struct ToolCallFunctionModel {
    pub name: Option<Seq<char>>,
    pub arguments: Option<Seq<char>>,
}

impl DeepView for ToolCallFunction {
    type V = ToolCallFunctionModel;

    open spec fn deep_view(&self) -> ToolCallFunctionModel {
        ToolCallFunctionModel {
            name: self.name.deep_view(),
            arguments: self.arguments.deep_view(),
        }
    }
}

/// The members a [`ToolCallFunction`] is written with: those of `name` and
/// `arguments` that are set, in this order.
pub open spec fn tool_call_function_members(v: ToolCallFunctionModel) -> Members {
    let m = Seq::<(Seq<char>, Doc)>::empty();
    let m = with_some::<String>(m, "name"@, v.name);
    let m = with_some::<String>(m, "arguments"@, v.arguments);
    m
}

/// The place of a name among the members of a [`ToolCallFunction`]; -1 for a
/// name that is none of them.
pub open spec fn tool_call_function_place(key: Seq<char>) -> int {
    if key == "name"@ {
        0
    } else if key == "arguments"@ {
        1
    } else {
        -1
    }
}

/// What is found under each name among the members of a [`ToolCallFunction`].
pub proof fn lemma_tool_call_function_lookups(v: ToolCallFunctionModel)
    ensures
        lookup(tool_call_function_members(v), "name"@) == encoded_some::<String>(v.name),
        lookup(tool_call_function_members(v), "arguments"@) == encoded_some::<String>(v.arguments),
{
    reveal_strlit("name");
    reveal_strlit("arguments");
    assert("name"@.len() == 4);
    assert("arguments"@.len() == 9);
    assert(tool_call_function_place("name"@) == 0);
    assert(tool_call_function_place("arguments"@) == 1);
    let place = |key: Seq<char>| tool_call_function_place(key);
    let m = Seq::<(Seq<char>, Doc)>::empty();
    assert(forall|key: Seq<char>| lookup(m, key) is None);
    let longer = with_some::<String>(m, "name"@, v.name);
    lemma_layer(m, longer, "name"@, place, 0);
    let m = longer;
    let longer = with_some::<String>(m, "arguments"@, v.arguments);
    lemma_layer(m, longer, "arguments"@, place, 1);
}

impl Wire for ToolCallFunction {
    /// An object with the members that [`tool_call_function_members`] gives.
    open spec fn encoded(v: ToolCallFunctionModel) -> Doc {
        Doc::Object(tool_call_function_members(v))
    }

    /// The document has to be an object. Members are found by name, the first
    /// of a name counting; where several are at fault, the failure is that of
    /// the first in the order of the fields.
    open spec fn decoded(d: Doc) -> Result<ToolCallFunctionModel, Failure> {
        match object_members(d) {
            Err(e) => Err(e),
            Ok(m) => {
                let name = optional::<String>(m, "name"@);
                let arguments = optional::<String>(m, "arguments"@);
                if name is Err {
                    Err(name->Err_0)
                } else if arguments is Err {
                    Err(arguments->Err_0)
                } else {
                    Ok(
                        ToolCallFunctionModel {
                            name: name->Ok_0,
                            arguments: arguments->Ok_0,
                        },
                    )
                }
            },
        }
    }

    open spec fn faithful(v: ToolCallFunctionModel) -> bool {
        true
    }

    fn serialize(&self) -> (r: Json) {
        let mut members: Vec<(String, Json)> = Vec::new();
        put_some(&mut members, "name", &self.name);
        put_some(&mut members, "arguments", &self.arguments);
        Json::Object(members)
    }

    fn deserialize(json: &Json) -> (r: Result<Self, DecodeError>) {
        let members = members_of(json)?;
        let name = get_optional::<String>(members, "name")?;
        let arguments = get_optional::<String>(members, "arguments")?;
        Ok(ToolCallFunction { name, arguments })
    }

    proof fn lemma_round_trip(v: ToolCallFunctionModel) {
        lemma_tool_call_function_lookups(v);
        let m = tool_call_function_members(v);
        assert(optional::<String>(m, "name"@) == Ok::<Option<Seq<char>>, Failure>(v.name));
        assert(optional::<String>(m, "arguments"@) == Ok::<Option<Seq<char>>, Failure>(
            v.arguments,
        ));
    }
}

/// A call of a tool that the model asks for.
#[derive(Debug, Clone, PartialEq, Eq)]
pub struct ToolCall {
    pub id: String,
    /// Written as the member `type`.
    pub kind: String,
    pub function: ToolCallFunction,
}

/// The mathematical value of a [`ToolCall`].
pub struct ToolCallModel {
    pub id: Seq<char>,
    pub kind: Seq<char>,
    pub function: ToolCallFunctionModel,
}

impl DeepView for ToolCall {
    type V = ToolCallModel;

    open spec fn deep_view(&self) -> ToolCallModel {
        ToolCallModel {
            id: self.id.deep_view(),
            kind: self.kind.deep_view(),
            function: self.function.deep_view(),
        }
    }
}

/// The members a [`ToolCall`] is written with: `id`, `type` and `function`, in
/// this order.
pub open spec fn tool_call_members(v: ToolCallModel) -> Members {
    let m = Seq::<(Seq<char>, Doc)>::empty();
    let m = with::<String>(m, "id"@, v.id);
    let m = with::<String>(m, "type"@, v.kind);
    let m = with::<ToolCallFunction>(m, "function"@, v.function);
    m
}

/// The place of a name among the members of a [`ToolCall`]; -1 for a name that
/// is none of them.
pub open spec fn tool_call_place(key: Seq<char>) -> int {
    if key == "id"@ {
        0
    } else if key == "type"@ {
        1
    } else if key == "function"@ {
        2
    } else {
        -1
    }
}

/// What is found under each name among the members of a [`ToolCall`].
pub proof fn lemma_tool_call_lookups(v: ToolCallModel)
    ensures
        lookup(tool_call_members(v), "id"@) == Some(String::encoded(v.id)),
        lookup(tool_call_members(v), "type"@) == Some(String::encoded(v.kind)),
        lookup(tool_call_members(v), "function"@) == Some(ToolCallFunction::encoded(v.function)),
{
    reveal_strlit("id");
    reveal_strlit("type");
    reveal_strlit("function");
    assert("id"@.len() == 2);
    assert("type"@.len() == 4);
    assert("function"@.len() == 8);
    assert(tool_call_place("id"@) == 0);
    assert(tool_call_place("type"@) == 1);
    assert(tool_call_place("function"@) == 2);
    let place = |key: Seq<char>| tool_call_place(key);
    let m = Seq::<(Seq<char>, Doc)>::empty();
    assert(forall|key: Seq<char>| lookup(m, key) is None);
    let longer = with::<String>(m, "id"@, v.id);
    lemma_layer(m, longer, "id"@, place, 0);
    let m = longer;
    let longer = with::<String>(m, "type"@, v.kind);
    lemma_layer(m, longer, "type"@, place, 1);
    let m = longer;
    let longer = with::<ToolCallFunction>(m, "function"@, v.function);
    lemma_layer(m, longer, "function"@, place, 2);
}

impl Wire for ToolCall {
    /// An object with the members that [`tool_call_members`] gives.
    open spec fn encoded(v: ToolCallModel) -> Doc {
        Doc::Object(tool_call_members(v))
    }

    /// The document has to be an object. Members are found by name, the first
    /// of a name counting; where several are at fault, the failure is that of
    /// the first in the order of the fields.
    open spec fn decoded(d: Doc) -> Result<ToolCallModel, Failure> {
        match object_members(d) {
            Err(e) => Err(e),
            Ok(m) => {
                let id = required::<String>(m, "id"@);
                let kind = required::<String>(m, "type"@);
                let function = required::<ToolCallFunction>(m, "function"@);
                if id is Err {
                    Err(id->Err_0)
                } else if kind is Err {
                    Err(kind->Err_0)
                } else if function is Err {
                    Err(function->Err_0)
                } else {
                    Ok(
                        ToolCallModel {
                            id: id->Ok_0,
                            kind: kind->Ok_0,
                            function: function->Ok_0,
                        },
                    )
                }
            },
        }
    }

    open spec fn faithful(v: ToolCallModel) -> bool {
        true
    }

    fn serialize(&self) -> (r: Json) {
        let mut members: Vec<(String, Json)> = Vec::new();
        put(&mut members, "id", &self.id);
        put(&mut members, "type", &self.kind);
        put(&mut members, "function", &self.function);
        Json::Object(members)
    }

    fn deserialize(json: &Json) -> (r: Result<Self, DecodeError>) {
        let members = members_of(json)?;
        let id = get_required::<String>(members, "id")?;
        let kind = get_required::<String>(members, "type")?;
        let function = get_required::<ToolCallFunction>(members, "function")?;
        Ok(ToolCall { id, kind, function })
    }

    proof fn lemma_round_trip(v: ToolCallModel) {
        lemma_tool_call_lookups(v);
        ToolCallFunction::lemma_round_trip(v.function);
        let m = tool_call_members(v);
        assert(required::<String>(m, "id"@) == Ok::<Seq<char>, Failure>(v.id));
        assert(required::<String>(m, "type"@) == Ok::<Seq<char>, Failure>(v.kind));
        assert(required::<ToolCallFunction>(m, "function"@) == Ok::<ToolCallFunctionModel, Failure>(
            v.function,
        ));
    }
}
/// Whether the model is to call a tool, and which.
#[derive(Debug, Clone, PartialEq, Eq)]
pub enum ToolChoiceType {
    /// No tool is called.
    NoTool,
    /// The model decides.
    Auto,
    /// Some tool has to be called.
    Any,
    /// This tool has to be called.
    ToolChoice { tool: Tool },
}

/// The mathematical value of a [`ToolChoiceType`].
pub enum ToolChoiceTypeModel {
    NoTool,
    Auto,
    Any,
    ToolChoice { tool: ToolModel },
}

impl DeepView for ToolChoiceType {
    type V = ToolChoiceTypeModel;

    open spec fn deep_view(&self) -> ToolChoiceTypeModel {
        match self {
            ToolChoiceType::NoTool => ToolChoiceTypeModel::NoTool,
            ToolChoiceType::Auto => ToolChoiceTypeModel::Auto,
            ToolChoiceType::Any => ToolChoiceTypeModel::Any,
            ToolChoiceType::ToolChoice { tool } => ToolChoiceTypeModel::ToolChoice {
                tool: tool.deep_view(),
            },
        }
    }
}

impl Wire for ToolChoiceType {
    /// The first three are the strings `none`, `auto` and `any`. A chosen tool
    /// is an object with the tool's own `type` and `function`, in this order:
    /// the tool is not nested under a name of its own.
    open spec fn encoded(v: ToolChoiceTypeModel) -> Doc {
        match v {
            ToolChoiceTypeModel::NoTool => Doc::Str("none"@),
            ToolChoiceTypeModel::Auto => Doc::Str("auto"@),
            ToolChoiceTypeModel::Any => Doc::Str("any"@),
            ToolChoiceTypeModel::ToolChoice { tool } => Doc::Object(
                seq![
                    ("type"@, ToolType::encoded(tool.kind)),
                    ("function"@, Function::encoded(tool.function)),
                ],
            ),
        }
    }

    /// A string has to be `none`, `auto` or `any`, letter for letter. An
    /// object has to hold a tool's `type` and `function`. Nothing else is a
    /// tool choice.
    open spec fn decoded(d: Doc) -> Result<ToolChoiceTypeModel, Failure> {
        match d {
            Doc::Str(s) => if s == "none"@ {
                Ok(ToolChoiceTypeModel::NoTool)
            } else if s == "auto"@ {
                Ok(ToolChoiceTypeModel::Auto)
            } else if s == "any"@ {
                Ok(ToolChoiceTypeModel::Any)
            } else {
                Err(fail(ErrorKind::UnknownVariant, Wanted::Tag, Found::Text))
            },
            Doc::Object(_) => match Tool::decoded(d) {
                Ok(tool) => Ok(ToolChoiceTypeModel::ToolChoice { tool }),
                Err(e) => Err(e),
            },
            _ => Err(fail(ErrorKind::UnexpectedShape, Wanted::TextOrObject, found_of(d))),
        }
    }

    open spec fn faithful(v: ToolChoiceTypeModel) -> bool {
        true
    }

    fn serialize(&self) -> (r: Json) {
        match self {
            ToolChoiceType::NoTool => Json::Str(String::from_str("none")),
            ToolChoiceType::Auto => Json::Str(String::from_str("auto")),
            ToolChoiceType::Any => Json::Str(String::from_str("any")),
            ToolChoiceType::ToolChoice { tool } => {
                proof {
                    lemma_tool_members(tool.deep_view());
                }
                tool.serialize()
            },
        }
    }

    fn deserialize(json: &Json) -> (r: Result<Self, DecodeError>) {
        match json {
            Json::Str(s) => if text_is(s, "none") {
                Ok(ToolChoiceType::NoTool)
            } else if text_is(s, "auto") {
                Ok(ToolChoiceType::Auto)
            } else if text_is(s, "any") {
                Ok(ToolChoiceType::Any)
            } else {
                Err(DecodeError::new(ErrorKind::UnknownVariant, Wanted::Tag, Found::Text))
            },
            Json::Object(_) => {
                let tool = Tool::deserialize(json)?;
                Ok(ToolChoiceType::ToolChoice { tool })
            },
            _ => Err(
                DecodeError::new(ErrorKind::UnexpectedShape, Wanted::TextOrObject, json.found()),
            ),
        }
    }

    proof fn lemma_round_trip(v: ToolChoiceTypeModel) {
        reveal_strlit("none");
        reveal_strlit("auto");
        reveal_strlit("any");
        assert("none"@.len() == 4);
        assert("auto"@.len() == 4);
        assert("any"@.len() == 3);
        assert("none"@[0] == 'n');
        assert("auto"@[0] == 'a');
        match v {
            ToolChoiceTypeModel::ToolChoice { tool } => {
                lemma_tool_members(tool);
                Tool::lemma_round_trip(tool);
            },
            _ => {},
        }
    }
}

/// A tool is written as exactly two members: `type`, then `function`.
pub proof fn lemma_tool_members(tool: ToolModel)
    ensures
        Tool::encoded(tool) == Doc::Object(
            seq![
                ("type"@, ToolType::encoded(tool.kind)),
                ("function"@, Function::encoded(tool.function)),
            ],
        ),
{
    assert(Tool::encoded(tool)->Object_0 =~= seq![
        ("type"@, ToolType::encoded(tool.kind)),
        ("function"@, Function::encoded(tool.function)),
    ]);
}

/// Writes the tool choice of a request: `null` where there is none.
pub fn serialize_tool_choice(value: &Option<ToolChoiceType>) -> (r: Json)
    ensures
        r@ == encoded_nullable::<ToolChoiceType>(value.deep_view()),
{
    match value {
        Some(choice) => choice.serialize(),
        None => Json::Null,
    }
}

/// The three choices that name no tool are written as the strings `none`,
/// `auto` and `any`: never as an object, never as `null`.
pub proof fn lemma_bare_choices()
    ensures
        ToolChoiceType::encoded(ToolChoiceTypeModel::NoTool) == Doc::Str("none"@),
        ToolChoiceType::encoded(ToolChoiceTypeModel::Auto) == Doc::Str("auto"@),
        ToolChoiceType::encoded(ToolChoiceTypeModel::Any) == Doc::Str("any"@),
        "none"@ == seq!['n', 'o', 'n', 'e'],
        "auto"@ == seq!['a', 'u', 't', 'o'],
        "any"@ == seq!['a', 'n', 'y'],
{
    reveal_strlit("none");
    reveal_strlit("auto");
    reveal_strlit("any");
    assert("none"@ =~= seq!['n', 'o', 'n', 'e']);
    assert("auto"@ =~= seq!['a', 'u', 't', 'o']);
    assert("any"@ =~= seq!['a', 'n', 'y']);
}

/// A chosen tool is written as an object of exactly two members, `type` and
/// `function`, which hold what the tool's kind and the tool's function are
/// written as. No member is named `tool`.
pub proof fn lemma_chosen_tool(tool: ToolModel)
    ensures
        ToolChoiceType::encoded(ToolChoiceTypeModel::ToolChoice { tool }) is Object,
        ToolChoiceType::encoded(ToolChoiceTypeModel::ToolChoice { tool })->Object_0.len() == 2,
        ToolChoiceType::encoded(ToolChoiceTypeModel::ToolChoice { tool })->Object_0[0] == (
            "type"@,
            ToolType::encoded(tool.kind),
        ),
        ToolChoiceType::encoded(ToolChoiceTypeModel::ToolChoice { tool })->Object_0[1] == (
            "function"@,
            Function::encoded(tool.function),
        ),
        lookup(ToolChoiceType::encoded(ToolChoiceTypeModel::ToolChoice { tool })->Object_0, "tool"@)
            is None,
{
    broadcast use lemma_lookup_push;

    reveal_strlit("type");
    reveal_strlit("function");
    reveal_strlit("tool");
    assert("type"@.len() == 4);
    assert("function"@.len() == 8);
    assert("tool"@.len() == 4);
    assert("type"@[1] == 'y');
    assert("tool"@[1] == 'o');
    let none = Seq::<(Seq<char>, Doc)>::empty();
    assert(lookup(none, "tool"@) is None);
    let members = ToolChoiceType::encoded(ToolChoiceTypeModel::ToolChoice { tool })->Object_0;
    assert(members =~= none.push(("type"@, ToolType::encoded(tool.kind))).push(
        ("function"@, Function::encoded(tool.function)),
    ));
}

} // verus!
