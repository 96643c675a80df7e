//! Schemas that describe the parameters of a function: a tree of typed nodes.
use vstd::prelude::*;
use crate::codec::{
    encoded_some, get_optional, get_required, members_of, object_members, optional, outcome, put,
    put_json, put_some, required, text_is, with, with_some, Members, Wire,
};
use crate::error::{fail, DecodeError, ErrorKind, Failure, Found, Wanted};
use crate::json::{
    find, found_of, lemma_lookup_push, lemma_member_docs, lemma_member_docs_push, lookup,
    member_docs, Doc, Json,
};
use crate::ordered::{
    ascending, inserted, lemma_ascending_drop_last, lemma_inserted_ascending, lemma_inserted_at,
    lemma_inserted_values, lemma_insertion_order,
};
use crate::text::{precedes, text_precedes};

verus! {

/// How many levels of nested schemas the decoder follows.
pub const MAX_SCHEMA_DEPTH: usize = 64;

/// The type a schema node describes.
#[derive(Debug, Clone, Copy, PartialEq, Eq, Structural)]
pub enum JSONSchemaType {
    Object,
    Number,
    String,
    Array,
    Null,
    Boolean,
}

impl DeepView for JSONSchemaType {
    type V = JSONSchemaType;

    open spec fn deep_view(&self) -> JSONSchemaType {
        *self
    }
}

/// The tag a schema type is written as.
pub open spec fn schema_type_tag(t: JSONSchemaType) -> Seq<char> {
    match t {
        JSONSchemaType::Object => "object"@,
        JSONSchemaType::Number => "number"@,
        JSONSchemaType::String => "string"@,
        JSONSchemaType::Array => "array"@,
        JSONSchemaType::Null => "null"@,
        JSONSchemaType::Boolean => "boolean"@,
    }
}

impl Wire for JSONSchemaType {
    open spec fn encoded(v: JSONSchemaType) -> Doc {
        Doc::Str(schema_type_tag(v))
    }

    open spec fn decoded(d: Doc) -> Result<JSONSchemaType, Failure> {
        match d {
            Doc::Str(s) => if s == "object"@ {
                Ok(JSONSchemaType::Object)
            } else if s == "number"@ {
                Ok(JSONSchemaType::Number)
            } else if s == "string"@ {
                Ok(JSONSchemaType::String)
            } else if s == "array"@ {
                Ok(JSONSchemaType::Array)
            } else if s == "null"@ {
                Ok(JSONSchemaType::Null)
            } else if s == "boolean"@ {
                Ok(JSONSchemaType::Boolean)
            } else {
                Err(fail(ErrorKind::UnknownVariant, Wanted::Tag, Found::Text))
            },
            _ => Err(fail(ErrorKind::TypeMismatch, Wanted::Text, found_of(d))),
        }
    }

    open spec fn faithful(v: JSONSchemaType) -> bool {
        true
    }

    fn serialize(&self) -> (r: Json) {
        let tag = match self {
            JSONSchemaType::Object => "object",
            JSONSchemaType::Number => "number",
            JSONSchemaType::String => "string",
            JSONSchemaType::Array => "array",
            JSONSchemaType::Null => "null",
            JSONSchemaType::Boolean => "boolean",
        };
        Json::Str(String::from_str(tag))
    }

    fn deserialize(json: &Json) -> (r: Result<Self, DecodeError>) {
        match json {
            Json::Str(s) => if text_is(s, "object") {
                Ok(JSONSchemaType::Object)
            } else if text_is(s, "number") {
                Ok(JSONSchemaType::Number)
            } else if text_is(s, "string") {
                Ok(JSONSchemaType::String)
            } else if text_is(s, "array") {
                Ok(JSONSchemaType::Array)
            } else if text_is(s, "null") {
                Ok(JSONSchemaType::Null)
            } else if text_is(s, "boolean") {
                Ok(JSONSchemaType::Boolean)
            } else {
                Err(DecodeError::new(ErrorKind::UnknownVariant, Wanted::Tag, Found::Text))
            },
            _ => Err(DecodeError::new(ErrorKind::TypeMismatch, Wanted::Text, json.found())),
        }
    }

    proof fn lemma_round_trip(v: JSONSchemaType) {
        reveal_strlit("object");
        reveal_strlit("number");
        reveal_strlit("string");
        reveal_strlit("array");
        reveal_strlit("null");
        reveal_strlit("boolean");
        assert("object"@[0] != "number"@[0]);
        assert("object"@[0] != "string"@[0]);
        assert("number"@[0] != "string"@[0]);
        assert("object"@.len() == 6 && "array"@.len() == 5 && "null"@.len() == 4 && "boolean"@.len()
            == 7);
        match v {
            JSONSchemaType::Object => {},
            JSONSchemaType::Number => {},
            JSONSchemaType::String => {},
            JSONSchemaType::Array => {},
            JSONSchemaType::Null => {},
            JSONSchemaType::Boolean => {},
        }
    }
}

/// The named schemas of an object node, kept in ascending order of their
/// names, each name at most once.
#[derive(Debug, PartialEq, Eq)]
pub struct Properties {
    entries: Vec<(String, JSONSchemaDefine)>,
}

/// One node of a schema.
#[derive(Debug, PartialEq, Eq)]
pub struct JSONSchemaDefine {
    pub schema_type: JSONSchemaType,
    pub description: Option<String>,
    pub enum_values: Option<Vec<String>>,
    pub properties: Option<Properties>,
    pub required: Option<Vec<String>>,
    pub items: Option<Box<JSONSchemaDefine>>,
}

/// The mathematical value of a [`JSONSchemaDefine`]. Properties are a
/// sequence of named schemas.
pub struct SchemaModel {
    pub schema_type: JSONSchemaType,
    pub description: Option<Seq<char>>,
    pub enum_values: Option<Seq<Seq<char>>>,
    pub properties: Option<Seq<(Seq<char>, SchemaModel)>>,
    pub required: Option<Seq<Seq<char>>>,
    pub items: Option<Box<SchemaModel>>,
}

/// The value of a schema node.
pub open spec fn schema_model(s: JSONSchemaDefine) -> SchemaModel
    decreases s,
{
    SchemaModel {
        schema_type: s.schema_type,
        description: s.description.deep_view(),
        enum_values: s.enum_values.deep_view(),
        properties: match s.properties {
            Some(p) => Some(p.model()),
            None => None,
        },
        required: s.required.deep_view(),
        items: match s.items {
            Some(b) => Some(Box::new(schema_model(*b))),
            None => None,
        },
    }
}

/// The values of a sequence of named schemas.
pub open spec fn entry_models(entries: Seq<(String, JSONSchemaDefine)>) -> Seq<
    (Seq<char>, SchemaModel),
>
    decreases entries,
{
    if entries.len() == 0 {
        Seq::empty()
    } else {
        entry_models(entries.drop_last()).push((entries.last().0@, schema_model(entries.last().1)))
    }
}

/// `entry_models` keeps the length and maps each entry to its name and the
/// value of its schema.
pub proof fn lemma_entry_models(entries: Seq<(String, JSONSchemaDefine)>)
    ensures
        entry_models(entries).len() == entries.len(),
        forall|i: int|
            0 <= i < entries.len() ==> #[trigger] entry_models(entries)[i] == (
                entries[i].0@,
                schema_model(entries[i].1),
            ),
    decreases entries.len(),
{
    if entries.len() > 0 {
        lemma_entry_models(entries.drop_last());
    }
}

impl DeepView for JSONSchemaDefine {
    type V = SchemaModel;

    open spec fn deep_view(&self) -> SchemaModel {
        schema_model(*self)
    }
}

impl Properties {
    #[verifier::type_invariant]
    spec fn names_ascend(self) -> bool {
        forall|i: int, j: int|
            0 <= i < j < self.entries@.len() ==> precedes(
                #[trigger] self.entries@[i].0@,
                #[trigger] self.entries@[j].0@,
            )
    }

    /// The named schemas, in ascending order of their names.
    pub closed spec fn model(&self) -> Seq<(Seq<char>, SchemaModel)>
        decreases self,
    {
        entry_models(self.entries@)
    }

    /// No properties.
    pub fn new() -> (r: Self)
        ensures
            r.model() == Seq::<(Seq<char>, SchemaModel)>::empty(),
    {
        Properties { entries: Vec::new() }
    }

    /// How many properties there are.
    pub fn len(&self) -> (r: usize)
        ensures
            r == self.model().len(),
    {
        proof {
            lemma_entry_models(self.entries@);
        }
        self.entries.len()
    }

    /// The name of the property at place `i`, counted in ascending order.
    pub fn name_at(&self, i: usize) -> (r: &String)
        requires
            i < self.model().len(),
        ensures
            r@ == self.model()[i as int].0,
    {
        proof {
            lemma_entry_models(self.entries@);
        }
        &self.entries[i].0
    }

    /// The schema of the property at place `i`, counted in ascending order.
    pub fn schema_at(&self, i: usize) -> (r: &JSONSchemaDefine)
        requires
            i < self.model().len(),
        ensures
            schema_model(*r) == self.model()[i as int].1,
    {
        proof {
            lemma_entry_models(self.entries@);
        }
        &self.entries[i].1
    }

    /// The schema of the property named `key`.
    pub fn get(&self, key: &str) -> (r: Option<&JSONSchemaDefine>)
        ensures
            match r {
                Some(s) => lookup(self.model(), key@) == Some(schema_model(*s)),
                None => lookup(self.model(), key@) is None,
            },
    {
        let wanted = String::from_str(key);
        let ghost all = self.model();
        proof {
            use_type_invariant(self);
            lemma_entry_models(self.entries@);
        }
        let mut i: usize = 0;
        while i < self.entries.len()
            invariant
                i <= self.entries.len(),
                wanted@ == key@,
                all == entry_models(self.entries@),
                all.len() == self.entries@.len(),
                forall|k: int|
                    0 <= k < self.entries@.len() ==> #[trigger] all[k] == (
                        self.entries@[k].0@,
                        schema_model(self.entries@[k].1),
                    ),
                lookup(all.take(i as int), key@) is None,
            decreases self.entries.len() - i,
        {
            proof {
                assert(all.take(i + 1).drop_last() =~= all.take(i as int));
                assert(all.take(i + 1).last() == all[i as int]);
            }
            if self.entries[i].0 == wanted {
                proof {
                    crate::json::lemma_lookup_prefix(all, i + 1, key@);
                }
                return Some(&self.entries[i].1);
            }
            i += 1;
        }
        proof {
            assert(all.take(i as int) =~= all);
        }
        None
    }

    /// Puts `value` under `key`, in place of the schema that was there if
    /// there was one.
    pub fn insert(&mut self, key: String, value: JSONSchemaDefine)
        ensures
            final(self).model() == inserted(old(self).model(), key@, schema_model(value)),
    {
        let ghost before = self.entries@;
        let ghost all = entry_models(before);
        proof {
            use_type_invariant(&*self);
            lemma_entry_models(before);
        }
        let mut entries: Vec<(String, JSONSchemaDefine)> = Vec::new();
        core::mem::swap(&mut entries, &mut self.entries);
        let mut i: usize = 0;
        while i < entries.len() && text_precedes(entries[i].0.as_str(), key.as_str())
            invariant
                i <= entries.len(),
                entries@ == before,
                forall|k: int| 0 <= k < i ==> precedes(#[trigger] before[k].0@, key@),
            decreases entries.len() - i,
        {
            i += 1;
        }
        proof {
            assert forall|a: int, b: int| 0 <= a < b < all.len() implies precedes(
                #[trigger] all[a].0,
                #[trigger] all[b].0,
            ) by {
                assert(precedes(before[a].0@, before[b].0@));
            }
            assert forall|k: int| 0 <= k < i implies precedes(#[trigger] all[k].0, key@) by {
                assert(precedes(before[k].0@, key@));
            }
            lemma_inserted_at(all, key@, schema_model(value), i as int);
            lemma_inserted_ascending(all, key@, schema_model(value));
        }
        let ghost target = inserted(all, key@, schema_model(value));
        if i < entries.len() && entries[i].0 == key {
            entries.set(i, (key, value));
        } else {
            entries.insert(i, (key, value));
        }
        proof {
            lemma_entry_models(entries@);
            assert(entry_models(entries@) =~= target);
            assert forall|a: int, b: int| 0 <= a < b < entries@.len() implies precedes(
                #[trigger] entries@[a].0@,
                #[trigger] entries@[b].0@,
            ) by {
                assert(precedes(target[a].0, target[b].0));
            }
        }
        core::mem::swap(&mut entries, &mut self.entries);
    }
}

impl DeepView for Properties {
    type V = Seq<(Seq<char>, SchemaModel)>;

    open spec fn deep_view(&self) -> Seq<(Seq<char>, SchemaModel)> {
        self.model()
    }
}

/// The members a list of named schemas is written as, in the order of the
/// list.
pub open spec fn properties_encoded(entries: Seq<(Seq<char>, SchemaModel)>) -> Members
    decreases entries,
{
    if entries.len() == 0 {
        Seq::empty()
    } else {
        properties_encoded(entries.drop_last()).push(
            (entries.last().0, schema_encoded(entries.last().1)),
        )
    }
}

/// The `properties` member a node is written with: none where the node has
/// no properties.
pub open spec fn properties_doc(properties: Option<Seq<(Seq<char>, SchemaModel)>>) -> Option<Doc>
    decreases properties,
{
    match properties {
        Some(p) => Some(Doc::Object(properties_encoded(p))),
        None => None,
    }
}

/// The document a schema node is written as: an object with `type` and, of
/// `description`, `enum_values`, `properties`, `required` and `items`, those
/// that are set, in this order.
pub open spec fn schema_encoded(s: SchemaModel) -> Doc
    decreases s,
{
    let m = with::<JSONSchemaType>(Seq::empty(), "type"@, s.schema_type);
    let m = with_some::<String>(m, "description"@, s.description);
    let m = with_some::<Vec<String>>(m, "enum_values"@, s.enum_values);
    let m = with_some::<Json>(m, "properties"@, properties_doc(s.properties));
    let m = with_some::<Vec<String>>(m, "required"@, s.required);
    let m = with_some::<Json>(
        m,
        "items"@,
        match s.items {
            Some(b) => Some(schema_encoded(*b)),
            None => None,
        },
    );
    Doc::Object(m)
}

/// The schema node a document is read as when `room` more levels may be
/// entered, the node itself counted.
pub open spec fn schema_decoded(d: Doc, room: nat) -> Result<SchemaModel, Failure>
    decreases room, 0nat, 0nat,
{
    if room == 0 {
        Err(fail(ErrorKind::DepthExceeded, Wanted::Shallower, found_of(d)))
    } else {
        match object_members(d) {
            Err(e) => Err(e),
            Ok(m) => {
                let schema_type = required::<JSONSchemaType>(m, "type"@);
                let description = optional::<String>(m, "description"@);
                let enum_values = optional::<Vec<String>>(m, "enum_values"@);
                let properties = properties_member(m, (room - 1) as nat);
                let required_names = optional::<Vec<String>>(m, "required"@);
                let items: Result<Option<Box<SchemaModel>>, Failure> = match lookup(m, "items"@) {
                    None => Ok(None),
                    Some(Doc::Null) => Ok(None),
                    Some(inner) => match schema_decoded(inner, (room - 1) as nat) {
                        Ok(s) => Ok(Some(Box::new(s))),
                        Err(e) => Err(e.at_key("items"@)),
                    },
                };
                if schema_type is Err {
                    Err(schema_type->Err_0)
                } else if description is Err {
                    Err(description->Err_0)
                } else if enum_values is Err {
                    Err(enum_values->Err_0)
                } else if properties is Err {
                    Err(properties->Err_0)
                } else if required_names is Err {
                    Err(required_names->Err_0)
                } else if items is Err {
                    Err(items->Err_0)
                } else {
                    Ok(
                        SchemaModel {
                            schema_type: schema_type->Ok_0,
                            description: description->Ok_0,
                            enum_values: enum_values->Ok_0,
                            properties: properties->Ok_0,
                            required: required_names->Ok_0,
                            items: items->Ok_0,
                        },
                    )
                }
            },
        }
    }
}

/// The properties read from the member `properties` of an object: none where
/// the member is absent or `null`; else the member has to be an object, and
/// each of its members a schema that may enter `room` levels.
pub open spec fn properties_member(m: Members, room: nat) -> Result<
    Option<Seq<(Seq<char>, SchemaModel)>>,
    Failure,
>
    decreases room, 2nat, 0nat,
{
    match lookup(m, "properties"@) {
        None => Ok(None),
        Some(Doc::Null) => Ok(None),
        Some(Doc::Object(named)) => match properties_decoded(named, room) {
            Ok(p) => Ok(Some(p)),
            Err(e) => Err(e.at_key("properties"@)),
        },
        Some(other) => Err(
            fail(ErrorKind::TypeMismatch, Wanted::Object, found_of(other)).at_key("properties"@),
        ),
    }
}

/// The named schemas read from the members of a `properties` object: each
/// member in turn is put under its name, so a name that occurs again takes
/// the place of the earlier one, and the result is in ascending order.
pub open spec fn properties_decoded(named: Members, room: nat) -> Result<
    Seq<(Seq<char>, SchemaModel)>,
    Failure,
>
    decreases room, 1nat, named.len(),
{
    if named.len() == 0 {
        Ok(Seq::empty())
    } else {
        match properties_decoded(named.drop_last(), room) {
            Err(e) => Err(e),
            Ok(entries) => match schema_decoded(named.last().1, room) {
                Ok(s) => Ok(inserted(entries, named.last().0, s)),
                Err(e) => Err(e.at_key(named.last().0)),
            },
        }
    }
}

/// A failure among the first members of a `properties` object is the failure
/// of the whole object.
pub proof fn lemma_properties_decoded_prefix(named: Members, room: nat, n: int)
    requires
        0 <= n <= named.len(),
        properties_decoded(named.take(n), room) is Err,
    ensures
        properties_decoded(named, room) == properties_decoded(named.take(n), room),
    decreases named.len() - n,
{
    if n < named.len() {
        assert(named.take(n + 1).drop_last() =~= named.take(n));
        lemma_properties_decoded_prefix(named, room, n + 1);
    } else {
        assert(named.take(n) =~= named);
    }
}

/// Holds of a schema that has at most `room` levels and whose properties, at
/// every level, are in ascending order of their names.
pub open spec fn fits(s: SchemaModel, room: nat) -> bool
    decreases room,
{
    &&& room > 0
    &&& match s.properties {
        Some(p) => ascending(p) && forall|i: int|
            0 <= i < p.len() ==> fits(#[trigger] p[i].1, (room - 1) as nat),
        None => true,
    }
    &&& match s.items {
        Some(b) => fits(*b, (room - 1) as nat),
        None => true,
    }
}

/// Holds of a schema whose properties, at every level, are in ascending order
/// of their names.
pub open spec fn in_order(s: SchemaModel) -> bool
    decreases s,
{
    &&& match s.properties {
        Some(p) => ascending(p) && forall|i: int| 0 <= i < p.len() ==> in_order(#[trigger] p[i].1),
        None => true,
    }
    &&& match s.items {
        Some(b) => in_order(*b),
        None => true,
    }
}

/// How many levels a schema has, the node itself counted.
pub open spec fn depth(s: SchemaModel) -> nat
    decreases s,
{
    let below = match s.items {
        Some(b) => depth(*b),
        None => 0,
    };
    1 + vstd::math::max(
        below as int,
        match s.properties {
            Some(p) => deepest(p) as int,
            None => 0,
        },
    ) as nat
}

/// The depth of the deepest schema of a list.
pub open spec fn deepest(p: Seq<(Seq<char>, SchemaModel)>) -> nat
    decreases p,
{
    if p.len() == 0 {
        0
    } else {
        vstd::math::max(deepest(p.drop_last()) as int, depth(p.last().1) as int) as nat
    }
}

/// No schema of a list is deeper than the deepest.
pub proof fn lemma_deepest(p: Seq<(Seq<char>, SchemaModel)>, i: int)
    requires
        0 <= i < p.len(),
    ensures
        depth(p[i].1) <= deepest(p),
    decreases p.len(),
{
    if i < p.len() - 1 {
        lemma_deepest(p.drop_last(), i);
    }
}

/// A schema in order that has at most `room` levels fits in `room` levels.
pub proof fn lemma_in_order_fits(s: SchemaModel, room: nat)
    requires
        in_order(s),
        depth(s) <= room,
    ensures
        fits(s, room),
    decreases room,
{
    if let Some(p) = s.properties {
        assert forall|i: int| 0 <= i < p.len() implies fits(
            #[trigger] p[i].1,
            (room - 1) as nat,
        ) by {
            lemma_deepest(p, i);
            lemma_in_order_fits(p[i].1, (room - 1) as nat);
        }
    }
    if let Some(b) = s.items {
        lemma_in_order_fits(*b, (room - 1) as nat);
    }
}

impl JSONSchemaDefine {
    /// A node of the given type with nothing else set.
    pub fn new(schema_type: JSONSchemaType) -> (r: Self)
        ensures
            schema_model(r) == (SchemaModel {
                schema_type,
                description: None,
                enum_values: None,
                properties: None,
                required: None,
                items: None,
            }),
    {
        JSONSchemaDefine {
            schema_type,
            description: None,
            enum_values: None,
            properties: None,
            required: None,
            items: None,
        }
    }

    /// Writes the node and all below it. At every level the properties are
    /// written in ascending order of their names.
    pub fn to_json(&self) -> (r: Json)
        ensures
            r@ == schema_encoded(schema_model(*self)),
            in_order(schema_model(*self)),
        decreases self,
    {
        let mut members: Vec<(String, Json)> = Vec::new();
        put(&mut members, "type", &self.schema_type);
        put_some(&mut members, "description", &self.description);
        put_some(&mut members, "enum_values", &self.enum_values);
        match &self.properties {
            Some(p) => {
                put_json(&mut members, "properties", Json::Object(p.to_members()));
            },
            None => {},
        }
        put_some(&mut members, "required", &self.required);
        match &self.items {
            Some(b) => {
                put_json(&mut members, "items", b.to_json());
            },
            None => {},
        }
        proof {
            let s = schema_model(*self);
            let m = with::<JSONSchemaType>(Seq::empty(), "type"@, s.schema_type);
            let m = with_some::<String>(m, "description"@, s.description);
            let m = with_some::<Vec<String>>(m, "enum_values"@, s.enum_values);
            let m = with_some::<Json>(m, "properties"@, properties_doc(s.properties));
            let m = with_some::<Vec<String>>(m, "required"@, s.required);
            assert(member_docs(members@) == with_some::<Json>(
                m,
                "items"@,
                match s.items {
                    Some(b) => Some(schema_encoded(*b)),
                    None => None,
                },
            ));
        }
        Json::Object(members)
    }

    /// Reads a node and all below it, entering at most `room` levels, the
    /// node itself counted.
    pub fn from_json(json: &Json, room: usize) -> (r: Result<Self, DecodeError>)
        ensures
            outcome(r) == schema_decoded(json@, room as nat),
        decreases room, 0nat, 0nat,
    {
        if room == 0 {
            return Err(DecodeError::new(ErrorKind::DepthExceeded, Wanted::Shallower, json.found()));
        }
        let members = members_of(json)?;
        let schema_type = get_required::<JSONSchemaType>(members, "type")?;
        let description = get_optional::<String>(members, "description")?;
        let enum_values = get_optional::<Vec<String>>(members, "enum_values")?;
        let properties = Properties::from_member(members, room - 1)?;
        let required = get_optional::<Vec<String>>(members, "required")?;
        let items = match find(members, "items") {
            None => None,
            Some(Json::Null) => None,
            Some(inner) => match JSONSchemaDefine::from_json(inner, room - 1) {
                Ok(s) => Some(Box::new(s)),
                Err(e) => {
                    return Err(e.at_key("items"));
                },
            },
        };
        Ok(JSONSchemaDefine { schema_type, description, enum_values, properties, required, items })
    }
}

impl Properties {
    /// The members the properties are written as, in ascending order of
    /// their names.
    #[verifier::loop_isolation(false)]
    pub fn to_members(&self) -> (r: Vec<(String, Json)>)
        ensures
            member_docs(r@) == properties_encoded(self.model()),
            ascending(self.model()),
            forall|i: int| 0 <= i < self.model().len() ==> in_order(#[trigger] self.model()[i].1),
        decreases self,
    {
        let mut out: Vec<(String, Json)> = Vec::new();
        let ghost all = self.model();
        proof {
            use_type_invariant(self);
            lemma_entry_models(self.entries@);
            assert(all.take(0) =~= Seq::empty());
            assert forall|a: int, b: int| 0 <= a < b < all.len() implies precedes(
                #[trigger] all[a].0,
                #[trigger] all[b].0,
            ) by {
                assert(precedes(self.entries@[a].0@, self.entries@[b].0@));
            }
        }
        let mut i: usize = 0;
        while i < self.entries.len()
            invariant
                i <= self.entries.len(),
                member_docs(out@) == properties_encoded(all.take(i as int)),
                forall|k: int| 0 <= k < i ==> in_order(#[trigger] all[k].1),
            decreases self.entries.len() - i,
        {
            let member = (self.entries[i].0.clone(), self.entries[i].1.to_json());
            proof {
                lemma_member_docs_push(out@, member);
                assert(all.take(i + 1).drop_last() =~= all.take(i as int));
                assert(all.take(i + 1).last() == all[i as int]);
            }
            out.push(member);
            i += 1;
        }
        proof {
            assert(all.take(i as int) =~= all);
        }
        out
    }

    /// Reads the member `properties` of an object, each schema in it
    /// entering at most `room` levels.
    pub fn from_member(members: &Vec<(String, Json)>, room: usize) -> (r: Result<
        Option<Self>,
        DecodeError,
    >)
        ensures
            outcome(r) == properties_member(member_docs(members@), room as nat),
        decreases room, 2nat, 0nat,
    {
        match find(members, "properties") {
            None => Ok(None),
            Some(Json::Null) => Ok(None),
            Some(Json::Object(named)) => match Properties::from_members(named, room) {
                Ok(p) => Ok(Some(p)),
                Err(e) => Err(e.at_key("properties")),
            },
            Some(other) => Err(
                DecodeError::new(ErrorKind::TypeMismatch, Wanted::Object, other.found()).at_key(
                    "properties",
                ),
            ),
        }
    }

    /// Reads the members of a `properties` object, each schema in it
    /// entering at most `room` levels.
    #[verifier::loop_isolation(false)]
    pub fn from_members(named: &Vec<(String, Json)>, room: usize) -> (r: Result<Self, DecodeError>)
        ensures
            outcome(r) == properties_decoded(member_docs(named@), room as nat),
        decreases room, 1nat, named.len(),
    {
        let ghost all = member_docs(named@);
        proof {
            lemma_member_docs(named@);
            assert(all.take(0) =~= Seq::empty());
        }
        let mut out = Properties::new();
        let mut i: usize = 0;
        while i < named.len()
            invariant
                i <= named.len(),
                properties_decoded(all.take(i as int), room as nat) == Ok::<
                    Seq<(Seq<char>, SchemaModel)>,
                    Failure,
                >(out.model()),
            decreases named.len() - i,
        {
            proof {
                assert(all.take(i + 1).drop_last() =~= all.take(i as int));
                assert(all.take(i + 1).last() == all[i as int]);
            }
            match JSONSchemaDefine::from_json(&named[i].1, room) {
                Ok(s) => {
                    out.insert(named[i].0.clone(), s);
                },
                Err(e) => {
                    proof {
                        lemma_properties_decoded_prefix(all, room as nat, i + 1);
                    }
                    return Err(e.at_key(named[i].0.as_str()));
                },
            }
            i += 1;
        }
        proof {
            assert(all.take(i as int) =~= all);
        }
        Ok(out)
    }
}

impl Wire for JSONSchemaDefine {
    open spec fn encoded(v: SchemaModel) -> Doc {
        schema_encoded(v)
    }

    open spec fn decoded(d: Doc) -> Result<SchemaModel, Failure> {
        schema_decoded(d, MAX_SCHEMA_DEPTH as nat)
    }

    open spec fn faithful(v: SchemaModel) -> bool {
        fits(v, MAX_SCHEMA_DEPTH as nat)
    }

    fn serialize(&self) -> (r: Json) {
        self.to_json()
    }

    fn deserialize(json: &Json) -> (r: Result<Self, DecodeError>) {
        JSONSchemaDefine::from_json(json, MAX_SCHEMA_DEPTH)
    }

    proof fn lemma_round_trip(v: SchemaModel) {
        lemma_schema_round_trip(v, MAX_SCHEMA_DEPTH as nat);
    }
}

/// The names under which a schema node's members are written differ from one
/// another.
proof fn lemma_schema_keys()
    ensures
        "type"@ != "description"@,
        "type"@ != "enum_values"@,
        "type"@ != "properties"@,
        "type"@ != "required"@,
        "type"@ != "items"@,
        "description"@ != "enum_values"@,
        "description"@ != "properties"@,
        "description"@ != "required"@,
        "description"@ != "items"@,
        "enum_values"@ != "properties"@,
        "enum_values"@ != "required"@,
        "enum_values"@ != "items"@,
        "properties"@ != "required"@,
        "properties"@ != "items"@,
        "required"@ != "items"@,
{
    reveal_strlit("type");
    reveal_strlit("description");
    reveal_strlit("enum_values");
    reveal_strlit("properties");
    reveal_strlit("required");
    reveal_strlit("items");
    assert("type"@.len() == 4);
    assert("description"@.len() == 11);
    assert("enum_values"@.len() == 11);
    assert("properties"@.len() == 10);
    assert("required"@.len() == 8);
    assert("items"@.len() == 5);
    assert("description"@[0] != "enum_values"@[0]);
}

/// What is found under each name in the document of a schema node.
proof fn lemma_schema_lookups(s: SchemaModel)
    ensures
        schema_encoded(s) is Object,
        lookup(schema_encoded(s)->Object_0, "type"@) == Some(
            JSONSchemaType::encoded(s.schema_type),
        ),
        lookup(schema_encoded(s)->Object_0, "description"@) == encoded_some::<String>(
            s.description,
        ),
        lookup(schema_encoded(s)->Object_0, "enum_values"@) == encoded_some::<Vec<String>>(
            s.enum_values,
        ),
        lookup(schema_encoded(s)->Object_0, "properties"@) == properties_doc(s.properties),
        lookup(schema_encoded(s)->Object_0, "required"@) == encoded_some::<Vec<String>>(
            s.required,
        ),
        lookup(schema_encoded(s)->Object_0, "items"@) == (match s.items {
            Some(b) => Some(schema_encoded(*b)),
            None => None,
        }),
{
    broadcast use lemma_lookup_push;

    lemma_schema_keys();
    let none = Seq::<(Seq<char>, Doc)>::empty();
    assert(forall|key: Seq<char>| lookup(none, key) is None);
}

/// Decoding the document of a schema that fits in `room` levels gives the
/// schema back.
pub proof fn lemma_schema_round_trip(s: SchemaModel, room: nat)
    requires
        fits(s, room),
    ensures
        schema_decoded(schema_encoded(s), room) == Ok::<SchemaModel, Failure>(s),
    decreases room, 0nat, 0nat,
{
    lemma_schema_lookups(s);
    JSONSchemaType::lemma_round_trip(s.schema_type);
    if let Some(v) = s.enum_values {
        Vec::<String>::lemma_round_trip(v);
    }
    if let Some(v) = s.required {
        Vec::<String>::lemma_round_trip(v);
    }
    if let Some(p) = s.properties {
        lemma_properties_round_trip(p, (room - 1) as nat);
    }
    if let Some(b) = s.items {
        lemma_schema_round_trip(*b, (room - 1) as nat);
    }
    let m = schema_encoded(s)->Object_0;
    assert(required::<JSONSchemaType>(m, "type"@) == Ok::<JSONSchemaType, Failure>(s.schema_type));
    assert(optional::<String>(m, "description"@) == Ok::<Option<Seq<char>>, Failure>(
        s.description,
    ));
    assert(optional::<Vec<String>>(m, "enum_values"@) == Ok::<Option<Seq<Seq<char>>>, Failure>(
        s.enum_values,
    ));
    assert(properties_member(m, (room - 1) as nat) == Ok::<
        Option<Seq<(Seq<char>, SchemaModel)>>,
        Failure,
    >(s.properties));
    assert(optional::<Vec<String>>(m, "required"@) == Ok::<Option<Seq<Seq<char>>>, Failure>(
        s.required,
    ));
}

/// Decoding the members that an ascending list of schemas is written as, each
/// of which fits in `room` levels, gives the list back.
pub proof fn lemma_properties_round_trip(p: Seq<(Seq<char>, SchemaModel)>, room: nat)
    requires
        ascending(p),
        forall|i: int| 0 <= i < p.len() ==> fits(#[trigger] p[i].1, room),
    ensures
        properties_decoded(properties_encoded(p), room) == Ok::<
            Seq<(Seq<char>, SchemaModel)>,
            Failure,
        >(p),
    decreases room, 1nat, p.len(),
{
    if p.len() > 0 {
        let front = p.drop_last();
        let last = p.last();
        lemma_ascending_drop_last(p);
        assert forall|i: int| 0 <= i < front.len() implies fits(#[trigger] front[i].1, room) by {
            assert(front[i] == p[i]);
        }
        lemma_properties_round_trip(front, room);
        assert(fits(p[p.len() - 1].1, room));
        lemma_schema_round_trip(last.1, room);
        let named = properties_encoded(p);
        assert(named.drop_last() =~= properties_encoded(front));
        assert(named.last() == (last.0, schema_encoded(last.1)));
        if front.len() > 0 {
            assert(precedes(front[front.len() - 1].0, last.0));
        }
        assert(inserted(front, last.0, last.1) =~= front.push(last));
        assert(front.push(last) =~= p);
    } else {
        assert(p =~= Seq::empty());
    }
}

/// A schema that was read from a document fits in the levels it was allowed
/// to enter, its properties in ascending order at every level.
pub proof fn lemma_schema_decoded_fits(d: Doc, room: nat)
    requires
        schema_decoded(d, room) is Ok,
    ensures
        fits(schema_decoded(d, room)->Ok_0, room),
    decreases room, 0nat, 0nat,
{
    let m = object_members(d)->Ok_0;
    let below = (room - 1) as nat;
    assert(room > 0);
    assert(object_members(d) is Ok);
    assert(properties_member(m, below) is Ok);
    let items: Result<Option<Box<SchemaModel>>, Failure> = match lookup(m, "items"@) {
        None => Ok(None),
        Some(Doc::Null) => Ok(None),
        Some(inner) => match schema_decoded(inner, below) {
            Ok(s) => Ok(Some(Box::new(s))),
            Err(e) => Err(e.at_key("items"@)),
        },
    };
    assert(items is Ok);
    match lookup(m, "properties"@) {
        Some(Doc::Object(named)) => {
            lemma_properties_decoded_fits(named, below);
        },
        _ => {},
    }
    match lookup(m, "items"@) {
        None => {},
        Some(Doc::Null) => {},
        Some(inner) => {
            lemma_schema_decoded_fits(inner, below);
        },
    }
}

/// The properties that were read from a document are in ascending order, and
/// each of their schemas fits in the levels it was allowed to enter.
pub proof fn lemma_properties_decoded_fits(named: Members, room: nat)
    requires
        properties_decoded(named, room) is Ok,
    ensures
        ascending(properties_decoded(named, room)->Ok_0),
        forall|i: int|
            0 <= i < properties_decoded(named, room)->Ok_0.len() ==> fits(
                #[trigger] properties_decoded(named, room)->Ok_0[i].1,
                room,
            ),
    decreases room, 1nat, named.len(),
{
    if named.len() > 0 {
        lemma_properties_decoded_fits(named.drop_last(), room);
        lemma_schema_decoded_fits(named.last().1, room);
        let entries = properties_decoded(named.drop_last(), room)->Ok_0;
        let s = schema_decoded(named.last().1, room)->Ok_0;
        lemma_inserted_ascending(entries, named.last().0, s);
        lemma_inserted_values(entries, named.last().0, s, |v: SchemaModel| fits(v, room));
    }
}

/// What a document is read as is written as a document that is read as the
/// same schema again: writing what was read, and then writing what is read
/// from that, gives the same document twice.
pub proof fn lemma_schema_rewritten(d: Doc, room: nat)
    requires
        schema_decoded(d, room) is Ok,
    ensures
        schema_decoded(schema_encoded(schema_decoded(d, room)->Ok_0), room) == schema_decoded(
            d,
            room,
        ),
{
    lemma_schema_decoded_fits(d, room);
    lemma_schema_round_trip(schema_decoded(d, room)->Ok_0, room);
}

/// The order in which two properties of different names are put into a list
/// does not show in what the list is written as.
pub proof fn lemma_properties_order(
    entries: Seq<(Seq<char>, SchemaModel)>,
    first_key: Seq<char>,
    first: SchemaModel,
    second_key: Seq<char>,
    second: SchemaModel,
)
    requires
        ascending(entries),
        first_key != second_key,
    ensures
        properties_encoded(inserted(inserted(entries, first_key, first), second_key, second))
            == properties_encoded(
            inserted(inserted(entries, second_key, second), first_key, first),
        ),
{
    lemma_insertion_order(entries, first_key, first, second_key, second);
}

/// The parameters of a function: the root of a schema, with the properties
/// and the names of those that are required.
#[derive(Debug, Clone, PartialEq, Eq)]
pub struct FunctionParameters {
    pub schema_type: JSONSchemaType,
    pub properties: Option<Properties>,
    pub required: Option<Vec<String>>,
}

/// The mathematical value of a [`FunctionParameters`].
pub struct FunctionParametersModel {
    pub schema_type: JSONSchemaType,
    pub properties: Option<Seq<(Seq<char>, SchemaModel)>>,
    pub required: Option<Seq<Seq<char>>>,
}

impl DeepView for FunctionParameters {
    type V = FunctionParametersModel;

    open spec fn deep_view(&self) -> FunctionParametersModel {
        FunctionParametersModel {
            schema_type: self.schema_type,
            properties: self.properties.deep_view(),
            required: self.required.deep_view(),
        }
    }
}

/// The levels that the schemas below the root of a function's parameters may
/// enter.
pub open spec fn below_root() -> nat {
    (MAX_SCHEMA_DEPTH - 1) as nat
}

/// What is found under each name in the document of a function's parameters.
proof fn lemma_parameters_lookups(v: FunctionParametersModel)
    ensures
        FunctionParameters::encoded(v) is Object,
        lookup(FunctionParameters::encoded(v)->Object_0, "type"@) == Some(
            JSONSchemaType::encoded(v.schema_type),
        ),
        lookup(FunctionParameters::encoded(v)->Object_0, "properties"@) == properties_doc(
            v.properties,
        ),
        lookup(FunctionParameters::encoded(v)->Object_0, "required"@) == encoded_some::<
            Vec<String>,
        >(v.required),
{
    broadcast use lemma_lookup_push;

    lemma_schema_keys();
    let none = Seq::<(Seq<char>, Doc)>::empty();
    assert(forall|key: Seq<char>| lookup(none, key) is None);
}

impl Wire for FunctionParameters {
    /// An object with `type` and, of `properties` and `required`, those that
    /// are set, in this order.
    open spec fn encoded(v: FunctionParametersModel) -> Doc {
        let m = with::<JSONSchemaType>(Seq::empty(), "type"@, v.schema_type);
        let m = with_some::<Json>(m, "properties"@, properties_doc(v.properties));
        let m = with_some::<Vec<String>>(m, "required"@, v.required);
        Doc::Object(m)
    }

    open spec fn decoded(d: Doc) -> Result<FunctionParametersModel, Failure> {
        match object_members(d) {
            Err(e) => Err(e),
            Ok(m) => {
                let schema_type = required::<JSONSchemaType>(m, "type"@);
                let properties = properties_member(m, below_root());
                let required_names = optional::<Vec<String>>(m, "required"@);
                if schema_type is Err {
                    Err(schema_type->Err_0)
                } else if properties is Err {
                    Err(properties->Err_0)
                } else if required_names is Err {
                    Err(required_names->Err_0)
                } else {
                    Ok(
                        FunctionParametersModel {
                            schema_type: schema_type->Ok_0,
                            properties: properties->Ok_0,
                            required: required_names->Ok_0,
                        },
                    )
                }
            },
        }
    }

    /// The properties are in ascending order of their names at every level,
    /// and no schema lies deeper than the decoder follows.
    open spec fn faithful(v: FunctionParametersModel) -> bool {
        match v.properties {
            Some(p) => ascending(p) && forall|i: int|
                0 <= i < p.len() ==> fits(#[trigger] p[i].1, below_root()),
            None => true,
        }
    }

    fn serialize(&self) -> (r: Json) {
        let mut members: Vec<(String, Json)> = Vec::new();
        put(&mut members, "type", &self.schema_type);
        match &self.properties {
            Some(p) => {
                put_json(&mut members, "properties", Json::Object(p.to_members()));
            },
            None => {},
        }
        put_some(&mut members, "required", &self.required);
        Json::Object(members)
    }

    fn deserialize(json: &Json) -> (r: Result<Self, DecodeError>) {
        let members = members_of(json)?;
        let schema_type = get_required::<JSONSchemaType>(members, "type")?;
        let properties = Properties::from_member(members, MAX_SCHEMA_DEPTH - 1)?;
        let required = get_optional::<Vec<String>>(members, "required")?;
        Ok(FunctionParameters { schema_type, properties, required })
    }

    proof fn lemma_round_trip(v: FunctionParametersModel) {
        lemma_parameters_lookups(v);
        JSONSchemaType::lemma_round_trip(v.schema_type);
        if let Some(names) = v.required {
            Vec::<String>::lemma_round_trip(names);
        }
        if let Some(p) = v.properties {
            lemma_properties_round_trip(p, below_root());
        }
    }
}

/// A copy of an optional string.
fn copy_text(text: &Option<String>) -> (r: Option<String>)
    ensures
        r.deep_view() == text.deep_view(),
{
    match text {
        Some(s) => Some(s.clone()),
        None => None,
    }
}

/// A copy of an optional list of strings.
fn copy_texts(texts: &Option<Vec<String>>) -> (r: Option<Vec<String>>)
    ensures
        r.deep_view() == texts.deep_view(),
{
    match texts {
        Some(list) => {
            let mut out: Vec<String> = Vec::new();
            let mut i: usize = 0;
            while i < list.len()
                invariant
                    i <= list.len(),
                    out@.len() == i,
                    forall|k: int| 0 <= k < i ==> out@[k]@ == list@[k]@,
                decreases list.len() - i,
            {
                out.push(list[i].clone());
                i += 1;
            }
            assert(out.deep_view() =~= list.deep_view());
            Some(out)
        },
        None => None,
    }
}

impl Clone for JSONSchemaDefine {
    fn clone(&self) -> (r: Self)
        ensures
            schema_model(r) == schema_model(*self),
        decreases self,
    {
        JSONSchemaDefine {
            schema_type: self.schema_type,
            description: copy_text(&self.description),
            enum_values: copy_texts(&self.enum_values),
            properties: match &self.properties {
                Some(p) => Some(p.clone()),
                None => None,
            },
            required: copy_texts(&self.required),
            items: match &self.items {
                Some(b) => Some(Box::new((**b).clone())),
                None => None,
            },
        }
    }
}

impl Clone for Properties {
    #[verifier::loop_isolation(false)]
    fn clone(&self) -> (r: Self)
        ensures
            r.model() == self.model(),
        decreases self,
    {
        let mut out: Vec<(String, JSONSchemaDefine)> = Vec::new();
        let mut i: usize = 0;
        proof {
            use_type_invariant(self);
        }
        while i < self.entries.len()
            invariant
                i <= self.entries.len(),
                out@.len() == i,
                forall|k: int|
                    0 <= k < i ==> out@[k].0@ == self.entries@[k].0@ && schema_model(out@[k].1)
                        == schema_model(self.entries@[k].1),
            decreases self.entries.len() - i,
        {
            out.push((self.entries[i].0.clone(), self.entries[i].1.clone()));
            i += 1;
        }
        proof {
            lemma_entry_models(out@);
            lemma_entry_models(self.entries@);
            assert(entry_models(out@) =~= entry_models(self.entries@));
        }
        Properties { entries: out }
    }
}

} // verus!
