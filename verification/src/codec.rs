//! The codec every wire type implements, and the pieces records are built from.
use vstd::prelude::*;
use crate::error::{fail, under_key, DecodeError, ErrorKind, Failure, Found, Wanted};
use crate::json::{
    docs, find, found_of, lemma_docs, lemma_lookup_push, lemma_member_docs_push, lookup,
    member_docs, Doc, Json, JsonNumber,
};

verus! {

/// The list of members of an object.
pub type Members = Seq<(Seq<char>, Doc)>;

/// What a decoder returned, as mathematical values.
pub open spec fn outcome<T: DeepView>(r: Result<T, DecodeError>) -> Result<T::V, Failure> {
    match r {
        Ok(v) => Ok(v.deep_view()),
        Err(e) => Err(e@),
    }
}

/// A type with a JSON form.
pub trait Wire: DeepView + Sized {
    /// The document a value is written as.
    spec fn encoded(v: Self::V) -> Doc;

    /// The value a document is read as, or why it is refused.
    spec fn decoded(d: Doc) -> Result<Self::V, Failure>;

    /// Holds of the values that are read back unchanged from their own
    /// document.
    spec fn faithful(v: Self::V) -> bool;

    /// Writes the value as a document.
    fn serialize(&self) -> (r: Json)
        ensures
            r@ == Self::encoded(self.deep_view()),
    ;

    /// Reads a value from a document.
    fn deserialize(json: &Json) -> (r: Result<Self, DecodeError>)
        ensures
            outcome(r) == Self::decoded(json@),
    ;

    /// Decoding the document of a faithful value gives the value back.
    proof fn lemma_round_trip(v: Self::V)
        requires
            Self::faithful(v),
        ensures
            Self::decoded(Self::encoded(v)) == Ok::<Self::V, Failure>(v),
    ;
}

/// Whether a string holds exactly the characters of `literal`.
pub fn text_is(s: &String, literal: &str) -> (r: bool)
    ensures
        r == (s@ == literal@),
{
    let other = String::from_str(literal);
    *s == other
}

impl Wire for String {
    open spec fn encoded(v: Seq<char>) -> Doc {
        Doc::Str(v)
    }

    open spec fn decoded(d: Doc) -> Result<Seq<char>, Failure> {
        match d {
            Doc::Str(s) => Ok(s),
            _ => Err(fail(ErrorKind::TypeMismatch, Wanted::Text, found_of(d))),
        }
    }

    open spec fn faithful(v: Seq<char>) -> bool {
        true
    }

    fn serialize(&self) -> (r: Json) {
        Json::Str(self.clone())
    }

    fn deserialize(json: &Json) -> (r: Result<Self, DecodeError>) {
        match json {
            Json::Str(s) => Ok(s.clone()),
            _ => Err(DecodeError::new(ErrorKind::TypeMismatch, Wanted::Text, json.found())),
        }
    }

    proof fn lemma_round_trip(v: Seq<char>) {
    }
}

impl Wire for bool {
    open spec fn encoded(v: bool) -> Doc {
        Doc::Bool(v)
    }

    open spec fn decoded(d: Doc) -> Result<bool, Failure> {
        match d {
            Doc::Bool(b) => Ok(b),
            _ => Err(fail(ErrorKind::TypeMismatch, Wanted::Bool, found_of(d))),
        }
    }

    open spec fn faithful(v: bool) -> bool {
        true
    }

    fn serialize(&self) -> (r: Json) {
        Json::Bool(*self)
    }

    fn deserialize(json: &Json) -> (r: Result<Self, DecodeError>) {
        match json {
            Json::Bool(b) => Ok(*b),
            _ => Err(DecodeError::new(ErrorKind::TypeMismatch, Wanted::Bool, json.found())),
        }
    }

    proof fn lemma_round_trip(v: bool) {
    }
}

/// The whole number a document holds, where it holds one between `lo` and
/// `hi`.
pub open spec fn whole_number(d: Doc, lo: int, hi: int) -> Result<int, Failure> {
    match d {
        Doc::Number(JsonNumber::Integer(v)) if lo <= v <= hi => Ok(v as int),
        _ => Err(fail(ErrorKind::TypeMismatch, Wanted::Integer, found_of(d))),
    }
}

impl Wire for i64 {
    open spec fn encoded(v: i64) -> Doc {
        Doc::Number(JsonNumber::Integer(v as i128))
    }

    open spec fn decoded(d: Doc) -> Result<i64, Failure> {
        match whole_number(d, i64::MIN as int, i64::MAX as int) {
            Ok(v) => Ok(v as i64),
            Err(e) => Err(e),
        }
    }

    open spec fn faithful(v: i64) -> bool {
        true
    }

    fn serialize(&self) -> (r: Json) {
        Json::Number(JsonNumber::Integer(*self as i128))
    }

    fn deserialize(json: &Json) -> (r: Result<Self, DecodeError>) {
        match json {
            Json::Number(JsonNumber::Integer(v)) => {
                if i64::MIN as i128 <= *v && *v <= i64::MAX as i128 {
                    return Ok(*v as i64);
                }
            },
            _ => {},
        }
        Err(DecodeError::new(ErrorKind::TypeMismatch, Wanted::Integer, json.found()))
    }

    proof fn lemma_round_trip(v: i64) {
    }
}

impl Wire for i32 {
    open spec fn encoded(v: i32) -> Doc {
        Doc::Number(JsonNumber::Integer(v as i128))
    }

    open spec fn decoded(d: Doc) -> Result<i32, Failure> {
        match whole_number(d, i32::MIN as int, i32::MAX as int) {
            Ok(v) => Ok(v as i32),
            Err(e) => Err(e),
        }
    }

    open spec fn faithful(v: i32) -> bool {
        true
    }

    fn serialize(&self) -> (r: Json) {
        Json::Number(JsonNumber::Integer(*self as i128))
    }

    fn deserialize(json: &Json) -> (r: Result<Self, DecodeError>) {
        match json {
            Json::Number(JsonNumber::Integer(v)) => {
                if i32::MIN as i128 <= *v && *v <= i32::MAX as i128 {
                    return Ok(*v as i32);
                }
            },
            _ => {},
        }
        Err(DecodeError::new(ErrorKind::TypeMismatch, Wanted::Integer, json.found()))
    }

    proof fn lemma_round_trip(v: i32) {
    }
}

impl Wire for usize {
    open spec fn encoded(v: usize) -> Doc {
        Doc::Number(JsonNumber::Integer(v as i128))
    }

    open spec fn decoded(d: Doc) -> Result<usize, Failure> {
        match whole_number(d, 0, usize::MAX as int) {
            Ok(v) => Ok(v as usize),
            Err(e) => Err(e),
        }
    }

    open spec fn faithful(v: usize) -> bool {
        true
    }

    fn serialize(&self) -> (r: Json) {
        Json::Number(JsonNumber::Integer(*self as i128))
    }

    fn deserialize(json: &Json) -> (r: Result<Self, DecodeError>) {
        match json {
            Json::Number(JsonNumber::Integer(v)) => {
                if 0 <= *v && *v <= usize::MAX as i128 {
                    return Ok(*v as usize);
                }
            },
            _ => {},
        }
        Err(DecodeError::new(ErrorKind::TypeMismatch, Wanted::Integer, json.found()))
    }

    proof fn lemma_round_trip(v: usize) {
    }
}

impl DeepView for JsonNumber {
    type V = JsonNumber;

    open spec fn deep_view(&self) -> JsonNumber {
        *self
    }
}

impl Wire for JsonNumber {
    open spec fn encoded(v: JsonNumber) -> Doc {
        Doc::Number(v)
    }

    open spec fn decoded(d: Doc) -> Result<JsonNumber, Failure> {
        match d {
            Doc::Number(n) => Ok(n),
            _ => Err(fail(ErrorKind::TypeMismatch, Wanted::Number, found_of(d))),
        }
    }

    open spec fn faithful(v: JsonNumber) -> bool {
        true
    }

    fn serialize(&self) -> (r: Json) {
        Json::Number(*self)
    }

    fn deserialize(json: &Json) -> (r: Result<Self, DecodeError>) {
        match json {
            Json::Number(n) => Ok(*n),
            _ => Err(DecodeError::new(ErrorKind::TypeMismatch, Wanted::Number, json.found())),
        }
    }

    proof fn lemma_round_trip(v: JsonNumber) {
    }
}

impl Wire for Json {
    open spec fn encoded(v: Doc) -> Doc {
        v
    }

    open spec fn decoded(d: Doc) -> Result<Doc, Failure> {
        Ok(d)
    }

    open spec fn faithful(v: Doc) -> bool {
        true
    }

    fn serialize(&self) -> (r: Json) {
        self.clone()
    }

    fn deserialize(json: &Json) -> (r: Result<Self, DecodeError>) {
        Ok(json.clone())
    }

    proof fn lemma_round_trip(v: Doc) {
    }
}

/// The documents of a sequence of values, in order.
pub open spec fn encoded_all<T: Wire>(values: Seq<T::V>) -> Seq<Doc> {
    Seq::new(values.len(), |i: int| T::encoded(values[i]))
}

/// The values of a sequence of documents, in order; the failure of the first
/// document that is refused, at its index.
pub open spec fn decoded_all<T: Wire>(items: Seq<Doc>) -> Result<Seq<T::V>, Failure>
    decreases items.len(),
{
    if items.len() == 0 {
        Ok(Seq::empty())
    } else {
        match decoded_all::<T>(items.drop_last()) {
            Err(e) => Err(e),
            Ok(values) => match T::decoded(items.last()) {
                Ok(v) => Ok(values.push(v)),
                Err(e) => Err(e.at_index(items.len() - 1)),
            },
        }
    }
}

/// A failure among the first documents of a sequence is the failure of the
/// whole sequence.
pub proof fn lemma_decoded_all_prefix<T: Wire>(items: Seq<Doc>, n: int)
    requires
        0 <= n <= items.len(),
        decoded_all::<T>(items.take(n)) is Err,
    ensures
        decoded_all::<T>(items) == decoded_all::<T>(items.take(n)),
    decreases items.len() - n,
{
    if n < items.len() {
        assert(items.take(n + 1).drop_last() =~= items.take(n));
        lemma_decoded_all_prefix::<T>(items, n + 1);
    } else {
        assert(items.take(n) =~= items);
    }
}

/// Decoding the documents of faithful values gives the values back.
pub proof fn lemma_round_trip_all<T: Wire>(values: Seq<T::V>)
    requires
        forall|i: int| 0 <= i < values.len() ==> T::faithful(#[trigger] values[i]),
    ensures
        decoded_all::<T>(encoded_all::<T>(values)) == Ok::<Seq<T::V>, Failure>(values),
    decreases values.len(),
{
    let items = encoded_all::<T>(values);
    if values.len() == 0 {
        assert(values =~= Seq::empty());
    } else {
        assert(items.drop_last() =~= encoded_all::<T>(values.drop_last()));
        lemma_round_trip_all::<T>(values.drop_last());
        T::lemma_round_trip(values.last());
        assert(values.drop_last().push(values.last()) =~= values);
    }
}

impl<T: Wire> Wire for Vec<T> {
    open spec fn encoded(v: Seq<T::V>) -> Doc {
        Doc::Array(encoded_all::<T>(v))
    }

    open spec fn decoded(d: Doc) -> Result<Seq<T::V>, Failure> {
        match d {
            Doc::Array(items) => decoded_all::<T>(items),
            _ => Err(fail(ErrorKind::TypeMismatch, Wanted::Array, found_of(d))),
        }
    }

    open spec fn faithful(v: Seq<T::V>) -> bool {
        forall|i: int| 0 <= i < v.len() ==> T::faithful(#[trigger] v[i])
    }

    fn serialize(&self) -> (r: Json) {
        let mut out: Vec<Json> = Vec::new();
        let mut i: usize = 0;
        while i < self.len()
            invariant
                i <= self.len(),
                out@.len() == i,
                forall|k: int| 0 <= k < i ==> out@[k]@ == T::encoded(self@[k].deep_view()),
            decreases self.len() - i,
        {
            out.push(self[i].serialize());
            i += 1;
        }
        proof {
            lemma_docs(out@);
            assert(docs(out@) =~= encoded_all::<T>(self.deep_view()));
        }
        Json::Array(out)
    }

    fn deserialize(json: &Json) -> (r: Result<Self, DecodeError>) {
        match json {
            Json::Array(items) => {
                let ghost all = docs(items@);
                proof {
                    lemma_docs(items@);
                }
                let mut out: Vec<T> = Vec::new();
                let mut i: usize = 0;
                proof {
                    assert(out.deep_view() =~= Seq::empty());
                    assert(all.take(0).len() == 0);
                }
                while i < items.len()
                    invariant
                        i <= items.len(),
                        all == docs(items@),
                        json@ == Doc::Array(all),
                        all.len() == items@.len(),
                        forall|k: int| 0 <= k < items@.len() ==> #[trigger] all[k] == items@[k]@,
                        decoded_all::<T>(all.take(i as int)) == Ok::<Seq<T::V>, Failure>(
                            out.deep_view(),
                        ),
                    decreases items.len() - i,
                {
                    proof {
                        assert(all.take(i + 1).drop_last() =~= all.take(i as int));
                        assert(all.take(i + 1).last() == all[i as int]);
                    }
                    match T::deserialize(&items[i]) {
                        Ok(v) => {
                            let ghost before = out.deep_view();
                            out.push(v);
                            assert(out.deep_view() =~= before.push(v.deep_view()));
                        },
                        Err(e) => {
                            proof {
                                assert(all.take(i + 1).len() - 1 == i);
                                assert(decoded_all::<T>(all.take(i + 1)) == Err::<
                                    Seq<T::V>,
                                    Failure,
                                >(e@.at_index(i as int)));
                                lemma_decoded_all_prefix::<T>(all, i + 1);
                            }
                            return Err(e.at_index(i));
                        },
                    }
                    i += 1;
                }
                proof {
                    assert(all.take(i as int) =~= all);
                }
                Ok(out)
            },
            _ => Err(DecodeError::new(ErrorKind::TypeMismatch, Wanted::Array, json.found())),
        }
    }

    proof fn lemma_round_trip(v: Seq<T::V>) {
        lemma_round_trip_all::<T>(v);
    }
}

/// The members of a document that is an object.
pub open spec fn object_members(d: Doc) -> Result<Members, Failure> {
    match d {
        Doc::Object(members) => Ok(members),
        _ => Err(fail(ErrorKind::UnexpectedShape, Wanted::Object, found_of(d))),
    }
}

/// The value of a member that has to be there.
pub open spec fn required<T: Wire>(members: Members, key: Seq<char>) -> Result<T::V, Failure> {
    match lookup(members, key) {
        None => Err(fail(ErrorKind::MissingField, Wanted::Member, Found::Absent).at_key(key)),
        Some(d) => under_key(T::decoded(d), key),
    }
}

/// The value of a member that may be absent or `null`.
pub open spec fn optional<T: Wire>(members: Members, key: Seq<char>) -> Result<
    Option<T::V>,
    Failure,
> {
    match lookup(members, key) {
        None => Ok(None),
        Some(Doc::Null) => Ok(None),
        Some(d) => match T::decoded(d) {
            Ok(v) => Ok(Some(v)),
            Err(e) => Err(e.at_key(key)),
        },
    }
}

/// A member list with one more member, holding a value.
pub open spec fn with<T: Wire>(members: Members, key: Seq<char>, v: T::V) -> Members {
    members.push((key, T::encoded(v)))
}

/// A member list with one more member where there is a value, unchanged where
/// there is none.
pub open spec fn with_some<T: Wire>(members: Members, key: Seq<char>, v: Option<T::V>) -> Members {
    match v {
        Some(x) => members.push((key, T::encoded(x))),
        None => members,
    }
}

/// A member list with one more member, which is `null` where there is no
/// value.
pub open spec fn with_nullable<T: Wire>(
    members: Members,
    key: Seq<char>,
    v: Option<T::V>,
) -> Members {
    match v {
        Some(x) => members.push((key, T::encoded(x))),
        None => members.push((key, Doc::Null)),
    }
}

/// Whether `longer` is `members` itself, or `members` with one more member,
/// named `name`, at its end.
pub open spec fn extends(members: Members, longer: Members, name: Seq<char>) -> bool {
    longer == members || exists|d: Doc| longer == #[trigger] members.push((name, d))
}

/// What a member at the end of a list changes, where `place` numbers the
/// names, the new member's name has the number `at`, and every name already
/// in the list has a smaller number: nothing under the other names, and under
/// the new name the list holds the new member.
pub proof fn lemma_layer(
    members: Members,
    longer: Members,
    name: Seq<char>,
    place: spec_fn(Seq<char>) -> int,
    at: int,
)
    requires
        extends(members, longer, name),
        place(name) == at,
        forall|key: Seq<char>| (#[trigger] lookup(members, key)) is Some ==> place(key) < at,
    ensures
        forall|key: Seq<char>|
            place(key) != at ==> #[trigger] lookup(longer, key) == lookup(members, key),
        forall|key: Seq<char>| (#[trigger] lookup(longer, key)) is Some ==> place(key) <= at,
        longer == members ==> lookup(longer, name) is None,
        forall|d: Doc|
            longer == #[trigger] members.push((name, d)) ==> lookup(longer, name) == Some(d),
{
    assert(lookup(members, name) is None);
    if longer != members {
        let d = choose|d: Doc| longer == #[trigger] members.push((name, d));
        assert forall|key: Seq<char>| true implies #[trigger] lookup(longer, key) == (match lookup(
            members,
            key,
        ) {
            Some(x) => Some(x),
            None => if name == key {
                Some(d)
            } else {
                None
            },
        }) by {
            lemma_lookup_push(members, name, d, key);
        }
        assert forall|e: Doc| longer == #[trigger] members.push((name, e)) implies lookup(
            longer,
            name,
        ) == Some(e) by {
            assert(members.push((name, e)).last() == members.push((name, d)).last());
        }
    }
}

/// The document an optional value is written as, where there is a value.
pub open spec fn encoded_some<T: Wire>(v: Option<T::V>) -> Option<Doc> {
    match v {
        Some(x) => Some(T::encoded(x)),
        None => None,
    }
}

/// The document an optional value is written as, `null` standing for no
/// value.
pub open spec fn encoded_nullable<T: Wire>(v: Option<T::V>) -> Doc {
    match v {
        Some(x) => T::encoded(x),
        None => Doc::Null,
    }
}

/// The members of a document that is an object.
pub fn members_of<'a>(json: &'a Json) -> (r: Result<&'a Vec<(String, Json)>, DecodeError>)
    ensures
        match r {
            Ok(members) => object_members(json@) == Ok::<Members, Failure>(member_docs(members@)),
            Err(e) => object_members(json@) == Err::<Members, Failure>(e@),
        },
{
    match json {
        Json::Object(members) => Ok(members),
        _ => Err(DecodeError::new(ErrorKind::UnexpectedShape, Wanted::Object, json.found())),
    }
}

/// Reads a member that has to be there.
pub fn get_required<T: Wire>(members: &Vec<(String, Json)>, key: &str) -> (r: Result<
    T,
    DecodeError,
>)
    ensures
        outcome(r) == required::<T>(member_docs(members@), key@),
{
    match find(members, key) {
        None => Err(
            DecodeError::new(ErrorKind::MissingField, Wanted::Member, Found::Absent).at_key(key),
        ),
        Some(json) => match T::deserialize(json) {
            Ok(v) => Ok(v),
            Err(e) => Err(e.at_key(key)),
        },
    }
}

/// Reads a member that may be absent or `null`.
pub fn get_optional<T: Wire>(members: &Vec<(String, Json)>, key: &str) -> (r: Result<
    Option<T>,
    DecodeError,
>)
    ensures
        outcome(r) == optional::<T>(member_docs(members@), key@),
{
    match find(members, key) {
        None => Ok(None),
        Some(Json::Null) => Ok(None),
        Some(json) => match T::deserialize(json) {
            Ok(v) => Ok(Some(v)),
            Err(e) => Err(e.at_key(key)),
        },
    }
}

/// Appends a member that holds a value.
pub fn put<T: Wire>(members: &mut Vec<(String, Json)>, key: &str, value: &T)
    ensures
        member_docs(final(members)@) == with::<T>(
            member_docs(old(members)@),
            key@,
            value.deep_view(),
        ),
{
    let member = (String::from_str(key), value.serialize());
    proof {
        lemma_member_docs_push(members@, member);
    }
    members.push(member);
}

/// Appends a member that holds a document as it is.
pub fn put_json(members: &mut Vec<(String, Json)>, key: &str, json: Json)
    ensures
        member_docs(final(members)@) == member_docs(old(members)@).push((key@, json@)),
{
    let member = (String::from_str(key), json);
    proof {
        lemma_member_docs_push(members@, member);
    }
    members.push(member);
}

/// Appends a member where there is a value.
pub fn put_some<T: Wire>(members: &mut Vec<(String, Json)>, key: &str, value: &Option<T>)
    ensures
        member_docs(final(members)@) == with_some::<T>(
            member_docs(old(members)@),
            key@,
            value.deep_view(),
        ),
{
    match value {
        Some(v) => {
            let member = (String::from_str(key), v.serialize());
            proof {
                lemma_member_docs_push(members@, member);
            }
            members.push(member);
        },
        None => {},
    }
}

/// Appends a member, which is `null` where there is no value.
pub fn put_nullable<T: Wire>(members: &mut Vec<(String, Json)>, key: &str, value: &Option<T>)
    ensures
        member_docs(final(members)@) == with_nullable::<T>(
            member_docs(old(members)@),
            key@,
            value.deep_view(),
        ),
{
    let json = match value {
        Some(v) => v.serialize(),
        None => Json::Null,
    };
    let member = (String::from_str(key), json);
    proof {
        lemma_member_docs_push(members@, member);
    }
    members.push(member);
}

} // verus!
