//! JSON documents as trees, with object members kept in document order.
use vstd::prelude::*;
use crate::error::Found;

verus! {

/// Whether `bits` is the pattern of a finite IEEE 754 binary64 value: of
/// neither an infinity nor a NaN, which JSON cannot write.
pub open spec fn finite_pattern(bits: u64) -> bool {
    (bits >> 52) & 0x7ff != 0x7ff
}

/// A finite IEEE 754 binary64 value, held by its bit pattern and never
/// computed with.
#[derive(Clone, Copy, Debug, PartialEq, Eq)]
pub struct Binary64 {
    bits: u64,
}

impl Binary64 {
    #[verifier::type_invariant]
    spec fn is_finite(self) -> bool {
        finite_pattern(self.bits)
    }

    /// The bit pattern.
    pub closed spec fn pattern(self) -> u64 {
        self.bits
    }

    /// The value with the given bit pattern, if the pattern is that of a
    /// finite value.
    pub fn new(bits: u64) -> (r: Option<Binary64>)
        ensures
            match r {
                Some(b) => finite_pattern(bits) && b.pattern() == bits,
                None => !finite_pattern(bits),
            },
    {
        if (bits >> 52) & 0x7ff != 0x7ff {
            Some(Binary64 { bits })
        } else {
            None
        }
    }

    /// The bit pattern, which is that of a finite value.
    pub fn bits(&self) -> (r: u64)
        ensures
            r == self.pattern(),
            finite_pattern(r),
    {
        proof {
            use_type_invariant(self);
        }
        self.bits
    }
}

/// A JSON number. Whole numbers are exact; any other number is a finite
/// binary64 value.
#[derive(Clone, Copy, Debug, PartialEq, Eq)]
pub enum JsonNumber {
    Integer(i128),
    Binary64(Binary64),
}

/// A JSON document.
#[derive(Debug, PartialEq, Eq)]
pub enum Json {
    Null,
    Bool(bool),
    Number(JsonNumber),
    Str(String),
    Array(Vec<Json>),
    Object(Vec<(String, Json)>),
}

/// The mathematical value of a JSON document.
pub enum Doc {
    Null,
    Bool(bool),
    Number(JsonNumber),
    Str(Seq<char>),
    Array(Seq<Doc>),
    Object(Seq<(Seq<char>, Doc)>),
}

impl DeepView for Json {
    type V = Doc;

    open spec fn deep_view(&self) -> Doc {
        doc_of(*self)
    }
}

impl View for Json {
    type V = Doc;

    open spec fn view(&self) -> Doc {
        doc_of(*self)
    }
}

/// The value of a document.
pub open spec fn doc_of(json: Json) -> Doc
    decreases json,
{
    match json {
        Json::Null => Doc::Null,
        Json::Bool(b) => Doc::Bool(b),
        Json::Number(n) => Doc::Number(n),
        Json::Str(s) => Doc::Str(s@),
        Json::Array(items) => Doc::Array(docs(items@)),
        Json::Object(members) => Doc::Object(member_docs(members@)),
    }
}

/// The values of a sequence of documents, in order.
pub open spec fn docs(items: Seq<Json>) -> Seq<Doc>
    decreases items,
{
    if items.len() == 0 {
        Seq::empty()
    } else {
        docs(items.drop_last()).push(doc_of(items.last()))
    }
}

/// The values of a sequence of object members, in order.
pub open spec fn member_docs(members: Seq<(String, Json)>) -> Seq<(Seq<char>, Doc)>
    decreases members,
{
    if members.len() == 0 {
        Seq::empty()
    } else {
        member_docs(members.drop_last()).push((members.last().0@, doc_of(members.last().1)))
    }
}

/// `docs` keeps the length and maps each item to its value.
pub proof fn lemma_docs(items: Seq<Json>)
    ensures
        docs(items).len() == items.len(),
        forall|i: int| 0 <= i < items.len() ==> #[trigger] docs(items)[i] == items[i]@,
    decreases items.len(),
{
    if items.len() > 0 {
        lemma_docs(items.drop_last());
    }
}

/// `member_docs` keeps the length and maps each member to its name and value.
pub proof fn lemma_member_docs(members: Seq<(String, Json)>)
    ensures
        member_docs(members).len() == members.len(),
        forall|i: int|
            0 <= i < members.len() ==> #[trigger] member_docs(members)[i] == (
                members[i].0@,
                members[i].1@,
            ),
    decreases members.len(),
{
    if members.len() > 0 {
        lemma_member_docs(members.drop_last());
    }
}

/// Appending a member appends its name and value.
pub proof fn lemma_member_docs_push(members: Seq<(String, Json)>, member: (String, Json))
    ensures
        member_docs(members.push(member)) == member_docs(members).push((member.0@, member.1@)),
{
    assert(members.push(member).drop_last() =~= members);
}

/// The value of the first member named `key`, if there is one.
pub open spec fn lookup<V>(members: Seq<(Seq<char>, V)>, key: Seq<char>) -> Option<V>
    decreases members.len(),
{
    if members.len() == 0 {
        None
    } else {
        match lookup(members.drop_last(), key) {
            Some(d) => Some(d),
            None => if members.last().0 == key {
                Some(members.last().1)
            } else {
                None
            },
        }
    }
}

/// Looking a name up in a list with one more member at its end.
pub broadcast proof fn lemma_lookup_push<V>(
    members: Seq<(Seq<char>, V)>,
    name: Seq<char>,
    value: V,
    key: Seq<char>,
)
    ensures
        #[trigger] lookup(members.push((name, value)), key) == (match lookup(members, key) {
            Some(d) => Some(d),
            None => if name == key {
                Some(value)
            } else {
                None
            },
        }),
{
    assert(members.push((name, value)).drop_last() =~= members);
}

/// A name found among the first members of a list is found, with the same
/// value, in the whole list.
pub proof fn lemma_lookup_prefix<V>(members: Seq<(Seq<char>, V)>, n: int, key: Seq<char>)
    requires
        0 <= n <= members.len(),
        lookup(members.take(n), key) is Some,
    ensures
        lookup(members, key) == lookup(members.take(n), key),
    decreases members.len() - n,
{
    if n < members.len() {
        assert(members.take(n + 1).drop_last() =~= members.take(n));
        lemma_lookup_prefix(members, n + 1, key);
    } else {
        assert(members.take(n) =~= members);
    }
}

/// The kind of a document, as a failure reports it.
pub open spec fn found_of(d: Doc) -> Found {
    match d {
        Doc::Null => Found::Null,
        Doc::Bool(_) => Found::Bool,
        Doc::Number(_) => Found::Number,
        Doc::Str(_) => Found::Text,
        Doc::Array(_) => Found::Array,
        Doc::Object(_) => Found::Object,
    }
}

impl Json {
    /// The kind of this document, as a failure reports it.
    pub fn found(&self) -> (r: Found)
        ensures
            r == found_of(self@),
    {
        match self {
            Json::Null => Found::Null,
            Json::Bool(_) => Found::Bool,
            Json::Number(_) => Found::Number,
            Json::Str(_) => Found::Text,
            Json::Array(_) => Found::Array,
            Json::Object(_) => Found::Object,
        }
    }

    /// The value of this object's first member named `key`; `None` where there
    /// is no such member or this document is no object.
    pub fn get(&self, key: &str) -> (r: Option<&Json>)
        ensures
            match self@ {
                Doc::Object(members) => match r {
                    Some(j) => lookup(members, key@) == Some(j@),
                    None => lookup(members, key@) is None,
                },
                _ => r is None,
            },
    {
        match self {
            Json::Object(members) => find(members, key),
            _ => None,
        }
    }
}

/// The value of the first member named `key`.
pub fn find<'a>(members: &'a Vec<(String, Json)>, key: &str) -> (r: Option<&'a Json>)
    ensures
        match r {
            Some(j) => lookup(member_docs(members@), key@) == Some(j@),
            None => lookup(member_docs(members@), key@) is None,
        },
{
    let wanted = String::from_str(key);
    let ghost all = member_docs(members@);
    proof {
        lemma_member_docs(members@);
    }
    let mut i: usize = 0;
    while i < members.len()
        invariant
            i <= members.len(),
            wanted@ == key@,
            all == member_docs(members@),
            all.len() == members@.len(),
            forall|k: int|
                0 <= k < members@.len() ==> #[trigger] all[k] == (members@[k].0@, members@[k].1@),
            lookup(all.take(i as int), key@) is None,
        decreases members.len() - i,
    {
        proof {
            assert(all.take(i + 1).drop_last() =~= all.take(i as int));
            assert(all.take(i + 1).last() == all[i as int]);
        }
        if members[i].0 == wanted {
            proof {
                lemma_lookup_prefix(all, i + 1, key@);
            }
            return Some(&members[i].1);
        }
        i += 1;
    }
    proof {
        assert(all.take(i as int) =~= all);
    }
    None
}

impl Clone for Json {
    #[verifier::loop_isolation(false)]
    fn clone(&self) -> (r: Self)
        ensures
            r@ == self@,
        decreases self,
    {
        match self {
            Json::Null => Json::Null,
            Json::Bool(b) => Json::Bool(*b),
            Json::Number(n) => Json::Number(*n),
            Json::Str(s) => Json::Str(s.clone()),
            Json::Array(items) => {
                let mut out: Vec<Json> = Vec::new();
                let mut i: usize = 0;
                while i < items.len()
                    invariant
                        i <= items.len(),
                        out@.len() == i,
                        forall|k: int| 0 <= k < i ==> out@[k]@ == items@[k]@,
                    decreases items.len() - i,
                {
                    out.push(items[i].clone());
                    i += 1;
                }
                proof {
                    lemma_docs(out@);
                    lemma_docs(items@);
                    assert(docs(out@) =~= docs(items@));
                }
                Json::Array(out)
            },
            Json::Object(members) => {
                let mut out: Vec<(String, Json)> = Vec::new();
                let mut i: usize = 0;
                while i < members.len()
                    invariant
                        i <= members.len(),
                        out@.len() == i,
                        forall|k: int|
                            0 <= k < i ==> out@[k].0@ == members@[k].0@ && out@[k].1@
                                == members@[k].1@,
                    decreases members.len() - i,
                {
                    out.push((members[i].0.clone(), members[i].1.clone()));
                    i += 1;
                }
                proof {
                    lemma_member_docs(out@);
                    lemma_member_docs(members@);
                    assert(member_docs(out@) =~= member_docs(members@));
                }
                Json::Object(out)
            },
        }
    }
}

} // verus!
