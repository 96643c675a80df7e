//! Why a document was refused, and where in it.
use vstd::prelude::*;

verus! {

/// The kinds of decode failure.
#[derive(Clone, Copy, Debug, PartialEq, Eq, Structural)]
pub enum ErrorKind {
    /// The document's kind matches none of the shapes a type is written in.
    UnexpectedShape,
    /// A tag is a string, but not one of the recognised ones.
    UnknownVariant,
    /// A required member is absent from an object.
    MissingField,
    /// A member is present and holds the wrong kind of document.
    TypeMismatch,
    /// A schema is nested deeper than the decoder follows.
    DepthExceeded,
}

/// What the decoder was looking for where it stopped.
#[derive(Clone, Copy, Debug, PartialEq, Eq, Structural)]
pub enum Wanted {
    Text,
    Integer,
    Number,
    Bool,
    Array,
    Object,
    TextOrArray,
    TextOrObject,
    Tag,
    Member,
    Shallower,
}

/// What the decoder found where it stopped.
#[derive(Clone, Copy, Debug, PartialEq, Eq, Structural)]
pub enum Found {
    Absent,
    Null,
    Bool,
    Number,
    Text,
    Array,
    Object,
}

/// One step from a document towards something inside it.
#[derive(Debug, PartialEq, Eq)]
pub enum PathStep {
    Key(String),
    Index(usize),
}

/// The mathematical value of a [`PathStep`].
pub enum Step {
    Key(Seq<char>),
    Index(int),
}

impl View for PathStep {
    type V = Step;

    open spec fn view(&self) -> Step {
        match self {
            PathStep::Key(k) => Step::Key(k@),
            PathStep::Index(i) => Step::Index(*i as int),
        }
    }
}

/// A refused document: the kind of failure, the path from the root of the
/// document to the offending place, and what was wanted and found there.
#[derive(Debug, PartialEq, Eq)]
pub struct DecodeError {
    pub kind: ErrorKind,
    pub path: Vec<PathStep>,
    pub wanted: Wanted,
    pub found: Found,
}

/// The mathematical value of a [`DecodeError`].
pub struct Failure {
    pub kind: ErrorKind,
    pub path: Seq<Step>,
    pub wanted: Wanted,
    pub found: Found,
}

/// The values of a sequence of path steps.
pub open spec fn steps(path: Seq<PathStep>) -> Seq<Step> {
    path.map_values(|s: PathStep| s@)
}

impl View for DecodeError {
    type V = Failure;

    open spec fn view(&self) -> Failure {
        Failure { kind: self.kind, path: steps(self.path@), wanted: self.wanted, found: self.found }
    }
}

/// A failure at the root of the document being read.
pub open spec fn fail(kind: ErrorKind, wanted: Wanted, found: Found) -> Failure {
    Failure { kind, path: Seq::empty(), wanted, found }
}

impl Failure {
    /// This failure, seen from the object that holds the failing document as
    /// its member `key`.
    pub open spec fn at_key(self, key: Seq<char>) -> Failure {
        Failure { path: self.path.insert(0, Step::Key(key)), ..self }
    }

    /// This failure, seen from the array that holds the failing document as
    /// its item `index`.
    pub open spec fn at_index(self, index: int) -> Failure {
        Failure { path: self.path.insert(0, Step::Index(index)), ..self }
    }
}

/// A result with its failure seen from the member `key` upwards.
pub open spec fn under_key<T>(r: Result<T, Failure>, key: Seq<char>) -> Result<T, Failure> {
    match r {
        Ok(v) => Ok(v),
        Err(e) => Err(e.at_key(key)),
    }
}

/// The words for what was wanted.
pub open spec fn wanted_words(wanted: Wanted) -> Seq<char> {
    match wanted {
        Wanted::Text => "a string"@,
        Wanted::Integer => "an integer"@,
        Wanted::Number => "a number"@,
        Wanted::Bool => "a boolean"@,
        Wanted::Array => "an array"@,
        Wanted::Object => "an object"@,
        Wanted::TextOrArray => "a string or an array of structured content"@,
        Wanted::TextOrObject => "a string or an object"@,
        Wanted::Tag => "a recognised tag"@,
        Wanted::Member => "a member"@,
        Wanted::Shallower => "fewer levels of nesting"@,
    }
}

/// The words for what was found.
pub open spec fn found_words(found: Found) -> Seq<char> {
    match found {
        Found::Absent => "nothing"@,
        Found::Null => "null"@,
        Found::Bool => "a boolean"@,
        Found::Number => "a number"@,
        Found::Text => "a string"@,
        Found::Array => "an array"@,
        Found::Object => "an object"@,
    }
}

impl Wanted {
    pub fn words(&self) -> (r: &'static str)
        ensures
            r@ == wanted_words(*self),
    {
        match self {
            Wanted::Text => "a string",
            Wanted::Integer => "an integer",
            Wanted::Number => "a number",
            Wanted::Bool => "a boolean",
            Wanted::Array => "an array",
            Wanted::Object => "an object",
            Wanted::TextOrArray => "a string or an array of structured content",
            Wanted::TextOrObject => "a string or an object",
            Wanted::Tag => "a recognised tag",
            Wanted::Member => "a member",
            Wanted::Shallower => "fewer levels of nesting",
        }
    }
}

impl Found {
    pub fn words(&self) -> (r: &'static str)
        ensures
            r@ == found_words(*self),
    {
        match self {
            Found::Absent => "nothing",
            Found::Null => "null",
            Found::Bool => "a boolean",
            Found::Number => "a number",
            Found::Text => "a string",
            Found::Array => "an array",
            Found::Object => "an object",
        }
    }
}

impl DecodeError {
    /// A failure at the root of the document being read.
    pub fn new(kind: ErrorKind, wanted: Wanted, found: Found) -> (r: Self)
        ensures
            r@ == fail(kind, wanted, found),
    {
        let r = DecodeError { kind, path: Vec::new(), wanted, found };
        assert(steps(r.path@) =~= Seq::empty());
        r
    }

    /// The same failure, seen from the object that holds the failing document
    /// as its member `key`.
    pub fn at_key(self, key: &str) -> (r: Self)
        ensures
            r@ == self@.at_key(key@),
    {
        let mut path = self.path;
        path.insert(0, PathStep::Key(String::from_str(key)));
        assert(steps(path@) =~= steps(self.path@).insert(0, Step::Key(key@)));
        DecodeError { kind: self.kind, path, wanted: self.wanted, found: self.found }
    }

    /// The same failure, seen from the array that holds the failing document
    /// as its item `index`.
    pub fn at_index(self, index: usize) -> (r: Self)
        ensures
            r@ == self@.at_index(index as int),
    {
        let mut path = self.path;
        path.insert(0, PathStep::Index(index));
        assert(steps(path@) =~= steps(self.path@).insert(0, Step::Index(index as int)));
        DecodeError { kind: self.kind, path, wanted: self.wanted, found: self.found }
    }

    /// A sentence that says what was wanted and what was found.
    pub fn message(&self) -> (r: String)
        ensures
            r@ == "expected "@ + wanted_words(self.wanted) + ", found "@ + found_words(self.found),
    {
        let mut out = String::from_str("expected ");
        out.append(self.wanted.words());
        out.append(", found ");
        out.append(self.found.words());
        out
    }
}

} // verus!
