//! Wire model of a chat-completion API: the request and response values, and
//! the rules by which each of them is written as a JSON document and read back.
//!
//! A document is a tree ([`json::Json`]) whose objects keep their members in
//! order, so that two equal documents are the same text once written. Every
//! type of the model implements [`codec::Wire`]: it says, as a function on
//! mathematical values, which document a value is written as and which value
//! a document is read as, and its `serialize` and `deserialize` are proved to
//! compute exactly that. What holds of writing and reading together is
//! stated beside the types, as proof functions.
pub mod codec;
pub mod content;
pub mod error;
pub mod json;
pub mod message;
pub mod ordered;
pub mod request;
pub mod response;
pub mod schema;
pub mod text;
pub mod tool;
