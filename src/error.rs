use vstd::prelude::*;

verus! {

/// Why a body could not be read as the expected JSON record.
#[derive(Debug)]
pub enum JsonError {
    /// The bytes are not one well-formed JSON document.
    Syntax(serde_json::Error),
    /// The document is well formed but does not have the expected shape.
    Schema,
}

/// Every way an operation can fail, each kept apart from the others.
#[derive(Debug)]
pub enum MineruError {
    /// The transport failed: connection, TLS, DNS, timeout, or reading the body.
    Http(String),
    /// A request could not be encoded or a response could not be decoded.
    Json(JsonError),
    /// The service answered with a non-zero status code; carries its message.
    Api(String),
}

} // verus!
