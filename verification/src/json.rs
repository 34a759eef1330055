use vstd::prelude::*;

verus! {

/// A JSON value, as carried by JSON-RPC requests and responses.
///
/// Numbers are kept in the decimal text in which they were written, so that
/// an identifier travels from a request to its response unchanged.
#[derive(Debug)]
pub enum JsonValue {
    Null,
    Bool(bool),
    Number(String),
    String(String),
    Array(Vec<JsonValue>),
    Object(Vec<(String, JsonValue)>),
}

impl JsonValue {
    /// The string held by this value, if it is a JSON string.
    pub open spec fn string_of(self) -> Option<Seq<char>> {
        match self {
            JsonValue::String(s) => Some(s@),
            _ => None,
        }
    }

    /// Builds a JSON string.
    pub fn from_text(s: &str) -> (r: JsonValue)
        ensures
            r.string_of() == Some(s@),
    {
        JsonValue::String(s.to_owned())
    }

    /// Builds a JSON number from its decimal text.
    pub fn number(text: &str) -> (r: JsonValue)
        ensures
            r matches JsonValue::Number(t) && t@ == text@,
    {
        JsonValue::Number(text.to_owned())
    }
}

} // verus!
