//! The failures a handler can report, their messages, and their mapping to
//! transport status codes and the `{"error": ...}` wire shape.

use vstd::prelude::*;
use vstd::string::StringExecFns;

verus! {

/// A handler failure.
#[derive(Debug)]
pub enum Error {
    /// The request body failed to parse against the expected schema;
    /// carries the parser's message.
    FailedToParseRequest(String),
    /// The requested identifier is absent from the store; carries the id.
    MovieNotFound(String),
    /// Reserved for future endpoints; no current path reaches it.
    UnknownError,
}

/// The message text each error kind renders to.
pub open spec fn spec_message(e: &Error) -> Seq<char> {
    match e {
        Error::FailedToParseRequest(s) => "Failed to parse request: "@ + s@,
        Error::MovieNotFound(id) => "Movie "@ + id@ + " not found"@,
        Error::UnknownError => "Unknown error"@,
    }
}

/// The HTTP status each error kind maps to.
pub open spec fn spec_status(e: &Error) -> u16 {
    match e {
        Error::FailedToParseRequest(_) => 400,
        Error::MovieNotFound(_) => 404,
        Error::UnknownError => 500,
    }
}

impl Error {
    /// Renders the error's message as shown to the caller.
    pub fn message(&self) -> (m: String)
        ensures
            m@ == spec_message(self),
    {
        match self {
            Error::FailedToParseRequest(s) => {
                String::from_str("Failed to parse request: ").concat(s.as_str())
            },
            Error::MovieNotFound(id) => {
                let m = String::from_str("Movie ").concat(id.as_str()).concat(" not found");
                proof {
                    assert(m@ =~= spec_message(self));
                }
                m
            },
            Error::UnknownError => String::from_str("Unknown error"),
        }
    }

    /// The transport status code for this error: 400 for a malformed
    /// request, 404 for a missing record, 500 for the reserved kind.
    pub fn status_code(&self) -> (s: u16)
        ensures
            s == spec_status(self),
    {
        match self {
            Error::FailedToParseRequest(_) => 400,
            Error::MovieNotFound(_) => 404,
            Error::UnknownError => 500,
        }
    }
}

/// Wire shape of a failure: the message under an `error` field.
#[derive(Debug)]
pub struct ErrorResponse {
    pub error: String,
}

impl From<Error> for ErrorResponse {
    fn from(value: Error) -> (r: Self)
        ensures
            r.error@ == spec_message(&value),
    {
        ErrorResponse { error: value.message() }
    }
}

// A `String` value cannot be pinned down at the spec level, only its view,
// so `from` carries its contract in an `ensures` of its own above.
impl vstd::std_specs::convert::FromSpecImpl<Error> for ErrorResponse {
    open spec fn obeys_from_spec() -> bool {
        false
    }

    open spec fn from_spec(v: Error) -> Self {
        vstd::pervasive::arbitrary()
    }
}

} // verus!
