//! Errors of the library.
use vstd::prelude::*;

verus! {

/// What can go wrong when a header value is built or written.
#[derive(Debug, Clone, Copy, PartialEq, Eq, Structural)]
pub enum HxError {
    /// A computed header value holds a byte that no header value may hold.
    InvalidHeaderValue,
    /// A text meant as JSON is not JSON.
    InvalidJson,
    /// A text meant as a URI is not one.
    InvalidUri,
}

impl HxError {
    /// A short description, used as the body of the error response.
    pub fn describe(&self) -> (r: String)
        ensures
            r@ == self.message(),
    {
        match self {
            HxError::InvalidHeaderValue => String::from_str("invalid header value"),
            HxError::InvalidJson => String::from_str("invalid json"),
            HxError::InvalidUri => String::from_str("invalid uri"),
        }
    }

    /// The text that [`HxError::describe`] returns.
    pub open spec fn message(&self) -> Seq<char> {
        match self {
            HxError::InvalidHeaderValue => "invalid header value"@,
            HxError::InvalidJson => "invalid json"@,
            HxError::InvalidUri => "invalid uri"@,
        }
    }
}

} // verus!
