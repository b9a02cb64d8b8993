//! The ways a request for responses can fail.

use vstd::prelude::*;

verus! {

/// Failure of a request for responses, by the stage that failed. Each
/// carries a message that names the cause.
#[derive(Debug)]
pub enum Error {
    /// The request could not be built (a malformed URL or header value).
    RequestBuild(String),
    /// The request was sent, but no complete response came back.
    Transport(String),
    /// The response body is not a page of responses.
    Decode(String),
}

impl Error {
    /// The message that describes the failure.
    pub fn message(&self) -> (r: &str)
        ensures
            r@ == match self {
                Error::RequestBuild(m) => m@,
                Error::Transport(m) => m@,
                Error::Decode(m) => m@,
            },
    {
        match self {
            Error::RequestBuild(m) => m.as_str(),
            Error::Transport(m) => m.as_str(),
            Error::Decode(m) => m.as_str(),
        }
    }
}

} // verus!
