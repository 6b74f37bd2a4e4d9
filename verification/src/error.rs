//! The library's error taxonomy: configuration, transport, decoding.

use vstd::prelude::*;
use vstd::string::*;

verus! {

/// Why a run failed.
#[derive(Debug)]
pub enum ClientError {
    /// The credential variable was missing from the environment; nothing was
    /// sent.
    MissingCredential,
    /// The network call itself failed; the payload is the transport's own
    /// description.
    Transport(String),
    /// The response was not JSON of the expected shape.
    Decode,
}

impl ClientError {
    /// A one-line description, for the caller to write to standard error.
    pub fn describe(&self) -> (r: String)
        ensures
            self is MissingCredential ==> r@ == "missing github_token in the environment"@,
            self matches ClientError::Transport(m) ==> r@ == "transport error: "@ + m@,
            self is Decode ==> r@ == "response did not match the expected shape"@,
    {
        match self {
            ClientError::MissingCredential => String::from_str(
                "missing github_token in the environment",
            ),
            ClientError::Transport(m) => {
                let mut out = String::from_str("transport error: ");
                out.append(m.as_str());
                out
            },
            ClientError::Decode => String::from_str("response did not match the expected shape"),
        }
    }
}

} // verus!
