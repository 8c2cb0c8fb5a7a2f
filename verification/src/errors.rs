use vstd::prelude::*;

verus! {

/// Failure of one step of the submission protocol. Every variant carries a
/// diagnostic describing the original cause; the run is aborted on any of
/// them, there is no local recovery.
#[derive(Debug)]
pub enum Error {
    /// The HTTP transport failed before a response body was obtained.
    Transport(String),
    /// A relay response could not be read: not a JSON object, or a required
    /// field is missing or has the wrong type.
    MalformedResponse(String),
    /// Key derivation or signing failed.
    Crypto(String),
    /// Serializing or encoding a value to send failed.
    Encoding(String),
}

impl Error {
    /// The diagnostic carried by the error, for reporting.
    pub fn message(&self) -> (r: &String)
        ensures
            r@ == self.cause(),
    {
        match self {
            Error::Transport(m) => m,
            Error::MalformedResponse(m) => m,
            Error::Crypto(m) => m,
            Error::Encoding(m) => m,
        }
    }

    /// The diagnostic carried by the error.
    pub open spec fn cause(&self) -> Seq<char> {
        match self {
            Error::Transport(m) => m@,
            Error::MalformedResponse(m) => m@,
            Error::Crypto(m) => m@,
            Error::Encoding(m) => m@,
        }
    }
}

} // verus!
