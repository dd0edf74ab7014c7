//! The closed set of failures that a request can end in.
use vstd::prelude::*;

verus! {

/// A failure of a request, in one vocabulary whatever layer it came from.
#[derive(Debug, Clone, PartialEq, Eq)]
pub enum Error {
    /// The server could not be reached, or the stream failed.
    Transport(String),
    /// The TLS handshake or setup failed.
    ProtocolNegotiation(String),
    /// The resource needs authentication (status 401); carries the request URL.
    Unauthorized(String),
    /// The server failed (status 5xx); carries the status and the body.
    UpstreamServerError { status: u16, body: String },
    /// The body did not have the expected JSON shape.
    Deserialization(String),
}

/// The text that describes an error.
pub open spec fn description_of(e: Error) -> Seq<char> {
    match e {
        Error::Transport(m) => m@,
        Error::ProtocolNegotiation(m) => m@,
        Error::Unauthorized(_) => "Tried to access a secured resource prior to authentication"@,
        Error::UpstreamServerError { .. } => "A server error indicated by a response status 5xx"@,
        Error::Deserialization(m) => m@,
    }
}

impl Error {
    /// A short description of the error.
    pub fn description(&self) -> (r: &str)
        ensures
            r@ == description_of(*self),
    {
        match self {
            Error::Transport(m) => m.as_str(),
            Error::ProtocolNegotiation(m) => m.as_str(),
            Error::Unauthorized(_) => "Tried to access a secured resource prior to authentication",
            Error::UpstreamServerError { .. } => "A server error indicated by a response status 5xx",
            Error::Deserialization(m) => m.as_str(),
        }
    }
}

} // verus!
