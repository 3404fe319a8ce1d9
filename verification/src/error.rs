//! The error taxonomy of the client.
//!
//! Every failure is surfaced to the caller as a typed error carrying enough
//! detail to act on; nothing is handled or retried internally.

use vstd::prelude::*;

verus! {

/// Every way a client operation can fail.
#[derive(Clone, Debug, PartialEq)]
pub enum Error {
    /// A required environment variable was absent at construction time.
    /// `variable` names the missing variable.
    MissingEnvVariable { variable: String },
    /// A request payload could not be encoded as the wire format. The
    /// library's own body emission cannot fail, so this arises only in an
    /// embedding application whose encoding can.
    Serialization { message: String },
    /// The underlying HTTP call failed (DNS, connection, TLS); the message is
    /// the transport's own description, surfaced verbatim.
    Transport { message: String },
    /// A supplied API key or bearer token contains characters that cannot
    /// stand in an HTTP header value.
    InvalidHeaderValue,
    /// The remote service rejected the operation. Carries the HTTP status
    /// code of the response and a best-effort message derived by the
    /// response-resolution protocol.
    AuthError { status: u16, message: String },
    /// An authorization URL could not be constructed from the given
    /// parameters.
    ParseUrlError,
}

} // verus!
