//! The response-resolution protocol.
//!
//! Every completed HTTP exchange is resolved the same way. The caller
//! captures the numeric status code and the full body text once, attempts to
//! parse the body as the operation's expected success shape, and hands both
//! to a resolver here:
//!
//! 1. If the body parsed as the success shape, the operation succeeds —
//!    regardless of the HTTP status code.
//! 2. Otherwise, if the body parses as the structured error envelope
//!    `{ "message": <string>, ... }`, the operation fails with the original
//!    status code and the extracted message.
//! 3. Otherwise it fails with the original status code and the raw body text
//!    verbatim, so that no error is silently dropped.
//!
//! Operations whose success is merely "no content" map a 2xx status straight
//! to success and apply steps 2–3 otherwise.

use vstd::prelude::*;

use crate::error::Error;
use crate::models::{EmailSignUpConfirmation, EmailSignUpResult, Session};

verus! {

/// The `message` field of the body, when the body is a JSON document whose
/// top level is an object carrying a string under that key; what the
/// structured error envelope parse extracts.
pub uninterp spec fn envelope_message(body: Seq<char>) -> Option<Seq<char>>;

/// Relies on serde_json (`from_str::<Value>`, `Value::get`, `Value::as_str`):
/// one attempt to read the error envelope `{ "message": <string>, ... }` out
/// of the body. The result depends on the body text alone: `Some` exactly
/// when the body is a JSON document with a string `message` member at the top
/// level, and then the member's value.
#[verifier::external_body]
fn parse_error_envelope(body: &str) -> (r: Option<String>)
    ensures
        match r {
            Some(m) => envelope_message(body@) == Some(m@),
            None => envelope_message(body@) is None,
        },
{
    match serde_json::from_str::<serde_json::Value>(body) {
        Ok(doc) => doc.get("message").and_then(|m| m.as_str()).map(String::from),
        Err(_) => None,
    }
}

/// The message that the resolution protocol derives from a body that did not
/// parse as the success shape: the envelope's `message` member if the body is
/// a structured error envelope, the raw body text otherwise.
pub open spec fn spec_failure_message(body: Seq<char>) -> Seq<char> {
    match envelope_message(body) {
        Some(m) => m,
        None => body,
    }
}

/// Whether a status code reports success: `2xx`.
pub open spec fn spec_is_success_status(status: u16) -> bool {
    200 <= status < 300
}

/// Whether a status code reports a client or server error: `4xx` or `5xx`.
pub open spec fn spec_is_error_status(status: u16) -> bool {
    400 <= status < 600
}

/// The authentication error that the resolution protocol derives from a
/// failed exchange.
pub fn failure(status: u16, body: String) -> (r: Error)
    ensures
        r matches Error::AuthError { status: st, message } && st == status
            && message@ == spec_failure_message(body@),
{
    match parse_error_envelope(body.as_str()) {
        Some(message) => Error::AuthError { status, message },
        None => Error::AuthError { status, message: body },
    }
}

/// Resolve an exchange whose success is a JSON body of the operation's
/// expected shape. `shaped` is the outcome of parsing the body as that shape;
/// the parse wins over the status code.
pub fn resolve_json<T>(status: u16, shaped: Option<T>, body: String) -> (r: Result<T, Error>)
    ensures
        shaped matches Some(v) ==> r == Ok::<T, Error>(v),
        shaped is None ==> (r matches Err(Error::AuthError { status: st, message })
            && st == status && message@ == spec_failure_message(body@)),
{
    match shaped {
        Some(v) => Ok(v),
        None => Err(failure(status, body)),
    }
}

/// Resolve an exchange whose success carries no content: a `2xx` status is
/// success, and any other status is resolved to an authentication error by
/// the envelope-then-raw-body rule.
pub fn resolve_no_content(status: u16, body: String) -> (r: Result<(), Error>)
    ensures
        spec_is_success_status(status) ==> r == Ok::<(), Error>(()),
        !spec_is_success_status(status) ==> (r matches Err(Error::AuthError {
            status: st,
            message,
        }) && st == status && message@ == spec_failure_message(body@)),
{
    if 200 <= status && status < 300 {
        Ok(())
    } else {
        Err(failure(status, body))
    }
}

/// Resolve an exchange whose success is an HTTP redirect rather than a JSON
/// body: a `4xx` or `5xx` status is resolved to an authentication error by
/// the envelope-then-raw-body rule, and any other status returns the URL the
/// exchange ended at.
pub fn resolve_redirect(status: u16, final_url: String, body: String) -> (r: Result<String, Error>)
    ensures
        !spec_is_error_status(status) ==> r == Ok::<String, Error>(final_url),
        spec_is_error_status(status) ==> (r matches Err(Error::AuthError {
            status: st,
            message,
        }) && st == status && message@ == spec_failure_message(body@)),
{
    if 400 <= status && status < 600 {
        Err(failure(status, body))
    } else {
        Ok(final_url)
    }
}

/// Resolve a completed email sign-up exchange, whose success is either a
/// session (when the server confirms at once) or a pending confirmation.
/// `session` and `confirmation` are the outcomes of parsing the body as each
/// of the two shapes; the session shape is preferred, a parse wins over the
/// status code, and a body of neither shape is resolved to an authentication
/// error by the envelope-then-raw-body rule.
pub fn resolve_email_sign_up(
    status: u16,
    session: Option<Session>,
    confirmation: Option<EmailSignUpConfirmation>,
    body: String,
) -> (r: Result<EmailSignUpResult, Error>)
    ensures
        session matches Some(s) ==> r == Ok::<EmailSignUpResult, Error>(
            EmailSignUpResult::SessionResult(s),
        ),
        session is None ==> (confirmation matches Some(c) ==> r == Ok::<EmailSignUpResult, Error>(
            EmailSignUpResult::ConfirmationResult(c),
        )),
        session is None && confirmation is None ==> (r matches Err(Error::AuthError {
            status: st,
            message,
        }) && st == status && message@ == spec_failure_message(body@)),
{
    match session {
        Some(s) => Ok(EmailSignUpResult::SessionResult(s)),
        None => match confirmation {
            Some(c) => Ok(EmailSignUpResult::ConfirmationResult(c)),
            None => Err(failure(status, body)),
        },
    }
}

} // verus!
