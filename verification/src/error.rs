use vstd::prelude::*;

verus! {

/// The error taxonomy of the client.
///
/// Transport and server errors are recovered locally by the retry
/// orchestrator up to a fixed ceiling; everything else propagates to the
/// caller untouched.
#[derive(Debug)]
pub enum Error {
    /// Connection or I/O failure while talking to the service; retried with
    /// backoff and surfaced only after the retry ceiling is exhausted.
    Transport(String),
    /// The service answered with a 5xx status; retried like a transport
    /// failure and surfaced with the final status and body.
    ServerError { status: u16, body: Vec<u8> },
    /// The service kept reporting an expired access token (a condition
    /// detected by inspecting the error payload, not the status code) even
    /// after the one reauthorization an operation is allowed.
    ExpiredToken,
    /// The service reported an expired token on a call that carried no
    /// token at all.
    ProtocolViolation,
    /// A token exchange (authorization code or refresh) answered with a
    /// non-success status; fatal, never retried.
    AuthFailure { status: u16, body: Vec<u8> },
    /// The caller-supplied path contains an unsupported component.
    BadPath,
    /// The pasted redirect URL was unparsable or lacked a `code` parameter.
    BadAuthUrl,
    /// A response body that should have been text was not valid UTF-8.
    ResponseNotUtf8(Vec<u8>),
    /// A response body that should have been a known JSON shape was not;
    /// carries the raw body for diagnosis.
    ResponseBadJson(Vec<u8>),
    /// A successful transport response carried an unexpected status or body.
    UnknownServerError { status: u16, body: Vec<u8> },
    /// A create operation hit a conflict the caller must interpret.
    NodeExists,
    /// An upload came back with a digest that does not match the data sent.
    IntegrityError { expected: String, reported: String },
}

} // verus!
