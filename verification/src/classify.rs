use vstd::prelude::*;

use crate::json::{json_string_field, json_string_of};
use crate::retry::Observed;
use crate::text::{contains_seq, str_contains};

verus! {

/// A status in the 2xx range.
pub open spec fn spec_is_success(status: u16) -> bool {
    200 <= status < 300
}

/// What the orchestrator must observe for a transport-complete response:
/// exactly `TokenExpired` when the payload's `message` mentions the
/// expired-token phrase, and the response itself otherwise.
pub open spec fn spec_classify_payload(status: u16, body: Vec<u8>) -> Observed {
    match json_string_of(body@, "message"@) {
        Some(m) => if contains_seq(m, "Token has expired"@) {
            Observed::TokenExpired
        } else {
            Observed::Response { status, body }
        },
        None => Observed::Response { status, body },
    }
}

/// The `message` field of a JSON error payload, if the body is UTF-8 text
/// holding an object with a string under that key.
pub fn extract_message(body: &Vec<u8>) -> (r: Option<String>)
    ensures
        match r {
            Some(m) => json_string_of(body@, "message"@) == Some(m@),
            None => json_string_of(body@, "message"@) is None,
        },
{
    json_string_field(body.as_slice(), "message")
}

/// The classification decision on plain values. A successful status is
/// delivered untouched. Otherwise, a payload message that mentions the
/// expired-token phrase marks the token expired — the backend is known to
/// misreport that condition with a wrong status code, so the status is not
/// consulted for it. Anything else is delivered for the orchestrator to
/// judge.
pub fn classify_parts(status: u16, body: Vec<u8>, message: Option<String>) -> (r: Observed)
    ensures
        spec_is_success(status) ==> r == (Observed::Response { status, body }),
        !spec_is_success(status) && (match message {
            Some(m) => contains_seq(m@, "Token has expired"@),
            None => false,
        }) ==> r == Observed::TokenExpired,
        !spec_is_success(status) && (match message {
            Some(m) => !contains_seq(m@, "Token has expired"@),
            None => true,
        }) ==> r == (Observed::Response { status, body }),
{
    if 200 <= status && status < 300 {
        return Observed::Response { status, body };
    }
    match message {
        Some(m) => {
            if str_contains(m.as_str(), "Token has expired") {
                Observed::TokenExpired
            } else {
                Observed::Response { status, body }
            }
        },
        None => Observed::Response { status, body },
    }
}

/// Classify one transport-complete response for the orchestrator: only
/// non-success bodies are inspected, and for those the result is exactly
/// what the payload's `message` field dictates.
pub fn classify_response(status: u16, body: Vec<u8>) -> (r: Observed)
    ensures
        spec_is_success(status) ==> r == (Observed::Response { status, body }),
        !spec_is_success(status) ==> r == spec_classify_payload(status, body),
{
    if 200 <= status && status < 300 {
        return Observed::Response { status, body };
    }
    let message = extract_message(&body);
    classify_parts(status, body, message)
}

} // verus!
