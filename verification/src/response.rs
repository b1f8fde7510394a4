//! Turning the completion endpoint's response into the one reply to send.

use vstd::prelude::*;
use crate::decimal::dec_digits;
use crate::decimal::u16_to_string;

verus! {

/// What came back from the single HTTP exchange, as plain values: either the
/// transport failed, or a response arrived with a status code and a body.
pub enum HttpOutcome {
    /// The request never produced a response (connection, DNS, timeout).
    TransportFailure,
    /// A response with its status code and its body text.
    Response {
        /// The HTTP status code.
        status: u16,
        /// The response body.
        body: String,
    },
}

/// The tagged outcome of one completion exchange.
pub enum CompletionResult {
    /// The completion text, verbatim.
    Completion(String),
    /// The transport failed; no response was received.
    NetworkFailure,
    /// A response arrived with a non-success status code.
    HttpError(u16),
    /// The response body is not well-formed JSON.
    MalformedBody,
    /// The body is well-formed but carries no completion text.
    MissingContent,
}

/// Whether a body parses as JSON, as the JSON parser decides it.
pub uninterp spec fn body_parses(body: Seq<char>) -> bool;

/// The completion text a well-formed body carries at the expected place
/// (first choice, message content), if it is a string there.
pub uninterp spec fn completion_field(body: Seq<char>) -> Option<Seq<char>>;

enum Extracted {
    Unparseable,
    NoContent,
    Content(String),
}

/// Relies on serde_json::from_str, on serde_json::Value's index operator
/// (which yields Null for an absent key or index, never failing), and on
/// Value::as_str (a string exactly for a JSON string): parses the body and
/// reads the string under choices, first element, message, content. Both are
/// functions of the body text alone.
#[verifier::external_body]
fn extract_completion(body: &str) -> (r: Extracted)
    ensures
        (r is Unparseable) == !body_parses(body@),
        body_parses(body@) ==> (match completion_field(body@) {
            Some(t) => r matches Extracted::Content(s) && s@ == t,
            None => r is NoContent,
        }),
{
    match serde_json::from_str::<serde_json::Value>(body) {
        Ok(v) => match v["choices"][0]["message"]["content"].as_str() {
            Some(s) => Extracted::Content(s.to_string()),
            None => Extracted::NoContent,
        },
        Err(_) => Extracted::Unparseable,
    }
}

/// A status code that counts as success.
pub open spec fn is_success_status(status: u16) -> bool {
    200 <= status < 300
}

/// The completion result that a given exchange outcome classifies to.
pub open spec fn result_matches_outcome(r: CompletionResult, outcome: HttpOutcome) -> bool {
    match outcome {
        HttpOutcome::TransportFailure => r is NetworkFailure,
        HttpOutcome::Response { status, body } => {
            if !is_success_status(status) {
                r matches CompletionResult::HttpError(c) && c == status
            } else if !body_parses(body@) {
                r is MalformedBody
            } else {
                match completion_field(body@) {
                    Some(t) => r matches CompletionResult::Completion(s) && s@ == t,
                    None => r is MissingContent,
                }
            }
        },
    }
}

/// Classifies the outcome of the HTTP exchange, in the order the handler
/// checks it: transport failure, then a non-success status, then a body that
/// does not parse, then a body without completion text, and last the
/// completion itself, verbatim.
pub fn handle_response(outcome: &HttpOutcome) -> (r: CompletionResult)
    ensures
        result_matches_outcome(r, *outcome),
{
    match outcome {
        HttpOutcome::TransportFailure => CompletionResult::NetworkFailure,
        HttpOutcome::Response { status, body } => {
            let st: u16 = *status;
            if !(200 <= st && st < 300) {
                CompletionResult::HttpError(st)
            } else {
                match extract_completion(body.as_str()) {
                    Extracted::Unparseable => CompletionResult::MalformedBody,
                    Extracted::NoContent => CompletionResult::MissingContent,
                    Extracted::Content(s) => CompletionResult::Completion(s),
                }
            }
        },
    }
}

/// The user-facing message for a failed status code: the fixed prefix with
/// the numeric code in decimal.
pub open spec fn spec_status_message(status: u16) -> Seq<char> {
    "Failed to process the message: error "@ + dec_digits(status as nat)
}

/// The fixed message for a well-formed body without completion text.
pub open spec fn spec_no_completion_message() -> Seq<char> {
    "Failed to process the message: No completion found"@
}

/// The reply text a completion result calls for, if any: the completion
/// itself verbatim, the status-code message, or the fixed "no completion
/// found" message; none on a transport failure or an unparseable body (those
/// are only logged).
pub open spec fn reply_text_for(r: CompletionResult, m: Option<Seq<char>>) -> bool {
    match r {
        CompletionResult::Completion(s) => m == Some(s@),
        CompletionResult::HttpError(c) => m == Some(spec_status_message(c)),
        CompletionResult::MissingContent => m == Some(spec_no_completion_message()),
        CompletionResult::NetworkFailure => m is None,
        CompletionResult::MalformedBody => m is None,
    }
}

/// The view of an optional reply message.
pub open spec fn message_view(m: Option<String>) -> Option<Seq<char>> {
    match m {
        Some(t) => Some(t@),
        None => None,
    }
}

/// The reply a completion result calls for.
pub fn reply_for(r: &CompletionResult) -> (m: Option<String>)
    ensures
        reply_text_for(*r, message_view(m)),
{
    match r {
        CompletionResult::Completion(s) => Some(s.clone()),
        CompletionResult::HttpError(c) => {
            let mut msg = String::from_str("Failed to process the message: error ");
            let code = u16_to_string(*c);
            msg.append(code.as_str());
            Some(msg)
        },
        CompletionResult::MissingContent => Some(
            String::from_str("Failed to process the message: No completion found"),
        ),
        CompletionResult::NetworkFailure => None,
        CompletionResult::MalformedBody => None,
    }
}

/// The reply that a whole exchange outcome calls for, if any: a successful
/// response's completion text verbatim; the status-code message on a
/// non-success status; the fixed "no completion found" message on a
/// well-formed body without completion text; none on a transport failure or
/// an unparseable body.
pub open spec fn reply_for_outcome(outcome: HttpOutcome, m: Option<Seq<char>>) -> bool {
    match outcome {
        HttpOutcome::TransportFailure => m is None,
        HttpOutcome::Response { status, body } => {
            if !is_success_status(status) {
                m == Some(spec_status_message(status))
            } else if !body_parses(body@) {
                m is None
            } else {
                match completion_field(body@) {
                    Some(t) => m == Some(t),
                    None => m == Some(spec_no_completion_message()),
                }
            }
        },
    }
}

/// Classifies the exchange outcome and renders the reply it calls for.
pub fn reply_for_response(outcome: &HttpOutcome) -> (m: Option<String>)
    ensures
        reply_for_outcome(*outcome, message_view(m)),
{
    let result = handle_response(outcome);
    reply_for(&result)
}

} // verus!
