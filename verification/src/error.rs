//! Error taxonomy for the client, and the single point where
//! transport-level signals (status code plus body text) are translated
//! into it.

use vstd::prelude::*;
use vstd::string::StringExecFns;
use crate::decimal::dec_digits;

verus! {

/// One kind per failed call; the taxonomy is closed.
#[derive(Debug, Clone, PartialEq)]
pub enum CasperError {
    /// Transport-level failure (connection, request send/receive).
    Http(String),
    /// Malformed or undecodable response payload.
    InvalidResponse(String),
    /// Server-reported client error (status 400).
    Client { status: u16, message: String },
    /// Named resource not found (status 404).
    CollectionNotFound(String),
    /// Operation not allowed on this resource (status 405).
    OperationNotAllowed(String),
    /// Conflict: the resource already exists (status 409). Reported
    /// context-free; the response message is intentionally discarded.
    IndexAlreadyExists,
    /// Server-reported server error (status 500-599).
    Server { status: u16, message: String },
    /// Failure while driving a bulk-upload stream.
    Grpc(String),
    /// Invalid upload configuration (zero dimension, or a buffer whose
    /// length is not a multiple of the dimension).
    InvalidUploadConfig(String),
    /// Any status code outside the classified set.
    Unknown(String),
}

/// Message carried by the `Unknown` kind.
pub open spec fn unknown_message(status: u16, msg: Seq<char>) -> Seq<char> {
    "HTTP "@ + dec_digits(status as nat) + ": "@ + msg
}

/// Exactly one error kind per status code: the classification table of
/// the taxonomy mapper, as a relation between the inputs and the
/// produced error.
pub open spec fn status_error_matches(status: u16, msg: Seq<char>, r: CasperError) -> bool {
    if status == 400 {
        r matches CasperError::Client { status: s, message: m } && s == status && m@ == msg
    } else if status == 404 {
        r matches CasperError::CollectionNotFound(m) && m@ == msg
    } else if status == 405 {
        r matches CasperError::OperationNotAllowed(m) && m@ == msg
    } else if status == 409 {
        r matches CasperError::IndexAlreadyExists
    } else if 500 <= status && status <= 599 {
        r matches CasperError::Server { status: s, message: m } && s == status && m@ == msg
    } else {
        r matches CasperError::Unknown(m) && m@ == unknown_message(status, msg)
    }
}

impl CasperError {
    /// Classify a status code, carrying the given message through.
    pub fn from_status(status: u16, message: String) -> (r: CasperError)
        ensures
            status_error_matches(status, message@, r),
    {
        if status == 400 {
            CasperError::Client { status, message }
        } else if status == 404 {
            CasperError::CollectionNotFound(message)
        } else if status == 405 {
            CasperError::OperationNotAllowed(message)
        } else if status == 409 {
            CasperError::IndexAlreadyExists
        } else if 500 <= status && status <= 599 {
            CasperError::Server { status, message }
        } else {
            let mut m = String::from_str("HTTP ");
            let num = crate::decimal::u64_to_string(status as u64);
            m.append(num.as_str());
            m.append(": ");
            m.append(message.as_str());
            proof {
                reveal_strlit("HTTP ");
                reveal_strlit(": ");
                assert(m@ =~= unknown_message(status, message@));
            }
            CasperError::Unknown(m)
        }
    }
}

/// The kind of an error, as a small number; used to state that the
/// status classification is mutually exclusive.
pub open spec fn kind_index(e: CasperError) -> int {
    match e {
        CasperError::Http(_) => 0,
        CasperError::InvalidResponse(_) => 1,
        CasperError::Client { .. } => 2,
        CasperError::CollectionNotFound(_) => 3,
        CasperError::OperationNotAllowed(_) => 4,
        CasperError::IndexAlreadyExists => 5,
        CasperError::Server { .. } => 6,
        CasperError::Grpc(_) => 7,
        CasperError::InvalidUploadConfig(_) => 8,
        CasperError::Unknown(_) => 9,
    }
}

/// Error-mapping exclusivity: the classification table admits exactly
/// one error kind per status code — any two errors it admits for the
/// same status and message are of the same kind. Together with
/// `from_status` having no precondition, the mapping is total.
pub proof fn lemma_status_mapping_unique(
    status: u16,
    msg: Seq<char>,
    r1: CasperError,
    r2: CasperError,
)
    requires
        status_error_matches(status, msg, r1),
        status_error_matches(status, msg, r2),
    ensures
        kind_index(r1) == kind_index(r2),
{
}

/// The `error` string field of the body, when the body parses as a
/// JSON object holding one.
pub uninterp spec fn json_error_field(text: Seq<char>) -> Option<Seq<char>>;

/// Relies on `serde_json::from_str::<Value>`, `Value::get` and
/// `Value::as_str`: parsing is a pure function of the input text, and
/// the extracted field is the `error` string member of the body when
/// the body is a JSON object carrying one.
#[verifier::external_body]
fn extract_error_field(text: &str) -> (r: Option<String>)
    ensures
        match r {
            Some(m) => json_error_field(text@) == Some(m@),
            None => json_error_field(text@) is None,
        },
{
    if let Ok(v) = serde_json::from_str::<serde_json::Value>(text) {
        if let Some(m) = v.get("error").and_then(|x| x.as_str()) {
            return Some(m.to_string());
        }
    }
    None
}

/// The message a failed response carries: the JSON `error` field when
/// present, the raw body text otherwise.
pub open spec fn error_body_message(text: Seq<char>) -> Seq<char> {
    match json_error_field(text) {
        Some(m) => m,
        None => text,
    }
}

/// Translate a failed response into the taxonomy: extract the message
/// from the body, then classify by status code.
pub fn parse_error_response(status: u16, text: &str) -> (r: CasperError)
    ensures
        status_error_matches(status, error_body_message(text@), r),
{
    match extract_error_field(text) {
        Some(m) => CasperError::from_status(status, m),
        None => CasperError::from_status(status, String::from_str(text)),
    }
}

/// Whether a status code counts as success (2xx).
pub fn is_success_status(status: u16) -> (r: bool)
    ensures
        r == (200 <= status && status < 300),
{
    200 <= status && status < 300
}

/// The compute part of handling a response that carries no payload:
/// success is unit, failure is classified through the taxonomy mapper.
pub fn handle_empty_response(status: u16, text: &str) -> (r: Result<(), CasperError>)
    ensures
        200 <= status < 300 <==> r is Ok,
        r matches Err(e) ==> status_error_matches(status, error_body_message(text@), e),
{
    if is_success_status(status) {
        Ok(())
    } else {
        Err(parse_error_response(status, text))
    }
}

/// Message carried by a malformed-payload error raised when a
/// successful response fails to parse.
pub open spec fn parse_failure_message(detail: Seq<char>, text: Seq<char>) -> Seq<char> {
    "Failed to parse response: "@ + detail + " - "@ + text
}

/// The malformed-payload error for a successful response whose body
/// could not be parsed; `detail` is the parser's own description.
pub fn parse_failure_error(detail: &str, text: &str) -> (r: CasperError)
    ensures
        r matches CasperError::InvalidResponse(m) && m@ == parse_failure_message(
            detail@,
            text@,
        ),
{
    let mut m = String::from_str("Failed to parse response: ");
    m.append(detail);
    m.append(" - ");
    m.append(text);
    proof {
        reveal_strlit("Failed to parse response: ");
        reveal_strlit(" - ");
        assert(m@ =~= parse_failure_message(detail@, text@));
    }
    CasperError::InvalidResponse(m)
}

} // verus!
