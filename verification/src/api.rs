//! HTTP API: response bodies, handler errors, and what each endpoint
//! answers for the state it reads.

use vstd::prelude::*;
use crate::types::KVRequest;

verus! {

/// Error body.
#[derive(Debug, Clone, PartialEq, Eq)]
pub struct ErrorResponse {
    pub error: String,
}

/// Body of a successful write.
#[derive(Debug, Clone, PartialEq, Eq)]
pub struct SuccessResponse {
    pub message: String,
}

/// Body of a read: the value, Base64-encoded.
#[derive(Debug, Clone, PartialEq, Eq)]
pub struct ValueResponse {
    pub value: String,
}

/// Body of the health probe.
#[derive(Debug, Clone, PartialEq, Eq)]
pub struct HealthResponse {
    pub status: String,
    pub node_id: u64,
}

/// Details of the readiness probe.
#[derive(Debug, Clone, PartialEq, Eq)]
pub struct ReadyDetails {
    /// Time the storage probe took, in milliseconds.
    pub probe_latency_ms: u64,
    /// Error of the storage probe, if it failed.
    pub last_error: Option<String>,
    /// Time of the check (Unix milliseconds).
    pub checked_at_unix_ms: u64,
}

/// Body of the readiness probe.
#[derive(Debug, Clone, PartialEq, Eq)]
pub struct ReadyResponse {
    pub ready: bool,
    /// What readiness covers.
    pub mode: String,
    pub node_id: u64,
    pub details: ReadyDetails,
}

/// Body of the status endpoint.
#[derive(Debug, Clone, PartialEq, Eq)]
pub struct StatusResponse {
    pub node_id: u64,
    /// `Leader`, `Follower`, `Candidate`, `Standalone`, ...
    pub role: String,
    pub term: u64,
    pub applied_index: u64,
}

/// Handler errors.
#[derive(Debug, Clone, PartialEq, Eq)]
pub enum AppError {
    /// Answered with 404.
    NotFound(String),
    /// Answered with 500.
    Internal(String),
}

impl AppError {
    /// HTTP status of the error.
    pub fn status_code(&self) -> (c: u16)
        ensures
            c == match self { AppError::NotFound(_) => 404u16, AppError::Internal(_) => 500u16 },
    {
        match self {
            AppError::NotFound(_) => 404,
            AppError::Internal(_) => 500,
        }
    }

    /// Body of the error.
    pub fn into_body(self) -> (b: ErrorResponse)
        ensures
            b.error == match self { AppError::NotFound(m) => m, AppError::Internal(m) => m },
    {
        match self {
            AppError::NotFound(m) => ErrorResponse { error: m },
            AppError::Internal(m) => ErrorResponse { error: m },
        }
    }
}

/// Character of a 6-bit value in the standard Base64 alphabet.
pub open spec fn base64_char(v: int) -> char {
    if v < 26 {
        (65 + v) as char
    } else if v < 52 {
        (97 + v - 26) as char
    } else if v < 62 {
        (48 + v - 52) as char
    } else if v == 62 {
        '+'
    } else {
        '/'
    }
}

/// Standard Base64 (with padding) of `data`: each group of three bytes
/// gives four characters, and a last group of one or two bytes is padded
/// with `=`.
pub open spec fn base64_standard(data: Seq<u8>) -> Seq<char>
    decreases data.len(),
{
    if data.len() == 0 {
        Seq::empty()
    } else if data.len() == 1 {
        let a = data[0] as int;
        seq![base64_char(a / 4), base64_char((a % 4) * 16), '=', '=']
    } else if data.len() == 2 {
        let a = data[0] as int;
        let b = data[1] as int;
        seq![base64_char(a / 4), base64_char((a % 4) * 16 + b / 16), base64_char((b % 16) * 4), '=']
    } else {
        let a = data[0] as int;
        let b = data[1] as int;
        let c = data[2] as int;
        seq![base64_char(a / 4), base64_char((a % 4) * 16 + b / 16), base64_char((b % 16) * 4 + c / 64), base64_char(c % 64)]
            + base64_standard(data.subrange(3, data.len() as int))
    }
}

/// `base64::Engine::encode` with the standard padded alphabet: the Base64
/// text of `data` (see [`base64_standard`]). The encoded length is
/// computed with overflow checks that hold for any buffer that fits in
/// memory.
#[verifier::external_body]
fn encode_base64(data: &[u8]) -> (s: String)
    requires
        data@.len() <= isize::MAX,
    ensures
        s@ == base64_standard(data@),
{
    base64::Engine::encode(&base64::engine::general_purpose::STANDARD, data)
}

/// Message of a key that is not stored: `Key '{key}' not found`.
pub open spec fn not_found_text(key: Seq<char>) -> Seq<char> {
    "Key '"@ + key + "' not found"@
}

/// Answer of `GET /kv/:key` for the value read: the value in Base64, or
/// not found.
pub fn get_key_response(key: &str, value: Option<Vec<u8>>) -> (r: Result<ValueResponse, AppError>)
    requires
        value matches Some(v) ==> v@.len() <= isize::MAX,
    ensures
        match value {
            Some(v) => r matches Ok(b) && b.value@ == base64_standard(v@),
            None => r matches Err(AppError::NotFound(m)) && m@ == not_found_text(key@),
        },
{
    match value {
        Some(v) => Ok(ValueResponse { value: encode_base64(v.as_slice()) }),
        None => {
            proof {
                reveal_strlit("Key '");
                reveal_strlit("' not found");
            }
            let mut m = String::from_str("Key '");
            m.append(key);
            m.append("' not found");
            Err(AppError::NotFound(m))
        },
    }
}

/// The request of `POST /kv/:key`: store the body under the key.
pub fn put_request(key: &str, body: Vec<u8>) -> (r: KVRequest)
    ensures
        r matches KVRequest::Put { key: k, value: v } && k@ == key@ && v == body,
{
    KVRequest::Put { key: key.to_owned(), value: body }
}

/// The request of `DELETE /kv/:key`.
pub fn delete_request(key: &str) -> (r: KVRequest)
    ensures
        r matches KVRequest::Delete { key: k } && k@ == key@,
{
    KVRequest::Delete { key: key.to_owned() }
}

/// Answer of a successful write: `Key '{key}' updated successfully`, or
/// `deleted successfully` for a delete.
pub fn write_response(key: &str, deleted: bool) -> (r: SuccessResponse)
    ensures
        r.message@ == "Key '"@ + key@ + (if deleted { "' deleted successfully"@ } else { "' updated successfully"@ }),
{
    proof {
        reveal_strlit("Key '");
        reveal_strlit("' deleted successfully");
        reveal_strlit("' updated successfully");
    }
    let mut m = String::from_str("Key '");
    m.append(key);
    if deleted {
        m.append("' deleted successfully");
    } else {
        m.append("' updated successfully");
    }
    SuccessResponse { message: m }
}

/// Answer of `GET /health`.
pub fn health_response(node_id: u64) -> (r: HealthResponse)
    ensures
        r.status@ == "healthy"@,
        r.node_id == node_id,
{
    HealthResponse { status: String::from_str("healthy"), node_id }
}

/// Answer of `GET /ready`: ready exactly when the storage probe succeeded,
/// its error reported otherwise.
pub fn ready_response(node_id: u64, probe: Result<(), String>, probe_latency_ms: u64, checked_at_unix_ms: u64) -> (r: ReadyResponse)
    ensures
        r.ready == probe is Ok,
        r.mode@ == "process+storage"@,
        r.node_id == node_id,
        r.details.probe_latency_ms == probe_latency_ms,
        r.details.checked_at_unix_ms == checked_at_unix_ms,
        r.details.last_error == match probe { Ok(_) => None, Err(e) => Some(e) },
{
    let (ready, last_error) = match probe {
        Ok(_) => (true, None),
        Err(e) => (false, Some(e)),
    };
    ReadyResponse {
        ready,
        mode: String::from_str("process+storage"),
        node_id,
        details: ReadyDetails { probe_latency_ms, last_error, checked_at_unix_ms },
    }
}

/// Answer of `GET /status`: role and term from the consensus layer when it
/// runs, else role `unknown` and the persisted term.
pub fn status_response(node_id: u64, raft_role_term: Option<(String, u64)>, voted_term: u64, applied_index: u64) -> (r: StatusResponse)
    ensures
        r.node_id == node_id,
        r.applied_index == applied_index,
        match raft_role_term {
            Some((role, term)) => r.role == role && r.term == term,
            None => r.role@ == "unknown"@ && r.term == voted_term,
        },
{
    let (role, term) = match raft_role_term {
        Some((role, term)) => (role, term),
        None => (String::from_str("unknown"), voted_term),
    };
    StatusResponse { node_id, role, term, applied_index }
}

} // verus!
