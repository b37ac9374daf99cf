//! Application request/response types and the records that travel inside
//! snapshots.

use vstd::prelude::*;
use crate::text::{decimal, push_decimal};
use crate::wire::{
    append_bytes, encode_bytes, encode_str, encode_u32, postcard_bytes, postcard_str, postcard_take_bytes,
    postcard_take_str, postcard_take_u32, postcard_u32, take_bytes, take_str, take_u32,
};
use crate::snapshot::metadata::{CheckpointMetaView, CheckpointMetadata};
use crate::wire::opt_str_view;

verus! {

/// Node identifiers are 64-bit unsigned integers.
pub type NodeId = u64;

/// A write applied to the key-value state machine. `Put` stores a value
/// under a key (rendered `Set { .. }`), `Delete` removes the key.
#[derive(Debug, Clone, PartialEq, Eq)]
pub enum KVRequest {
    Put { key: String, value: Vec<u8> },
    Delete { key: String },
}

/// Mathematical form of a [`KVRequest`].
pub ghost enum KvOp {
    Put { key: Seq<char>, value: Seq<u8> },
    Delete { key: Seq<char> },
}

impl View for KVRequest {
    type V = KvOp;

    open spec fn view(&self) -> KvOp {
        match self {
            KVRequest::Put { key, value } => KvOp::Put { key: key@, value: value@ },
            KVRequest::Delete { key } => KvOp::Delete { key: key@ },
        }
    }
}

/// The answer of the state machine to a request.
#[derive(Debug, Clone, PartialEq, Eq)]
pub enum KVResponse {
    /// The request was applied (rendered `Ok`).
    Success,
    Value(Vec<u8>),
    /// The request failed (rendered `Err: <message>`).
    Failure(String),
}

/// Marker for the Raft type configuration of this store (requests are
/// [`KVRequest`], responses [`KVResponse`], node ids `u64`).
#[derive(Debug, Clone, Copy, Default, PartialEq, Eq, PartialOrd, Ord)]
pub struct RaftTypeConfig;

/// Placeholder responder that ignores commit and completion notifications.
#[derive(Debug)]
pub struct Phase0Responder<T>(pub core::marker::PhantomData<T>);

// ---------------------------------------------------------------------------
// Textual rendering.

/// `", "`-separated decimal renderings of the bytes of `s`.
pub open spec fn joined_decimals(s: Seq<u8>) -> Seq<char>
    decreases s.len(),
{
    if s.len() == 0 {
        Seq::empty()
    } else if s.len() == 1 {
        decimal(s[0] as nat)
    } else {
        joined_decimals(s.drop_last()) + ", "@ + decimal(s.last() as nat)
    }
}

/// Debug rendering of a byte vector: `[1, 2, 3]`.
pub open spec fn bytes_debug(s: Seq<u8>) -> Seq<char> {
    "["@ + joined_decimals(s) + "]"@
}

/// Display rendering of a request.
pub open spec fn kv_request_text(op: KvOp) -> Seq<char> {
    match op {
        KvOp::Put { key, value } =>
            "Set { key: \""@ + key + "\", value: "@ + bytes_debug(value) + " }"@,
        KvOp::Delete { key } => "Delete { key: \""@ + key + "\" }"@,
    }
}

/// Appends the debug rendering of `bytes` to `out`.
pub fn push_bytes_debug(out: &mut String, bytes: &Vec<u8>)
    ensures
        final(out)@ == old(out)@ + bytes_debug(bytes@),
{
    proof {
        reveal_strlit("[");
        reveal_strlit("]");
        reveal_strlit(", ");
    }
    out.append("[");
    let ghost start = out@;
    let mut i: usize = 0;
    while i < bytes.len()
        invariant
            i <= bytes@.len(),
            out@ == start + joined_decimals(bytes@.subrange(0, i as int)),
            ", "@ =~= seq![',', ' '],
        decreases bytes@.len() - i,
    {
        let ghost before = bytes@.subrange(0, i as int);
        let ghost after = bytes@.subrange(0, i + 1);
        assert(after.drop_last() =~= before);
        if i > 0 {
            out.append(", ");
        }
        push_decimal(out, bytes[i] as u64);
        assert(out@ =~= start + joined_decimals(after));
        i = i + 1;
    }
    assert(bytes@.subrange(0, bytes@.len() as int) =~= bytes@);
    out.append("]");
}

impl KVRequest {
    /// Display text of the request, e.g. `Set { key: "test", value: [1, 2, 3] }`.
    pub fn to_string(&self) -> (s: String)
        ensures
            s@ == kv_request_text(self@),
    {
        proof {
            reveal_strlit("Set { key: \"");
            reveal_strlit("\", value: ");
            reveal_strlit(" }");
            reveal_strlit("Delete { key: \"");
            reveal_strlit("\" }");
        }
        match self {
            KVRequest::Put { key, value } => {
                let mut s = String::from_str("Set { key: \"");
                s.append(key.as_str());
                s.append("\", value: ");
                push_bytes_debug(&mut s, value);
                s.append(" }");
                s
            },
            KVRequest::Delete { key } => {
                let mut s = String::from_str("Delete { key: \"");
                s.append(key.as_str());
                s.append("\" }");
                s
            },
        }
    }
}

/// Display rendering of a response.
pub open spec fn kv_response_text(r: KVResponse) -> Seq<char> {
    match r {
        KVResponse::Success => "Ok"@,
        KVResponse::Value(_) => "Value"@,
        KVResponse::Failure(e) => "Err: "@ + e@,
    }
}

impl KVResponse {
    /// Display text of the response: `Ok`, `Value` or `Err: <message>`.
    pub fn to_string(&self) -> (s: String)
        ensures
            s@ == kv_response_text(*self),
    {
        match self {
            KVResponse::Success => String::from_str("Ok"),
            KVResponse::Value(_) => String::from_str("Value"),
            KVResponse::Failure(e) => {
                let mut s = String::from_str("Err: ");
                s.append(e.as_str());
                s
            },
        }
    }
}

// ---------------------------------------------------------------------------
// Postcard form of a request (the payload stored with every applied entry).

/// Postcard encoding of a request: variant index, then the fields.
pub open spec fn kv_request_bytes(op: KvOp) -> Seq<u8> {
    match op {
        KvOp::Put { key, value } => postcard_u32(0) + postcard_str(key) + postcard_bytes(value),
        KvOp::Delete { key } => postcard_u32(1) + postcard_str(key),
    }
}

/// Postcard decoding of a request from the front of `b`.
pub open spec fn take_kv_request(b: Seq<u8>) -> Option<(KvOp, Seq<u8>)> {
    match postcard_take_u32(b) {
        Some((tag, r1)) =>
            if tag == 0 {
                match postcard_take_str(r1) {
                    Some((key, r2)) => match postcard_take_bytes(r2) {
                        Some((value, r3)) => Some((KvOp::Put { key, value }, r3)),
                        None => None,
                    },
                    None => None,
                }
            } else if tag == 1 {
                match postcard_take_str(r1) {
                    Some((key, r2)) => Some((KvOp::Delete { key }, r2)),
                    None => None,
                }
            } else {
                None
            },
        None => None,
    }
}

/// Decoding of a whole request payload (trailing bytes are ignored).
pub open spec fn decode_kv_request_spec(b: Seq<u8>) -> Option<KvOp> {
    match take_kv_request(b) {
        Some((op, _)) => Some(op),
        None => None,
    }
}

impl KVRequest {
    /// Postcard encoding of the request; decoding it back, followed by any
    /// bytes, gives the same request and leaves those bytes.
    pub fn encode(&self) -> (r: Vec<u8>)
        ensures
            r@ == kv_request_bytes(self@),
            forall|rest: Seq<u8>| #[trigger] take_kv_request(r@ + rest) == Some((self@, rest)),
    {
        match self {
            KVRequest::Put { key, value } => {
                let mut out = encode_u32(0);
                let k = encode_str(key.as_str());
                let v = encode_bytes(value);
                let ghost t = out@;
                append_bytes(&mut out, &k);
                append_bytes(&mut out, &v);
                assert forall|rest: Seq<u8>| #[trigger] take_kv_request(out@ + rest) == Some((self@, rest)) by {
                    assert(out@ + rest =~= t + (k@ + (v@ + rest)));
                    assert(postcard_take_u32(t + (k@ + (v@ + rest))) == Some((0u32, k@ + (v@ + rest))));
                    assert(postcard_take_str(k@ + (v@ + rest)) == Some((key@, v@ + rest)));
                    assert(postcard_take_bytes(v@ + rest) == Some((value@, rest)));
                }
                out
            },
            KVRequest::Delete { key } => {
                let mut out = encode_u32(1);
                let k = encode_str(key.as_str());
                let ghost t = out@;
                append_bytes(&mut out, &k);
                assert forall|rest: Seq<u8>| #[trigger] take_kv_request(out@ + rest) == Some((self@, rest)) by {
                    assert(out@ + rest =~= t + (k@ + rest));
                    assert(postcard_take_u32(t + (k@ + rest)) == Some((1u32, k@ + rest)));
                    assert(postcard_take_str(k@ + rest) == Some((key@, rest)));
                }
                out
            },
        }
    }

    /// Decodes a request payload; `None` when the bytes are not the postcard
    /// encoding of a request.
    pub fn decode(b: &[u8]) -> (r: Option<KVRequest>)
        ensures
            match r {
                Some(req) => decode_kv_request_spec(b@) == Some(req@),
                None => decode_kv_request_spec(b@) is None,
            },
    {
        match take_u32(b) {
            Some((tag, r1)) => {
                if tag == 0 {
                    match take_str(r1) {
                        Some((key, r2)) => match take_bytes(r2) {
                            Some((value, _r3)) => Some(KVRequest::Put { key, value }),
                            None => None,
                        },
                        None => None,
                    }
                } else if tag == 1 {
                    match take_str(r1) {
                        Some((key, _r2)) => Some(KVRequest::Delete { key }),
                        None => None,
                    }
                } else {
                    None
                }
            },
            None => None,
        }
    }
}

// ---------------------------------------------------------------------------
// Delta snapshot records.

/// One applied log entry carried by an incremental snapshot.
#[derive(Debug, Clone, PartialEq, Eq)]
pub struct DeltaEntry {
    pub term: u64,
    pub index: u64,
    /// Postcard-encoded [`KVRequest`] payload.
    pub payload: Vec<u8>,
}

/// Mathematical form of a [`DeltaEntry`].
pub ghost struct DeltaEntryView {
    pub term: u64,
    pub index: u64,
    pub payload: Seq<u8>,
}

impl View for DeltaEntry {
    type V = DeltaEntryView;

    open spec fn view(&self) -> DeltaEntryView {
        DeltaEntryView { term: self.term, index: self.index, payload: self.payload@ }
    }
}

impl DeltaEntry {
    pub fn new(term: u64, index: u64, payload: Vec<u8>) -> (e: Self)
        ensures
            e.term == term,
            e.index == index,
            e.payload == payload,
    {
        Self { term, index, payload }
    }
}

/// Snapshot payload format.
#[derive(Debug, Clone)]
pub enum SnapshotFormat {
    /// Full checkpoint snapshot (tar.zst bytes).
    Full { checkpoint_meta: CheckpointMetadata },
    /// Delta snapshot metadata only (entries are stored in payload bytes).
    Delta { base_index: u64, entry_count: u64 },
}

/// Mathematical form of a [`SnapshotFormat`].
pub ghost enum SnapshotFormatView {
    Full(CheckpointMetaView),
    Delta { base_index: u64, entry_count: u64 },
}

impl View for SnapshotFormat {
    type V = SnapshotFormatView;

    open spec fn view(&self) -> SnapshotFormatView {
        match self {
            SnapshotFormat::Full { checkpoint_meta } => SnapshotFormatView::Full(checkpoint_meta@),
            SnapshotFormat::Delta { base_index, entry_count } =>
                SnapshotFormatView::Delta { base_index: *base_index, entry_count: *entry_count },
        }
    }
}

/// Mathematical form of a [`DeltaMetadata`].
pub ghost struct DeltaMetadataView {
    pub format: SnapshotFormatView,
    pub size_bytes: u64,
    pub created_at: u64,
    pub file_path: Option<Seq<char>>,
    pub version: u16,
}

impl View for DeltaMetadata {
    type V = DeltaMetadataView;

    open spec fn view(&self) -> DeltaMetadataView {
        DeltaMetadataView {
            format: self.format@,
            size_bytes: self.size_bytes,
            created_at: self.created_at,
            file_path: opt_str_view(self.file_path),
            version: self.version,
        }
    }
}

/// Metadata of a snapshot payload, kept in snapshot state for policy decisions.
#[derive(Debug, Clone)]
pub struct DeltaMetadata {
    pub format: SnapshotFormat,
    pub size_bytes: u64,
    pub created_at: u64,
    pub file_path: Option<String>,
    pub version: u16,
}

impl DeltaMetadata {
    /// Metadata of the current (second) envelope version, without a file path.
    pub fn new(format: SnapshotFormat, size_bytes: u64, created_at: u64) -> (m: Self)
        ensures
            m.format == format,
            m.size_bytes == size_bytes,
            m.created_at == created_at,
            m.file_path is None,
            m.version == 2,
    {
        Self { format, size_bytes, created_at, file_path: None, version: 2 }
    }

    /// The same metadata with `file_path` set.
    pub fn with_file_path(self, path: String) -> (m: Self)
        ensures
            m.format == self.format,
            m.size_bytes == self.size_bytes,
            m.created_at == self.created_at,
            m.file_path == Some(path),
            m.version == self.version,
    {
        let mut m = self;
        m.file_path = Some(path);
        m
    }
}

} // verus!
