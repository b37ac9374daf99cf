//! Delta snapshot payloads: a postcard list of applied entries, compressed
//! with zstd.

use vstd::prelude::*;
use crate::error::RaftError;
use crate::types::{DeltaEntry, DeltaEntryView};
use crate::wire::{
    append_bytes, encode_bytes, encode_u64, encode_usize, postcard_bytes, postcard_take_bytes,
    postcard_take_u64, postcard_take_usize, postcard_u64, postcard_usize, take_bytes, take_u64,
    take_usize,
};

verus! {

/// zstd compression level of delta payloads.
pub const DELTA_ZSTD_LEVEL: i32 = 3;

/// The zstd frame `zstd::encode_all` produces for `data` at `level`.
pub uninterp spec fn zstd_frame(data: Seq<u8>, level: i32) -> Seq<u8>;

/// What `zstd::decode_all` gives back for `data`, or `None` when it fails.
pub uninterp spec fn zstd_decoded(data: Seq<u8>) -> Option<Seq<u8>>;

/// `zstd::encode_all` on an in-memory buffer at a valid compression level.
/// Reading a slice and writing into a `Vec` cannot fail, so the call
/// succeeds (short of running out of memory); zstd is lossless, so decoding
/// the frame gives the input back.
#[verifier::external_body]
pub(crate) fn zstd_compress(data: &[u8], level: i32) -> (r: Option<Vec<u8>>)
    requires
        1 <= level <= 22,
    ensures
        r is Some,
        r matches Some(c) ==> c@ == zstd_frame(data@, level) && zstd_decoded(c@) == Some(data@),
{
    zstd::stream::encode_all(data, level).ok()
}

/// `zstd::decode_all` on an in-memory buffer.
#[verifier::external_body]
pub(crate) fn zstd_decompress(data: &[u8]) -> (r: Option<Vec<u8>>)
    ensures
        match r {
            Some(d) => zstd_decoded(data@) == Some(d@),
            None => zstd_decoded(data@) is None,
        },
{
    zstd::stream::decode_all(data).ok()
}

/// Postcard encoding of one delta entry.
pub open spec fn delta_entry_bytes(e: DeltaEntryView) -> Seq<u8> {
    postcard_u64(e.term) + postcard_u64(e.index) + postcard_bytes(e.payload)
}

/// Postcard decoding of one delta entry from the front of `b`.
pub open spec fn take_delta_entry(b: Seq<u8>) -> Option<(DeltaEntryView, Seq<u8>)> {
    match postcard_take_u64(b) {
        Some((term, r1)) => match postcard_take_u64(r1) {
            Some((index, r2)) => match postcard_take_bytes(r2) {
                Some((payload, r3)) => Some((DeltaEntryView { term, index, payload }, r3)),
                None => None,
            },
            None => None,
        },
        None => None,
    }
}

/// Decoding of `n` consecutive entries from the front of `b`.
pub open spec fn take_delta_entries(b: Seq<u8>, n: nat) -> Option<(Seq<DeltaEntryView>, Seq<u8>)>
    decreases n,
{
    if n == 0 {
        Some((Seq::empty(), b))
    } else {
        match take_delta_entry(b) {
            Some((e, r)) => match take_delta_entries(r, (n - 1) as nat) {
                Some((es, r2)) => Some((seq![e] + es, r2)),
                None => None,
            },
            None => None,
        }
    }
}

/// Postcard decoding of an entry list (length, then the entries).
pub open spec fn take_delta_list(b: Seq<u8>) -> Option<(Seq<DeltaEntryView>, Seq<u8>)> {
    match postcard_take_usize(b) {
        Some((n, r)) => take_delta_entries(r, n as nat),
        None => None,
    }
}

/// Concatenated encodings of the entries of `es`.
pub open spec fn delta_entries_bytes(es: Seq<DeltaEntryView>) -> Seq<u8>
    decreases es.len(),
{
    if es.len() == 0 {
        Seq::empty()
    } else {
        delta_entries_bytes(es.drop_last()) + delta_entry_bytes(es.last())
    }
}

/// Postcard encoding of an entry list.
pub open spec fn delta_list_bytes(es: Seq<DeltaEntryView>) -> Seq<u8> {
    postcard_usize(es.len() as usize) + delta_entries_bytes(es)
}

/// Views of the entries of a vector.
pub open spec fn delta_views(es: Seq<DeltaEntry>) -> Seq<DeltaEntryView> {
    es.map_values(|e: DeltaEntry| e@)
}

/// Message of a compressed delta payload that cannot be read: the zstd
/// frame does not decompress, or its content is not an entry list.
pub open spec fn delta_payload_error(data: Seq<u8>) -> Seq<char> {
    if zstd_decoded(data) is None { "read delta payload failed"@ } else { "decode delta entries failed"@ }
}

/// Decoding of a compressed delta payload into entries.
pub open spec fn decode_delta_payload(data: Seq<u8>) -> Option<Seq<DeltaEntryView>> {
    match zstd_decoded(data) {
        Some(raw) => match take_delta_list(raw) {
            Some((es, _)) => Some(es),
            None => None,
        },
        None => None,
    }
}

proof fn lemma_take_entries_extend(b: Seq<u8>, n: nat, es: Seq<DeltaEntryView>, r: Seq<u8>, e: DeltaEntryView, r2: Seq<u8>)
    requires
        take_delta_entries(b, n) == Some((es, r)),
        take_delta_entry(r) == Some((e, r2)),
    ensures
        take_delta_entries(b, n + 1) == Some((es.push(e), r2)),
    decreases n,
{
    if n == 0 {
        assert(es =~= Seq::<DeltaEntryView>::empty());
        assert(take_delta_entries(r2, 0) == Some((Seq::<DeltaEntryView>::empty(), r2)));
        assert(seq![e] + Seq::<DeltaEntryView>::empty() =~= es.push(e));
    } else {
        let (e0, r0) = take_delta_entry(b).unwrap();
        let (es1, r1) = take_delta_entries(r0, (n - 1) as nat).unwrap();
        lemma_take_entries_extend(r0, (n - 1) as nat, es1, r1, e, r2);
        assert(seq![e0] + es1.push(e) =~= (seq![e0] + es1).push(e));
    }
}

/// Postcard encoding of one delta entry; decoding it back, followed by any
/// bytes, gives the entry and leaves those bytes.
pub fn encode_delta_entry(e: &DeltaEntry) -> (r: Vec<u8>)
    ensures
        r@ == delta_entry_bytes(e@),
        forall|rest: Seq<u8>| #[trigger] take_delta_entry(r@ + rest) == Some((e@, rest)),
{
    let mut out = encode_u64(e.term);
    let ghost a = out@;
    let i = encode_u64(e.index);
    let p = encode_bytes(&e.payload);
    append_bytes(&mut out, &i);
    append_bytes(&mut out, &p);
    assert forall|rest: Seq<u8>| #[trigger] take_delta_entry(out@ + rest) == Some((e@, rest)) by {
        assert(out@ + rest =~= a + (i@ + (p@ + rest)));
        assert(postcard_take_u64(a + (i@ + (p@ + rest))) == Some((e.term, i@ + (p@ + rest))));
        assert(postcard_take_u64(i@ + (p@ + rest)) == Some((e.index, p@ + rest)));
        assert(postcard_take_bytes(p@ + rest) == Some((e.payload@, rest)));
    }
    out
}

/// Postcard encoding of an entry list; decoding it back gives the list.
pub fn encode_delta_list(entries: &[DeltaEntry]) -> (r: Vec<u8>)
    ensures
        r@ == delta_list_bytes(delta_views(entries@)),
        forall|rest: Seq<u8>| #[trigger] take_delta_list(r@ + rest) == Some((delta_views(entries@), rest)),
{
    let ghost views = delta_views(entries@);
    let mut body: Vec<u8> = Vec::new();
    let mut i: usize = 0;
    while i < entries.len()
        invariant
            i <= entries@.len(),
            views == delta_views(entries@),
            body@ == delta_entries_bytes(views.subrange(0, i as int)),
            forall|rest: Seq<u8>| #[trigger] take_delta_entries(body@ + rest, i as nat) == Some((views.subrange(0, i as int), rest)),
        decreases entries@.len() - i,
    {
        let eb = encode_delta_entry(&entries[i]);
        let ghost before = body@;
        append_bytes(&mut body, &eb);
        proof {
            let pre = views.subrange(0, i as int);
            let post = views.subrange(0, i + 1);
            assert(post =~= pre.push(views[i as int]));
            assert(post.drop_last() =~= pre);
            assert(views[i as int] == entries@[i as int]@);
            assert forall|rest: Seq<u8>| #[trigger] take_delta_entries(body@ + rest, (i + 1) as nat) == Some((post, rest)) by {
                assert(body@ + rest =~= before + (eb@ + rest));
                assert(take_delta_entries(before + (eb@ + rest), i as nat) == Some((pre, eb@ + rest)));
                assert(take_delta_entry(eb@ + rest) == Some((views[i as int], rest)));
                lemma_take_entries_extend(before + (eb@ + rest), i as nat, pre, eb@ + rest, views[i as int], rest);
            }
        }
        i = i + 1;
    }
    assert(views.subrange(0, entries@.len() as int) =~= views);
    let mut out = encode_usize(entries.len());
    let ghost h = out@;
    append_bytes(&mut out, &body);
    assert forall|rest: Seq<u8>| #[trigger] take_delta_list(out@ + rest) == Some((views, rest)) by {
        assert(out@ + rest =~= h + (body@ + rest));
        assert(postcard_take_usize(h + (body@ + rest)) == Some((entries@.len() as usize, body@ + rest)));
    }
    out
}

/// Decodes a postcard entry list from the front of `b`, returning the
/// unread rest.
pub fn take_delta_entry_list(b: &[u8]) -> (r: Option<(Vec<DeltaEntry>, &[u8])>)
    ensures
        match r {
            Some((es, rest)) => take_delta_list(b@) == Some((delta_views(es@), rest@)),
            None => take_delta_list(b@) is None,
        },
{
    let (n, mut cur) = match take_usize(b) {
        Some(x) => x,
        None => return None,
    };
    let ghost start = cur@;
    let mut out: Vec<DeltaEntry> = Vec::new();
    let mut i: usize = 0;
    while i < n
        invariant
            i <= n,
            postcard_take_usize(b@) == Some((n, start)),
            out@.len() == i,
            take_delta_entries(start, n as nat) == match take_delta_entries(cur@, (n - i) as nat) {
                Some((es, r)) => Some((delta_views(out@) + es, r)),
                None => None,
            },
        decreases n - i,
    {
        let (term, c1) = match take_u64(cur) {
            Some(x) => x,
            None => return None,
        };
        let (index, c2) = match take_u64(c1) {
            Some(x) => x,
            None => return None,
        };
        let (payload, c3) = match take_bytes(c2) {
            Some(x) => x,
            None => return None,
        };
        let ghost e = DeltaEntryView { term, index, payload: payload@ };
        let ghost old_out = out@;
        out.push(DeltaEntry { term, index, payload });
        proof {
            assert(take_delta_entry(cur@) == Some((e, c3@)));
            assert(delta_views(out@) =~= delta_views(old_out) + seq![e]);
            match take_delta_entries(c3@, (n - i - 1) as nat) {
                Some((es, r)) => {
                    assert(delta_views(old_out) + (seq![e] + es) =~= delta_views(out@) + es);
                },
                None => {},
            }
        }
        cur = c3;
        i = i + 1;
    }
    assert(delta_views(out@) + Seq::<DeltaEntryView>::empty() =~= delta_views(out@));
    Some((out, cur))
}

/// Codec for delta snapshot payloads.
pub struct DeltaSnapshotCodec;

impl DeltaSnapshotCodec {
    /// Serializes the entries with postcard and compresses them with zstd at
    /// level 3; this always succeeds. Decoding the result gives the entries
    /// back.
    pub fn encode_entries(entries: &[DeltaEntry]) -> (r: Result<Vec<u8>, RaftError>)
        ensures
            match r {
                Ok(c) => c@ == zstd_frame(delta_list_bytes(delta_views(entries@)), DELTA_ZSTD_LEVEL)
                    && decode_delta_payload(c@) == Some(delta_views(entries@)),
                Err(_) => false,
            },
    {
        let encoded = encode_delta_list(entries);
        match zstd_compress(encoded.as_slice(), DELTA_ZSTD_LEVEL) {
            Some(c) => {
                proof {
                    assert(encoded@ + Seq::<u8>::empty() =~= encoded@);
                    assert(take_delta_list(encoded@ + Seq::<u8>::empty()) == Some((delta_views(entries@), Seq::<u8>::empty())));
                }
                Ok(c)
            },
            None => Err(RaftError::Snapshot(String::from_str("delta compression failed"))),
        }
    }

    /// Decompresses and deserializes delta entries; a `Snapshot` error when
    /// the data is not a zstd frame or its content not an entry list.
    pub fn decode_entries(data: &[u8]) -> (r: Result<Vec<DeltaEntry>, RaftError>)
        ensures
            match r {
                Ok(es) => decode_delta_payload(data@) == Some(delta_views(es@)),
                Err(e) => decode_delta_payload(data@) is None
                    && (e matches RaftError::Snapshot(m) && m@ == delta_payload_error(data@)),
            },
    {
        proof {
            reveal_strlit("read delta payload failed");
            reveal_strlit("decode delta entries failed");
        }
        let raw = match zstd_decompress(data) {
            Some(raw) => raw,
            None => return Err(RaftError::Snapshot(String::from_str("read delta payload failed"))),
        };
        match take_delta_entry_list(raw.as_slice()) {
            Some((es, _rest)) => Ok(es),
            None => Err(RaftError::Snapshot(String::from_str("decode delta entries failed"))),
        }
    }
}

} // verus!
