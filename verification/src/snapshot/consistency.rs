//! Sequence numbers that tie a checkpoint to the storage engine's state.
//!
//! A checkpoint's sequence number is taken, in order of preference, from
//! the engine's checkpoint call, from a fixed key of the engine, or from the
//! checkpoint's manifest file. It is written both to the key (8 bytes,
//! big-endian) and to the manifest (version, timestamp and sequence number,
//! big-endian).

use vstd::prelude::*;
use crate::error::RaftError;

verus! {

/// Name of the manifest file inside a checkpoint directory.
pub const CHECKPOINT_METADATA_FILE: &'static str = "CHECKPOINT_METADATA";
/// Engine key that holds the sequence number.
pub const CONSISTENCY_SEQ_KEY: &'static str = "raft_consistency:sequence_number";

/// Big-endian value of a byte string.
pub open spec fn be_value(b: Seq<u8>) -> nat
    decreases b.len(),
{
    if b.len() == 0 { 0 } else { be_value(b.drop_last()) * 256 + b.last() as nat }
}

proof fn lemma_be_value_bound(b: Seq<u8>)
    ensures
        be_value(b) < pow256(b.len()),
    decreases b.len(),
{
    if b.len() > 0 {
        lemma_be_value_bound(b.drop_last());
        let v = be_value(b.drop_last());
        let p = pow256(b.drop_last().len());
        assert(v * 256 + (b.last() as nat) < p * 256) by (nonlinear_arith)
            requires v < p, b.last() < 256;
    }
}

/// `256^n`.
pub open spec fn pow256(n: nat) -> nat
    decreases n,
{
    if n == 0 { 1 } else { pow256((n - 1) as nat) * 256 }
}

/// Reads the big-endian value of `b[from..from + 8]`.
pub fn read_be_u64(b: &[u8], from: usize) -> (v: u64)
    requires
        from + 8 <= b@.len(),
    ensures
        v == be_value(b@.subrange(from as int, from + 8)),
{
    let n = b.len();
    let mut v: u64 = 0;
    let mut i: usize = 0;
    while i < 8
        invariant
            n == b@.len(),
            from + 8 <= b@.len(),
            i <= 8,
            v == be_value(b@.subrange(from as int, from + i)),
        decreases 8 - i,
    {
        proof {
            lemma_be_value_bound(b@.subrange(from as int, from + i));
            assert(pow256(i as nat) <= pow256(7)) by {
                lemma_pow256_monotone(i as nat, 7);
            }
            assert(pow256(7) == 72057594037927936) by { reveal_with_fuel(pow256, 8); }
            assert(b@.subrange(from as int, from + i + 1).drop_last() =~= b@.subrange(from as int, from + i));
            assert(v * 256 + 255 <= u64::MAX) by (nonlinear_arith)
                requires v < 72057594037927936nat;
        }
        v = v * 256 + b[from + i] as u64;
        i = i + 1;
    }
    v
}

proof fn lemma_pow256_monotone(a: nat, b: nat)
    requires
        a <= b,
    ensures
        pow256(a) <= pow256(b),
    decreases b,
{
    if a < b {
        lemma_pow256_monotone(a, (b - 1) as nat);
    }
}

/// Sequence number recorded in a checkpoint manifest: bytes 12 to 20,
/// big-endian; none when the manifest is shorter than 20 bytes.
pub open spec fn manifest_sequence(data: Seq<u8>) -> Option<u64> {
    if data.len() < 20 { None } else { Some(be_value(data.subrange(12, 20)) as u64) }
}

/// Computes [`manifest_sequence`].
pub fn parse_sequence_from_manifest_bytes(data: &[u8]) -> (r: Option<u64>)
    ensures
        r == manifest_sequence(data@),
{
    if data.len() < 20 {
        return None;
    }
    let v = read_be_u64(data, 12);
    Some(v)
}

/// Whether `s` is an optional `+` followed by one or more ASCII digits.
pub open spec fn ascii_decimal_digits(s: Seq<u8>) -> Seq<u8> {
    if s.len() > 0 && s[0] == 43u8 { s.drop_first() } else { s }
}

/// Value of ASCII decimal digits.
pub open spec fn ascii_digits_value(d: Seq<u8>) -> nat
    decreases d.len(),
{
    if d.len() == 0 { 0 } else { ascii_digits_value(d.drop_last()) * 10 + (d.last() - 48) as nat }
}

/// The value of a persisted sequence number: eight bytes are a big-endian
/// value; other contents must be decimal text (an optional `+` and ASCII
/// digits, as `str::parse::<u64>` accepts) fitting in 64 bits.
pub open spec fn stored_sequence(raw: Seq<u8>) -> Option<u64> {
    if raw.len() == 8 {
        Some(be_value(raw) as u64)
    } else {
        let d = ascii_decimal_digits(raw);
        if d.len() > 0 && (forall|i: int| 0 <= i < d.len() ==> 48 <= #[trigger] d[i] <= 57) && ascii_digits_value(d) <= u64::MAX {
            Some(ascii_digits_value(d) as u64)
        } else {
            None
        }
    }
}

/// Reads the persisted consistency key.
#[derive(Debug, Clone, Copy)]
pub struct PersistedKeySequenceNumberReader;

/// Writes the persisted consistency key.
#[derive(Debug, Clone, Copy)]
pub struct PersistedKeySequenceNumberWriter;

impl PersistedKeySequenceNumberReader {
    /// The sequence number held by the key's value (`None` when the key is
    /// absent).
    pub fn decode(value: Option<Vec<u8>>) -> (r: Result<u64, RaftError>)
        ensures
            match value {
                None => r matches Err(RaftError::Snapshot(m)) && m@ == "persisted consistency key is missing"@,
                Some(raw) => match stored_sequence(raw@) {
                    Some(v) => r == Ok::<u64, RaftError>(v),
                    None => r matches Err(RaftError::Snapshot(m)) && m@ == "persisted consistency key has unsupported format"@,
                },
            },
    {
        match value {
            Some(raw) => Self::decode_raw(&raw),
            None => Err(RaftError::Snapshot(String::from_str("persisted consistency key is missing"))),
        }
    }

    proof fn lemma_overflow(raw: Seq<u8>, d: Seq<u8>, start: int, i: int, v: u64, c: u8)
        requires
            0 <= start <= i < raw.len(),
            raw.len() != 8,
            d == raw.subrange(start, raw.len() as int),
            d == ascii_decimal_digits(raw),
            forall|j: int| start <= j < i ==> 48 <= #[trigger] raw[j] <= 57,
            v == ascii_digits_value(raw.subrange(start, i)),
            c == raw[i],
            48 <= c <= 57,
            v * 10 + (c - 48) > u64::MAX,
        ensures
            stored_sequence(raw) is None,
    {
        let k = i - start + 1;
        assert(d.subrange(0, k) =~= raw.subrange(start, i + 1));
        assert(raw.subrange(start, i + 1).drop_last() =~= raw.subrange(start, i));
        assert(ascii_digits_value(raw.subrange(start, i + 1)) == v * 10 + (c - 48) as nat);
        assert forall|j: int| 0 <= j < k implies 48 <= #[trigger] d[j] <= 57 by {
            assert(d[j] == raw[start + j]);
        }
        lemma_digits_value_grows(d, k);
    }

    fn decode_raw(raw: &Vec<u8>) -> (r: Result<u64, RaftError>)
        ensures
            match stored_sequence(raw@) {
                Some(v) => r == Ok::<u64, RaftError>(v),
                None => r matches Err(RaftError::Snapshot(m)) && m@ == "persisted consistency key has unsupported format"@,
            },
    {
        if raw.len() == 8 {
            let v = read_be_u64(raw.as_slice(), 0);
            assert(raw@.subrange(0, 8) =~= raw@);
            return Ok(v);
        }
        let n = raw.len();
        let start: usize = if n > 0 && raw[0] == 43u8 { 1 } else { 0 };
        let ghost d = ascii_decimal_digits(raw@);
        assert(d =~= raw@.subrange(start as int, n as int));
        if start >= n {
            proof {
                assert(d.len() == 0);
                assert(stored_sequence(raw@) is None);
            }
            return Err(RaftError::Snapshot(String::from_str("persisted consistency key has unsupported format")));
        }
        let mut v: u64 = 0;
        let mut i: usize = start;
        while i < n
            invariant
                n == raw@.len(),
                raw@.len() != 8,
                start <= i <= n,
                d == raw@.subrange(start as int, n as int),
                d == ascii_decimal_digits(raw@),
                forall|j: int| start <= j < i ==> 48 <= #[trigger] raw@[j] <= 57,
                v == ascii_digits_value(raw@.subrange(start as int, i as int)),
            decreases n - i,
        {
            let c = raw[i];
            if c < 48 || c > 57 {
                proof {
                    assert(d[i - start] == c);
                    assert(!(48 <= d[i - start] <= 57));
                    assert(raw@.len() != 8);
                    assert(stored_sequence(raw@) is None);
                }
                return Err(RaftError::Snapshot(String::from_str("persisted consistency key has unsupported format")));
            }
            proof {
                assert(raw@.subrange(start as int, i + 1).drop_last() =~= raw@.subrange(start as int, i as int));
            }
            let digit = (c - 48) as u64;
            match v.checked_mul(10) {
                Some(t) => match t.checked_add(digit) {
                    Some(u) => { v = u; },
                    None => {
                        proof { Self::lemma_overflow(raw@, d, start as int, i as int, v, c); }
                        return Err(RaftError::Snapshot(String::from_str("persisted consistency key has unsupported format")));
                    },
                },
                None => {
                    proof { Self::lemma_overflow(raw@, d, start as int, i as int, v, c); }
                    return Err(RaftError::Snapshot(String::from_str("persisted consistency key has unsupported format")));
                },
            }
            i = i + 1;
        }
        proof { assert(raw@.subrange(start as int, n as int) == d); }
        Ok(v)
    }
}

/// The value of all the digits is at least that of any prefix.
proof fn lemma_digits_value_grows(d: Seq<u8>, k: int)
    requires
        0 <= k <= d.len(),
        forall|i: int| 0 <= i < k ==> 48 <= #[trigger] d[i] <= 57,
    ensures
        (forall|i: int| 0 <= i < d.len() ==> 48 <= #[trigger] d[i] <= 57)
            ==> ascii_digits_value(d) >= ascii_digits_value(d.subrange(0, k)),
    decreases d.len(),
{
    if d.len() > k {
        let d2 = d.drop_last();
        lemma_digits_value_grows(d2, k);
        assert(d2.subrange(0, k) =~= d.subrange(0, k));
        if forall|i: int| 0 <= i < d.len() ==> 48 <= #[trigger] d[i] <= 57 {
            assert(forall|i: int| 0 <= i < d2.len() ==> 48 <= #[trigger] d2[i] <= 57) by {
                assert forall|i: int| 0 <= i < d2.len() implies 48 <= #[trigger] d2[i] <= 57 by {
                    assert(d2[i] == d[i]);
                }
            }
            let v2 = ascii_digits_value(d2);
            assert(v2 * 10 >= v2) by (nonlinear_arith);
        }
    } else {
        assert(d.subrange(0, k) =~= d);
    }
}

impl PersistedKeySequenceNumberWriter {
    /// Value written to the key: the big-endian bytes of the number.
    pub fn encode(sequence_number: u64) -> (r: Vec<u8>)
        ensures
            r@.len() == 8,
            be_value(r@) == sequence_number,
    {
        be_bytes(sequence_number)
    }
}

/// The eight big-endian bytes of `n`.
pub fn be_bytes(n: u64) -> (r: Vec<u8>)
    ensures
        r@.len() == 8,
        be_value(r@) == n,
{
    let c0: u64 = (n >> 56u64) & 0xff;
    let c1: u64 = (n >> 48u64) & 0xff;
    let c2: u64 = (n >> 40u64) & 0xff;
    let c3: u64 = (n >> 32u64) & 0xff;
    let c4: u64 = (n >> 24u64) & 0xff;
    let c5: u64 = (n >> 16u64) & 0xff;
    let c6: u64 = (n >> 8u64) & 0xff;
    let c7: u64 = n & 0xff;
    assert(c0 < 256 && c1 < 256 && c2 < 256 && c3 < 256 && c4 < 256 && c5 < 256 && c6 < 256 && c7 < 256) by (bit_vector)
        requires
            c0 == (n >> 56u64) & 0xff, c1 == (n >> 48u64) & 0xff, c2 == (n >> 40u64) & 0xff, c3 == (n >> 32u64) & 0xff,
            c4 == (n >> 24u64) & 0xff, c5 == (n >> 16u64) & 0xff, c6 == (n >> 8u64) & 0xff, c7 == n & 0xff;
    let r = vec![c0 as u8, c1 as u8, c2 as u8, c3 as u8, c4 as u8, c5 as u8, c6 as u8, c7 as u8];
    proof {
        assert(n == ((((((c0 * 256 + c1) * 256 + c2) * 256 + c3) * 256 + c4) * 256 + c5) * 256 + c6) * 256 + c7) by (bit_vector)
            requires
                c0 == (n >> 56u64) & 0xff, c1 == (n >> 48u64) & 0xff, c2 == (n >> 40u64) & 0xff, c3 == (n >> 32u64) & 0xff,
                c4 == (n >> 24u64) & 0xff, c5 == (n >> 16u64) & 0xff, c6 == (n >> 8u64) & 0xff, c7 == n & 0xff;
        let s = r@;
        assert(s[0] as nat == c0 && s[1] as nat == c1 && s[2] as nat == c2 && s[3] as nat == c3);
        assert(s[4] as nat == c4 && s[5] as nat == c5 && s[6] as nat == c6 && s[7] as nat == c7);
        assert(s.subrange(0, 1).drop_last() =~= Seq::<u8>::empty());
        assert(be_value(Seq::<u8>::empty()) == 0);
        assert(be_value(s.subrange(0, 1)) == c0) by {
            assert(s.subrange(0, 1).last() == s[0]);
        }
        assert(be_value(s.subrange(0, 2)) == c0 * 256 + c1) by {
            assert(s.subrange(0, 2).drop_last() =~= s.subrange(0, 1));
        }
        assert(be_value(s.subrange(0, 3)) == (c0 * 256 + c1) * 256 + c2) by {
            assert(s.subrange(0, 3).drop_last() =~= s.subrange(0, 2));
        }
        assert(be_value(s.subrange(0, 4)) == ((c0 * 256 + c1) * 256 + c2) * 256 + c3) by {
            assert(s.subrange(0, 4).drop_last() =~= s.subrange(0, 3));
        }
        assert(be_value(s.subrange(0, 5)) == (((c0 * 256 + c1) * 256 + c2) * 256 + c3) * 256 + c4) by {
            assert(s.subrange(0, 5).drop_last() =~= s.subrange(0, 4));
        }
        assert(be_value(s.subrange(0, 6)) == ((((c0 * 256 + c1) * 256 + c2) * 256 + c3) * 256 + c4) * 256 + c5) by {
            assert(s.subrange(0, 6).drop_last() =~= s.subrange(0, 5));
        }
        assert(be_value(s.subrange(0, 7)) == (((((c0 * 256 + c1) * 256 + c2) * 256 + c3) * 256 + c4) * 256 + c5) * 256 + c6) by {
            assert(s.subrange(0, 7).drop_last() =~= s.subrange(0, 6));
        }
        assert(s.drop_last() =~= s.subrange(0, 7));
    }
    r
}

/// The manifest written next to a checkpoint: format version 1, the
/// timestamp and the sequence number, each big-endian.
pub fn manifest_bytes(timestamp: u64, sequence_number: u64) -> (r: Vec<u8>)
    ensures
        r@.len() == 20,
        manifest_sequence(r@) == Some(sequence_number),
        be_value(r@.subrange(0, 4)) == 1,
        be_value(r@.subrange(4, 12)) == timestamp,
{
    let mut r: Vec<u8> = vec![0u8, 0u8, 0u8, 1u8];
    let mut t = be_bytes(timestamp);
    let mut q = be_bytes(sequence_number);
    let ghost tv = t@;
    let ghost qv = q@;
    r.append(&mut t);
    r.append(&mut q);
    proof {
        assert(r@.subrange(12, 20) =~= qv);
        assert(r@.subrange(4, 12) =~= tv);
        let h = r@.subrange(0, 4);
        assert(h.drop_last().drop_last().drop_last().drop_last() =~= Seq::<u8>::empty());
        assert(h.drop_last().drop_last().drop_last() =~= seq![0u8]);
        assert(be_value(Seq::<u8>::empty()) == 0);
        assert(be_value(seq![0u8]) == 0) by {
            assert(seq![0u8].drop_last() =~= Seq::<u8>::empty());
        }
        assert(be_value(seq![0u8, 0u8]) == 0) by {
            assert(seq![0u8, 0u8].drop_last() =~= seq![0u8]);
        }
        assert(be_value(seq![0u8, 0u8, 0u8]) == 0) by {
            assert(seq![0u8, 0u8, 0u8].drop_last() =~= seq![0u8, 0u8]);
        }
        assert(h.drop_last().drop_last() =~= seq![0u8, 0u8]);
        assert(h.drop_last() =~= seq![0u8, 0u8, 0u8]);
    }
    r
}

/// The sequence number of a new checkpoint: the engine's own, else the
/// persisted key's, else the manifest's (an error reading the manifest is
/// reported); a snapshot error when none is available.
pub fn resolve_sequence_number(
    from_checkpoint: Option<u64>,
    from_key: Result<u64, RaftError>,
    from_manifest: Result<Option<u64>, RaftError>,
) -> (r: Result<u64, RaftError>)
    ensures
        match from_checkpoint {
            Some(v) => r == Ok::<u64, RaftError>(v),
            None => match from_key {
                Ok(v) => r == Ok::<u64, RaftError>(v),
                Err(_) => match from_manifest {
                    Err(e) => r == Err::<u64, RaftError>(e),
                    Ok(Some(v)) => r == Ok::<u64, RaftError>(v),
                    Ok(None) => r matches Err(RaftError::Snapshot(m)) && m@ == "sequence number unavailable from all sources"@,
                },
            },
        },
{
    if let Some(seq) = from_checkpoint {
        return Ok(seq);
    }
    if let Ok(seq) = from_key {
        return Ok(seq);
    }
    match from_manifest {
        Err(e) => Err(e),
        Ok(Some(seq)) => Ok(seq),
        Ok(None) => Err(RaftError::Snapshot(String::from_str("sequence number unavailable from all sources"))),
    }
}

} // verus!
