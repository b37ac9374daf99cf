//! Postcard primitives.
//!
//! Every on-disk and on-wire record of this crate (log payloads, delta entry
//! lists, snapshot envelopes, checkpoint metadata) is a postcard encoding:
//! struct fields are written one after another, an enum is its variant index
//! as a `u32` varint followed by the variant's fields, an `Option` is a tag
//! followed by the value. The record grammars themselves are written in the
//! modules that own the records; this module only exposes postcard's
//! encoding and decoding of the primitive field types.
//!
//! Each encoder is `postcard::to_stdvec` on one primitive value, and its
//! result is stated below (varints, length-prefixed bytes and strings, a
//! tagged option). Each decoder is `postcard::take_from_bytes` for one
//! primitive type; its result is named, and the contracts state the fact
//! the record codecs need: decoding what was encoded, followed by any
//! further bytes, gives the value back and leaves exactly those further
//! bytes.

use vstd::prelude::*;
use vstd::utf8::encode_utf8;

verus! {

/// The varint of `n`: seven bits per byte, least significant group first,
/// with the high bit set on every byte but the last.
pub open spec fn varint(n: nat) -> Seq<u8>
    decreases n,
{
    if n < 128 {
        seq![n as u8]
    } else {
        seq![(n % 128 + 128) as u8] + varint(n / 128)
    }
}

/// Postcard encoding of a `u16`: its varint.
pub open spec fn postcard_u16(v: u16) -> Seq<u8> {
    varint(v as nat)
}
/// `128^k`.
pub open spec fn p128(k: nat) -> nat
    decreases k,
{
    if k == 0 { 1 } else { 128 * p128((k - 1) as nat) }
}

/// A varint read from the front of `b` the way postcard reads one of a type
/// that takes at most `budget` bytes and whose last byte may hold at most
/// `last_max`: the value and the number of bytes read, or `None` when the
/// bytes run out, the varint is longer than `budget`, or its last byte is
/// too large.
pub open spec fn varint_take(b: Seq<u8>, budget: nat, last_max: u8) -> Option<(nat, nat)>
    decreases budget,
{
    if budget == 0 || b.len() == 0 {
        None
    } else if b[0] < 128 {
        if budget == 1 && b[0] > last_max { None } else { Some((b[0] as nat, 1nat)) }
    } else {
        match varint_take(b.drop_first(), (budget - 1) as nat, last_max) {
            Some((v, n)) => Some(((b[0] - 128) as nat + 128 * v, n + 1)),
            None => None,
        }
    }
}

/// Postcard decoding of a `u16` from the front of `b` (a varint of at most
/// 3 bytes, the last at most 3): the value and the rest.
pub open spec fn postcard_take_u16(b: Seq<u8>) -> Option<(u16, Seq<u8>)> {
    match varint_take(b, 3, 3) {
        Some((v, n)) => Some((v as u16, b.subrange(n as int, b.len() as int))),
        None => None,
    }
}
/// Postcard encoding of a `u32`: its varint.
pub open spec fn postcard_u32(v: u32) -> Seq<u8> {
    varint(v as nat)
}
/// Postcard decoding of a `u32` from the front of `b` (a varint of at most
/// 5 bytes, the last at most 15).
pub open spec fn postcard_take_u32(b: Seq<u8>) -> Option<(u32, Seq<u8>)> {
    match varint_take(b, 5, 15) {
        Some((v, n)) => Some((v as u32, b.subrange(n as int, b.len() as int))),
        None => None,
    }
}
/// Postcard encoding of a `u64`: its varint.
pub open spec fn postcard_u64(v: u64) -> Seq<u8> {
    varint(v as nat)
}
/// Postcard decoding of a `u64` from the front of `b` (a varint of at most
/// 10 bytes, the last at most 1).
pub open spec fn postcard_take_u64(b: Seq<u8>) -> Option<(u64, Seq<u8>)> {
    match varint_take(b, 10, 1) {
        Some((v, n)) => Some((v as u64, b.subrange(n as int, b.len() as int))),
        None => None,
    }
}
/// Postcard encoding of a `usize` (written as a `u64`), the form every
/// sequence length takes.
pub open spec fn postcard_usize(v: usize) -> Seq<u8> {
    varint(v as nat)
}
/// Postcard decoding of a `usize` from the front of `b`.
pub uninterp spec fn postcard_take_usize(b: Seq<u8>) -> Option<(usize, Seq<u8>)>;
/// Postcard encoding of a byte vector: the length, then the bytes.
pub open spec fn postcard_bytes(v: Seq<u8>) -> Seq<u8> {
    varint(v.len()) + v
}
/// Postcard decoding of a byte vector from the front of `b`.
pub uninterp spec fn postcard_take_bytes(b: Seq<u8>) -> Option<(Seq<u8>, Seq<u8>)>;
/// Postcard encoding of a string: its UTF-8 byte length, then those bytes.
pub open spec fn postcard_str(s: Seq<char>) -> Seq<u8> {
    varint(encode_utf8(s).len()) + encode_utf8(s)
}
/// Postcard decoding of a string from the front of `b`.
pub uninterp spec fn postcard_take_str(b: Seq<u8>) -> Option<(Seq<char>, Seq<u8>)>;
/// Postcard encoding of an optional string: tag 0 for none, else tag 1 and
/// the string.
pub open spec fn postcard_opt_str(s: Option<Seq<char>>) -> Seq<u8> {
    match s {
        None => seq![0u8],
        Some(x) => seq![1u8] + postcard_str(x),
    }
}
/// Postcard decoding of an optional string from the front of `b`.
pub uninterp spec fn postcard_take_opt_str(b: Seq<u8>) -> Option<(Option<Seq<char>>, Seq<u8>)>;

/// The view of an optional string.
pub open spec fn opt_str_view(s: Option<String>) -> Option<Seq<char>> {
    match s {
        Some(x) => Some(x@),
        None => None,
    }
}

/// Reading back a varint, followed by any bytes, gives its value and
/// reads exactly its bytes, when the value fits the type's budget.
proof fn lemma_varint_roundtrip(v: nat, rest: Seq<u8>, budget: nat, last_max: u8)
    requires
        budget >= 1,
        last_max < 128,
        v < p128((budget - 1) as nat) * (last_max + 1),
    ensures
        varint_take(varint(v) + rest, budget, last_max) == Some((v, varint(v).len())),
    decreases budget,
{
    let b = varint(v) + rest;
    if v < 128 {
        assert(varint(v) == seq![v as u8]);
        assert(b[0] == v as u8);
        if budget == 1 {
            let q = p128(0);
            assert(q == 1);
            assert(q * (last_max + 1) == last_max + 1) by (nonlinear_arith)
                requires
                    q == 1,
            {
            }
        }
        assert(varint(v).len() == 1);
    } else {
        if budget == 1 {
            let q = p128(0);
            assert(q == 1);
            assert(q * (last_max + 1) == last_max + 1) by (nonlinear_arith)
                requires
                    q == 1,
            {
            }
        }
        let k = (budget - 2) as nat;
        assert(p128((budget - 1) as nat) == 128 * p128(k));
        assert(v / 128 < p128(k) * (last_max + 1)) by (nonlinear_arith)
            requires
                v < 128 * p128(k) * (last_max + 1),
        {
        }
        lemma_varint_roundtrip(v / 128, rest, (budget - 1) as nat, last_max);
        assert(varint(v) == seq![(v % 128 + 128) as u8] + varint(v / 128));
        assert(b.drop_first() =~= varint(v / 128) + rest);
        assert(b[0] == (v % 128 + 128) as u8);
        assert(((v % 128 + 128) as u8 - 128) as nat + 128 * (v / 128) == v);
        assert(varint(v).len() == 1 + varint(v / 128).len());
    }
}

/// `postcard::to_stdvec` on a `u16`. Serializing into a growable vector
/// cannot fail for a primitive, so the encoding is returned directly.
#[verifier::external_body]
fn to_stdvec_u16(v: u16) -> (r: Vec<u8>)
    ensures
        r@ == postcard_u16(v),
{
    postcard::to_stdvec(&v).expect("postcard encoding of a u16 into a Vec")
}

/// Postcard encoding of a `u16`; reading it back, followed by any bytes,
/// gives `v` and those bytes.
pub(crate) fn encode_u16(v: u16) -> (r: Vec<u8>)
    ensures
        r@ == postcard_u16(v),
        forall|rest: Seq<u8>| #[trigger] postcard_take_u16(r@ + rest) == Some((v, rest)),
{
    let r = to_stdvec_u16(v);
    proof {
        assert forall|rest: Seq<u8>| #[trigger] postcard_take_u16(r@ + rest) == Some((v, rest)) by {
            assert(p128(2) == 16384) by { reveal_with_fuel(p128, 3); }
            lemma_varint_roundtrip(v as nat, rest, 3, 3);
            assert((r@ + rest).subrange(r@.len() as int, (r@ + rest).len() as int) =~= rest);
        }
    }
    r
}

/// `postcard::take_from_bytes::<u16>`: the value and the unread rest.
#[verifier::external_body]
pub(crate) fn take_u16(b: &[u8]) -> (r: Option<(u16, &[u8])>)
    ensures
        match r {
            Some((v, rest)) => postcard_take_u16(b@) == Some((v, rest@)),
            None => postcard_take_u16(b@) is None,
        },
{
    postcard::take_from_bytes::<u16>(b).ok()
}

/// `postcard::to_stdvec` on a `u32`.
#[verifier::external_body]
fn to_stdvec_u32(v: u32) -> (r: Vec<u8>)
    ensures
        r@ == postcard_u32(v),
{
    postcard::to_stdvec(&v).expect("postcard encoding of a u32 into a Vec")
}

/// Postcard encoding of a `u32`; reading it back, followed by any bytes,
/// gives `v` and those bytes.
pub(crate) fn encode_u32(v: u32) -> (r: Vec<u8>)
    ensures
        r@ == postcard_u32(v),
        forall|rest: Seq<u8>| #[trigger] postcard_take_u32(r@ + rest) == Some((v, rest)),
{
    let r = to_stdvec_u32(v);
    proof {
        assert forall|rest: Seq<u8>| #[trigger] postcard_take_u32(r@ + rest) == Some((v, rest)) by {
            assert(p128(4) == 268435456) by { reveal_with_fuel(p128, 5); }
            lemma_varint_roundtrip(v as nat, rest, 5, 15);
            assert((r@ + rest).subrange(r@.len() as int, (r@ + rest).len() as int) =~= rest);
        }
    }
    r
}

/// `postcard::take_from_bytes::<u32>`.
#[verifier::external_body]
pub(crate) fn take_u32(b: &[u8]) -> (r: Option<(u32, &[u8])>)
    ensures
        match r {
            Some((v, rest)) => postcard_take_u32(b@) == Some((v, rest@)),
            None => postcard_take_u32(b@) is None,
        },
{
    postcard::take_from_bytes::<u32>(b).ok()
}

/// `postcard::to_stdvec` on a `u64`.
#[verifier::external_body]
fn to_stdvec_u64(v: u64) -> (r: Vec<u8>)
    ensures
        r@ == postcard_u64(v),
{
    postcard::to_stdvec(&v).expect("postcard encoding of a u64 into a Vec")
}

/// Postcard encoding of a `u64`; reading it back, followed by any bytes,
/// gives `v` and those bytes.
pub(crate) fn encode_u64(v: u64) -> (r: Vec<u8>)
    ensures
        r@ == postcard_u64(v),
        forall|rest: Seq<u8>| #[trigger] postcard_take_u64(r@ + rest) == Some((v, rest)),
{
    let r = to_stdvec_u64(v);
    proof {
        assert forall|rest: Seq<u8>| #[trigger] postcard_take_u64(r@ + rest) == Some((v, rest)) by {
            assert(p128(9) == 9223372036854775808) by { reveal_with_fuel(p128, 10); }
            lemma_varint_roundtrip(v as nat, rest, 10, 1);
            assert((r@ + rest).subrange(r@.len() as int, (r@ + rest).len() as int) =~= rest);
        }
    }
    r
}

/// `postcard::take_from_bytes::<u64>`.
#[verifier::external_body]
pub(crate) fn take_u64(b: &[u8]) -> (r: Option<(u64, &[u8])>)
    ensures
        match r {
            Some((v, rest)) => postcard_take_u64(b@) == Some((v, rest@)),
            None => postcard_take_u64(b@) is None,
        },
{
    postcard::take_from_bytes::<u64>(b).ok()
}

/// `postcard::to_stdvec` on a `usize`.
#[verifier::external_body]
pub(crate) fn encode_usize(v: usize) -> (r: Vec<u8>)
    ensures
        r@ == postcard_usize(v),
        forall|rest: Seq<u8>| #[trigger] postcard_take_usize(r@ + rest) == Some((v, rest)),
{
    postcard::to_stdvec(&v).expect("postcard encoding of a usize into a Vec")
}

/// `postcard::take_from_bytes::<usize>`.
#[verifier::external_body]
pub(crate) fn take_usize(b: &[u8]) -> (r: Option<(usize, &[u8])>)
    ensures
        match r {
            Some((v, rest)) => postcard_take_usize(b@) == Some((v, rest@)),
            None => postcard_take_usize(b@) is None,
        },
{
    postcard::take_from_bytes::<usize>(b).ok()
}

/// `postcard::to_stdvec` on a byte vector.
#[verifier::external_body]
pub(crate) fn encode_bytes(v: &Vec<u8>) -> (r: Vec<u8>)
    ensures
        r@ == postcard_bytes(v@),
        forall|rest: Seq<u8>| #[trigger] postcard_take_bytes(r@ + rest) == Some((v@, rest)),
{
    postcard::to_stdvec(v).expect("postcard encoding of a byte vector into a Vec")
}

/// `postcard::take_from_bytes::<Vec<u8>>`.
#[verifier::external_body]
pub(crate) fn take_bytes(b: &[u8]) -> (r: Option<(Vec<u8>, &[u8])>)
    ensures
        match r {
            Some((v, rest)) => postcard_take_bytes(b@) == Some((v@, rest@)),
            None => postcard_take_bytes(b@) is None,
        },
{
    postcard::take_from_bytes::<Vec<u8>>(b).ok()
}

/// `postcard::to_stdvec` on a string.
#[verifier::external_body]
pub(crate) fn encode_str(s: &str) -> (r: Vec<u8>)
    ensures
        r@ == postcard_str(s@),
        forall|rest: Seq<u8>| #[trigger] postcard_take_str(r@ + rest) == Some((s@, rest)),
{
    postcard::to_stdvec(s).expect("postcard encoding of a string into a Vec")
}

/// `postcard::take_from_bytes::<String>`.
#[verifier::external_body]
pub(crate) fn take_str(b: &[u8]) -> (r: Option<(String, &[u8])>)
    ensures
        match r {
            Some((v, rest)) => postcard_take_str(b@) == Some((v@, rest@)),
            None => postcard_take_str(b@) is None,
        },
{
    postcard::take_from_bytes::<String>(b).ok()
}

/// `postcard::to_stdvec` on an optional string.
#[verifier::external_body]
pub(crate) fn encode_opt_str(s: &Option<String>) -> (r: Vec<u8>)
    ensures
        r@ == postcard_opt_str(opt_str_view(*s)),
        forall|rest: Seq<u8>|
            #[trigger] postcard_take_opt_str(r@ + rest) == Some((opt_str_view(*s), rest)),
{
    postcard::to_stdvec(s).expect("postcard encoding of an optional string into a Vec")
}

/// `postcard::take_from_bytes::<Option<String>>`.
#[verifier::external_body]
pub(crate) fn take_opt_str(b: &[u8]) -> (r: Option<(Option<String>, &[u8])>)
    ensures
        match r {
            Some((v, rest)) => postcard_take_opt_str(b@) == Some((opt_str_view(v), rest@)),
            None => postcard_take_opt_str(b@) is None,
        },
{
    postcard::take_from_bytes::<Option<String>>(b).ok()
}

/// Appends `tail` to `out`.
pub fn append_bytes(out: &mut Vec<u8>, tail: &Vec<u8>)
    ensures
        final(out)@ == old(out)@ + tail@,
{
    let mut i: usize = 0;
    while i < tail.len()
        invariant
            i <= tail@.len(),
            out@ == old(out)@ + tail@.subrange(0, i as int),
        decreases tail@.len() - i,
    {
        out.push(tail[i]);
        i = i + 1;
        assert(tail@.subrange(0, i as int) =~= tail@.subrange(0, i - 1).push(tail@[i - 1]));
    }
    assert(tail@.subrange(0, tail@.len() as int) =~= tail@);
}

} // verus!
