//! Little-endian byte encoding of the integer fields of the persisted
//! records, with proofs that decoding inverts encoding.

use vstd::prelude::*;

verus! {

/// The eight little-endian base-256 digits of a 64-bit value.
pub open spec fn u64_le_seq(v: u64) -> Seq<u8> {
    seq![
        (v as nat % 256) as u8,
        (v as nat / 256 % 256) as u8,
        (v as nat / 65536 % 256) as u8,
        (v as nat / 16777216 % 256) as u8,
        (v as nat / 4294967296 % 256) as u8,
        (v as nat / 1099511627776 % 256) as u8,
        (v as nat / 281474976710656 % 256) as u8,
        (v as nat / 72057594037927936 % 256) as u8,
    ]
}

/// The 64-bit value held little-endian at offset `off` of `b`.
pub open spec fn le_u64_at(b: Seq<u8>, off: int) -> nat
    recommends
        0 <= off,
        off + 8 <= b.len(),
{
    (b[off] + b[off + 1] * 256 + b[off + 2] * 65536 + b[off + 3] * 16777216
        + b[off + 4] * 4294967296 + b[off + 5] * 1099511627776
        + b[off + 6] * 281474976710656 + b[off + 7] * 72057594037927936) as nat
}

/// The unsigned 64-bit two's-complement image of a signed timestamp.
pub open spec fn u64_repr(v: i64) -> u64 {
    if v >= 0 {
        v as u64
    } else {
        (v + 0x10000000000000000) as u64
    }
}

/// Inverse of `u64_repr`.
pub open spec fn i64_unrepr(u: u64) -> i64 {
    if u < 0x8000000000000000 {
        u as i64
    } else {
        (u - 0x10000000000000000) as i64
    }
}

/// Decoding the eight digits of `v` gives back `v`.
pub proof fn lemma_u64_le_roundtrip(v: u64)
    ensures
        le_u64_at(u64_le_seq(v), 0) == v,
{
    let n = v as int;
    vstd::arithmetic::div_mod::lemma_div_denominator(n, 256, 256);
    vstd::arithmetic::div_mod::lemma_div_denominator(n, 65536, 256);
    vstd::arithmetic::div_mod::lemma_div_denominator(n, 16777216, 256);
    vstd::arithmetic::div_mod::lemma_div_denominator(n, 4294967296, 256);
    vstd::arithmetic::div_mod::lemma_div_denominator(n, 1099511627776, 256);
    vstd::arithmetic::div_mod::lemma_div_denominator(n, 281474976710656, 256);
    vstd::arithmetic::div_mod::lemma_fundamental_div_mod(n, 256);
    vstd::arithmetic::div_mod::lemma_fundamental_div_mod(n / 256, 256);
    vstd::arithmetic::div_mod::lemma_fundamental_div_mod(n / 65536, 256);
    vstd::arithmetic::div_mod::lemma_fundamental_div_mod(n / 16777216, 256);
    vstd::arithmetic::div_mod::lemma_fundamental_div_mod(n / 4294967296, 256);
    vstd::arithmetic::div_mod::lemma_fundamental_div_mod(n / 1099511627776, 256);
    vstd::arithmetic::div_mod::lemma_fundamental_div_mod(n / 281474976710656, 256);
    vstd::arithmetic::div_mod::lemma_fundamental_div_mod(n / 72057594037927936, 256);
}

/// Appends the little-endian bytes of `v` to `out`.
pub fn encode_u64_le(v: u64, out: &mut Vec<u8>)
    ensures
        final(out)@ == old(out)@ + u64_le_seq(v),
{
    out.push((v % 256) as u8);
    out.push((v / 256 % 256) as u8);
    out.push((v / 65536 % 256) as u8);
    out.push((v / 16777216 % 256) as u8);
    out.push((v / 4294967296 % 256) as u8);
    out.push((v / 1099511627776 % 256) as u8);
    out.push((v / 281474976710656 % 256) as u8);
    out.push((v / 72057594037927936 % 256) as u8);
    assert(out@ =~= old(out)@ + u64_le_seq(v));
}

/// Reads the 64-bit value held little-endian at offset `off` of `b`.
pub fn decode_u64_le(b: &Vec<u8>, off: usize) -> (r: u64)
    requires
        off + 8 <= b@.len(),
    ensures
        r == le_u64_at(b@, off as int),
{
    let _len: usize = b.len();
    let b0: u64 = b[off] as u64;
    let b1: u64 = b[off + 1] as u64;
    let b2: u64 = b[off + 2] as u64;
    let b3: u64 = b[off + 3] as u64;
    let b4: u64 = b[off + 4] as u64;
    let b5: u64 = b[off + 5] as u64;
    let b6: u64 = b[off + 6] as u64;
    let b7: u64 = b[off + 7] as u64;
    b0 + b1 * 256 + b2 * 65536 + b3 * 16777216 + b4 * 4294967296 + b5 * 1099511627776 + b6
        * 281474976710656 + b7 * 72057594037927936
}

/// Appends the little-endian two's-complement bytes of a timestamp.
pub fn encode_i64_le(v: i64, out: &mut Vec<u8>)
    ensures
        final(out)@ == old(out)@ + u64_le_seq(u64_repr(v)),
{
    let u: u64 = if v >= 0 {
        v as u64
    } else {
        ((v + i64::MAX) + 1) as u64 + 0x8000000000000000
    };
    assert(u == u64_repr(v));
    encode_u64_le(u, out);
}

/// Reads the timestamp held little-endian at offset `off` of `b`.
pub fn decode_i64_le(b: &Vec<u8>, off: usize) -> (r: i64)
    requires
        off + 8 <= b@.len(),
    ensures
        r == i64_unrepr(le_u64_at(b@, off as int) as u64),

{
    proof {
        lemma_le_u64_at_bound(b@, off as int);
    }
    let u: u64 = decode_u64_le(b, off);
    if u <= 0x7fffffffffffffff {
        u as i64
    } else {
        -((u64::MAX - u) as i64) - 1
    }
}

/// The value read from any eight bytes fits in 64 bits.
pub proof fn lemma_le_u64_at_bound(b: Seq<u8>, off: int)
    requires
        0 <= off,
        off + 8 <= b.len(),
    ensures
        le_u64_at(b, off) < 0x10000000000000000,
{
}

} // verus!
