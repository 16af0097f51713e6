use vstd::arithmetic::power2::{lemma2_to64, lemma_pow2_unfold, pow2};
use vstd::prelude::*;

verus! {

/// Number of 1-bits in the binary representation of a natural number.
pub open spec fn popcount(x: nat) -> nat
    decreases x,
{
    if x == 0 {
        0
    } else {
        popcount(x / 2) + x % 2
    }
}

/// Sum of the per-byte population counts of a byte string.
pub open spec fn bytes_popcount(s: Seq<u8>) -> nat
    decreases s.len(),
{
    if s.len() == 0 {
        0
    } else {
        bytes_popcount(s.drop_last()) + popcount(s.last() as nat)
    }
}

/// The count of a byte string is the sum of the counts of its parts, so
/// that of the empty string is 0 and that of any string the sum of its
/// per-byte counts.
pub proof fn bytes_popcount_concat(s: Seq<u8>, t: Seq<u8>)
    ensures
        bytes_popcount(Seq::empty()) == 0,
        bytes_popcount(s + t) == bytes_popcount(s) + bytes_popcount(t),
    decreases t.len(),
{
    if t.len() == 0 {
        assert(s + t =~= s);
    } else {
        bytes_popcount_concat(s, t.drop_last());
        assert((s + t).drop_last() =~= s + t.drop_last());
    }
}

/// A value below `2^w` has at most `w` ones.
pub proof fn lemma_popcount_le_width(x: nat, w: nat)
    requires
        x < pow2(w),
    ensures
        popcount(x) <= w,
    decreases w,
{
    if x != 0 {
        if w == 0 {
            assert(pow2(0) == 1) by { lemma2_to64(); }
        } else {
            lemma_pow2_unfold(w);
            lemma_popcount_le_width(x / 2, (w - 1) as nat);
        }
    }
}

/// Population count of a 64-bit pattern.
pub fn count_ones_u64(x: u64) -> (r: u32)
    ensures
        r == popcount(x as nat),
        r <= 64,
{
    proof {
        lemma2_to64();
        lemma_popcount_le_width(x as nat, 64);
    }
    let mut v: u64 = x;
    let mut c: u32 = 0;
    while v != 0
        invariant
            c + popcount(v as nat) == popcount(x as nat),
            popcount(x as nat) <= 64,
        decreases v,
    {
        assert(v & 1 == v % 2 && v >> 1 == v / 2) by (bit_vector);
        c = c + (v & 1) as u32;
        v = v >> 1;
    }
    c
}

/// Bit `pos` of a 64-bit two's-complement value, bit 0 being the least
/// significant; 0 for any position outside `[0, 64)`.
pub open spec fn int_bit(n: i64, pos: i64) -> i8 {
    if 0 <= pos < 64 {
        ((n >> (pos as u64)) & 1) as i8
    } else {
        0
    }
}

/// Bit `pos` of a 64-bit value, bit 0 being the least significant; 0 for
/// any position outside `[0, 64)`.
pub fn bit_get_int(n: i64, pos: i64) -> (r: i8)
    ensures
        r == int_bit(n, pos),
        r == 0 || r == 1,
{
    if pos >= 0 && pos < 64 {
        let p: u64 = pos as u64;
        assert(((n >> p) & 1) as i8 == 0 || ((n >> p) & 1) as i8 == 1) by (bit_vector);
        ((n >> p) & 1) as i8
    } else {
        0
    }
}

/// Bit `pos` of a byte string, counted from the most significant bit of the
/// first byte.
pub open spec fn binary_bit(s: Seq<u8>, pos: int) -> i8 {
    if pos < 0 || pos / 8 >= s.len() {
        0
    } else {
        ((s[pos / 8] >> ((7 - pos % 8) as u8)) & 1) as i8
    }
}

/// Bit `pos` of a byte string, counted from the most significant bit of the
/// first byte; 0 for a negative position or one past the end.
pub fn bit_get_binary(bytes: &[u8], pos: i64) -> (r: i8)
    ensures
        r == binary_bit(bytes@, pos as int),
        r == 0 || r == 1,
{
    if pos < 0 {
        return 0;
    }
    let byte_index: i64 = pos / 8;
    if byte_index as u64 >= bytes.len() as u64 {
        return 0;
    }
    let bit_index: u8 = (7 - pos % 8) as u8;
    let b: u8 = bytes[byte_index as usize];
    assert((b >> bit_index) & 1 == 0 || (b >> bit_index) & 1 == 1) by (bit_vector);
    ((b >> bit_index) & 1) as i8
}

} // verus!
