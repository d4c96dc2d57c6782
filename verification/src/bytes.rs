//! Little-endian byte encoding: the specification of multi-byte fields and
//! verified helpers to read and write them inside byte buffers.

use vstd::prelude::*;
use vstd::arithmetic::power2::{
    pow2, lemma_pow2_adds, lemma_pow2_pos, lemma_pow2_strictly_increases, lemma2_to64,
    lemma2_to64_rest,
};
use vstd::arithmetic::mul::{lemma_mul_inequality, lemma_mul_is_commutative};
use vstd::arithmetic::div_mod::lemma_mod_breakdown;
use vstd::bits::{
    lemma_low_bits_mask_values, lemma_u64_low_bits_mask_is_mod, lemma_u64_pow2_no_overflow,
    lemma_u64_shl_is_mul, lemma_u64_shr_is_div, low_bits_mask,
};

verus! {

/// Little-endian integer value of the `size` bytes of `s` that start at `off`.
pub open spec fn le_int(s: Seq<u8>, off: int, size: nat) -> int
    decreases size,
{
    if size == 0 {
        0
    } else {
        le_int(s, off, (size - 1) as nat) + s[off + size - 1] * pow2((8 * (size - 1)) as nat)
    }
}

/// Byte `k` of the little-endian encoding of `v`.
pub open spec fn le_byte(v: u64, k: nat) -> u8 {
    (((v as nat) / pow2(8 * k)) % 256) as u8
}

/// A little-endian value is bounded by the power of 256 of its width.
pub proof fn lemma_le_int_bound(s: Seq<u8>, off: int, size: nat)
    ensures
        0 <= le_int(s, off, size) < pow2(8 * size),
    decreases size,
{
    if size == 0 {
        lemma2_to64();
    } else {
        let prev = (size - 1) as nat;
        lemma_le_int_bound(s, off, prev);
        lemma_pow2_pos(8 * prev);
        lemma_mul_inequality(s[off + size - 1] as int, 255, pow2(8 * prev) as int);
        lemma_pow2_adds(8 * prev, 8);
        lemma2_to64();
    }
}

/// `le_int` only looks at the bytes inside `[off, off + size)`.
pub proof fn lemma_le_int_frame(s1: Seq<u8>, s2: Seq<u8>, off: int, size: nat)
    requires
        forall|i: int| off <= i < off + size ==> s1[i] == s2[i],
    ensures
        le_int(s1, off, size) == le_int(s2, off, size),
    decreases size,
{
    if size > 0 {
        lemma_le_int_frame(s1, s2, off, (size - 1) as nat);
    }
}

/// Reads the `size`-byte little-endian field at `off`, zero-padding it into
/// a `u64`.
pub fn read_le(bytes: &Vec<u8>, off: usize, size: usize) -> (r: u64)
    requires
        size <= 8,
        off + size <= bytes.len(),
    ensures
        r as int == le_int(bytes@, off as int, size as nat),
        (r as nat) < pow2((8 * size) as nat),
{
    let mut r: u64 = 0;
    let mut i: usize = 0;
    while i < size
        invariant
            i <= size <= 8,
            off + size <= bytes.len(),
            r as int == le_int(bytes@, off as int, i as nat),
        decreases size - i,
    {
        let b = bytes[off + i];
        proof {
            lemma_le_int_bound(bytes@, off as int, i as nat);
            lemma_u64_pow2_no_overflow((8 * i) as nat);
            lemma_mul_inequality(b as int, 255, pow2((8 * i) as nat) as int);
            lemma_pow2_adds((8 * i) as nat, 8);
            lemma2_to64();
            lemma2_to64_rest();
            if 8 * i + 8 < 64 {
                lemma_pow2_strictly_increases((8 * i + 8) as nat, 64);
            }
            lemma_u64_shl_is_mul(b as u64, (8 * i) as u64);
        }
        r = r + ((b as u64) << ((8 * i) as u64));
        i = i + 1;
    }
    proof {
        lemma_le_int_bound(bytes@, off as int, size as nat);
    }
    r
}

/// Bytes that each hold `le_byte` of a value recompose to that value, reduced
/// to the width of the field.
pub proof fn lemma_le_int_of_le_bytes(s: Seq<u8>, off: int, size: nat, v: u64)
    requires
        forall|k: int| 0 <= k < size ==> #[trigger] (s[off + k] as int) == le_byte(v, k as nat),
    ensures
        le_int(s, off, size) == (v as nat) % pow2(8 * size),
    decreases size,
{
    if size == 0 {
        lemma2_to64();
    } else {
        let prev = (size - 1) as nat;
        lemma_le_int_of_le_bytes(s, off, prev, v);
        lemma_pow2_pos(8 * prev);
        lemma_mod_breakdown(v as int, pow2(8 * prev) as int, 256);
        lemma_pow2_adds(8 * prev, 8);
        lemma2_to64();
        assert(s[off + prev] as int == le_byte(v, prev));
        assert(le_byte(v, prev) as int == ((v as nat) / pow2(8 * prev)) % 256);
        assert(le_int(s, off, size) == le_int(s, off, prev) + s[off + size - 1] * pow2(
            (8 * (size - 1)) as nat,
        ));
        lemma_mul_is_commutative(pow2(8 * prev) as int, s[off + size - 1] as int);
        assert(8 * size == 8 * prev + 8);
        assert(pow2(8 * size) == pow2(8 * prev) * 256);
        assert((v as nat) % pow2(8 * size) == pow2(8 * prev) * (((v as nat) / pow2(8 * prev))
            % 256) + (v as nat) % pow2(8 * prev));
        assert(le_int(s, off, size) == (v as nat) % pow2(8 * size));
    }
}

/// Extracts byte `k` of the little-endian encoding of `v`.
pub fn le_byte_of(v: u64, k: usize) -> (b: u8)
    requires
        k < 8,
    ensures
        b as int == le_byte(v, k as nat),
{
    proof {
        lemma_u64_shr_is_div(v, (8 * k) as u64);
        lemma_u64_low_bits_mask_is_mod(v >> ((8 * k) as u64), 8);
        lemma_low_bits_mask_values();
        lemma2_to64();
    }
    ((v >> ((8 * k) as u64)) & 0xff) as u8
}

/// Writes `v` as a `size`-byte little-endian field at `off`, truncating it
/// to the field's width and leaving every other byte unchanged.
pub fn write_le(bytes: &mut Vec<u8>, off: usize, size: usize, v: u64)
    requires
        size <= 8,
        off + size <= old(bytes).len(),
    ensures
        final(bytes)@.len() == old(bytes)@.len(),
        forall|i: int|
            0 <= i < final(bytes)@.len() && !(off <= i < off + size) ==> final(bytes)@[i]
                == old(bytes)@[i],
        forall|k: int|
            0 <= k < size ==> #[trigger] (final(bytes)@[off + k] as int) == le_byte(v, k as nat),
        le_int(final(bytes)@, off as int, size as nat) == (v as nat) % pow2((8 * size) as nat),
{
    let mut k: usize = 0;
    while k < size
        invariant
            k <= size <= 8,
            off + size <= bytes.len(),
            bytes@.len() == old(bytes)@.len(),
            forall|i: int|
                0 <= i < bytes@.len() && !(off <= i < off + k) ==> bytes@[i] == old(bytes)@[i],
            forall|j: int| 0 <= j < k ==> #[trigger] (bytes@[off + j] as int) == le_byte(v, j as nat),
        decreases size - k,
    {
        let b = le_byte_of(v, k);
        bytes[off + k] = b;
        k = k + 1;
    }
    proof {
        lemma_le_int_of_le_bytes(bytes@, off as int, size as nat, v);
    }
}

/// The `size`-byte little-endian encoding of `v`.
pub open spec fn spec_le_bytes(v: u64, size: nat) -> Seq<u8> {
    Seq::new(size, |k: int| le_byte(v, k as nat))
}

/// The encoded bytes recompose to the value, reduced to the field's width.
pub proof fn lemma_le_bytes_value(v: u64, size: nat)
    ensures
        le_int(spec_le_bytes(v, size), 0, size) == (v as nat) % pow2(8 * size),
{
    lemma_le_int_of_le_bytes(spec_le_bytes(v, size), 0, size, v);
}

/// Appends the `size`-byte little-endian encoding of `v`.
pub fn push_le(page: &mut Vec<u8>, size: usize, v: u64)
    requires
        size <= 8,
    ensures
        final(page)@ == old(page)@ + spec_le_bytes(v, size as nat),
{
    let mut k: usize = 0;
    proof {
        assert(page@ =~= old(page)@ + spec_le_bytes(v, 0));
    }
    while k < size
        invariant
            size <= 8,
            k <= size,
            page@ == old(page)@ + spec_le_bytes(v, k as nat),
        decreases size - k,
    {
        page.push(le_byte_of(v, k));
        proof {
            assert(page@ =~= old(page)@ + spec_le_bytes(v, k as nat + 1));
        }
        k = k + 1;
    }
}

} // verus!
