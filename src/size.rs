use vstd::prelude::*;
use vstd::arithmetic::power2::{pow2, lemma2_to64, lemma_pow2_unfold};

verus! {

/// The number of bits needed to write `n`, counting one for zero.
pub open spec fn bit_length(n: nat) -> nat
    decreases n,
{
    if n <= 1 {
        1
    } else {
        1 + bit_length(n / 2)
    }
}

/// Bytes of a variable-length integer encoding that carries seven bits per
/// byte, for values up to `max_value`.
pub open spec fn spec_uint_max_size(max_value: nat) -> nat {
    (bit_length(max_value) + 6) / 7
}

proof fn lemma_bit_length_below(n: nat, k: nat)
    requires
        k >= 1,
        n < pow2(k),
    ensures
        1 <= bit_length(n) <= k,
    decreases k,
{
    lemma2_to64();
    lemma_pow2_unfold(k);
    if n > 1 {
        lemma_bit_length_below(n / 2, (k - 1) as nat);
    }
}

/// Maximum size in bytes of an integer in the binary encoding, given its
/// maximum value.
pub fn uint_max_size(max_value: u64) -> (r: usize)
    ensures
        r == spec_uint_max_size(max_value as nat),
        1 <= r <= 10,
{
    let mut bits: u32 = 1;
    let mut v: u64 = max_value;
    proof {
        lemma2_to64();
        lemma_bit_length_below(max_value as nat, 64);
    }
    while v > 1
        invariant
            1 <= bits <= 64,
            bits + bit_length(v as nat) == bit_length(max_value as nat) + 1,
            bit_length(max_value as nat) <= 64,
        decreases v,
    {
        assert(bit_length(v as nat) == 1 + bit_length((v / 2) as nat));
        v = v / 2;
        bits = bits + 1;
    }
    ((bits + 6) / 7) as usize
}

/// Maximum size in bytes of an optional value: a tag byte, then the value.
pub fn option_max_size(inner_size: usize) -> (r: usize)
    requires
        inner_size < usize::MAX,
    ensures
        r == 1 + inner_size,
{
    1 + inner_size
}

/// Maximum size in bytes of a sequence of at most `max_elems` elements of at
/// most `inner_size` bytes each: its length prefix, then the elements.
pub fn seq_max_size(inner_size: usize, max_elems: usize) -> (r: usize)
    requires
        spec_uint_max_size(max_elems as nat) + inner_size * max_elems <= usize::MAX,
    ensures
        r == spec_uint_max_size(max_elems as nat) + inner_size * max_elems,
{
    let prefix = uint_max_size(max_elems as u64);
    assert(inner_size * max_elems <= usize::MAX) by (nonlinear_arith)
        requires
            spec_uint_max_size(max_elems as nat) + inner_size * max_elems <= usize::MAX,
            spec_uint_max_size(max_elems as nat) >= 0,
    ;
    prefix + inner_size * max_elems
}

/// The larger of two sizes.
pub fn max(a: usize, b: usize) -> (r: usize)
    ensures
        r == if a >= b { a } else { b },
{
    if a >= b {
        a
    } else {
        b
    }
}

/// Types whose binary encoding always has the same size.
pub trait SerializedSize {
    /// Size in bytes of the encoding.
    const SIZE: usize;
}

/// Types whose binary encoding has a known largest size.
pub trait SerializedMaxSize {
    /// Largest size in bytes of the encoding.
    const MAX_SIZE: usize;
}

impl<T: SerializedSize> SerializedMaxSize for T {
    const MAX_SIZE: usize = T::SIZE;
}

impl SerializedSize for bool {
    const SIZE: usize = 1;
}

impl SerializedSize for i8 {
    const SIZE: usize = 1;
}

impl SerializedSize for u8 {
    const SIZE: usize = 1;
}

impl SerializedMaxSize for i16 {
    const MAX_SIZE: usize = (16 + 6) / 7;
}

impl SerializedMaxSize for u16 {
    const MAX_SIZE: usize = (16 + 6) / 7;
}

impl SerializedMaxSize for i32 {
    const MAX_SIZE: usize = (32 + 6) / 7;
}

impl SerializedMaxSize for u32 {
    const MAX_SIZE: usize = (32 + 6) / 7;
}

impl SerializedMaxSize for i64 {
    const MAX_SIZE: usize = (64 + 6) / 7;
}

impl SerializedMaxSize for u64 {
    const MAX_SIZE: usize = (64 + 6) / 7;
}

impl<T: SerializedMaxSize> SerializedMaxSize for Option<T> {
    const MAX_SIZE: usize = 1 + T::MAX_SIZE;
}

impl<T: SerializedMaxSize> SerializedMaxSize for core::ops::Range<T> {
    const MAX_SIZE: usize = 2 * T::MAX_SIZE;
}

impl<const NUM: usize, T: SerializedMaxSize> SerializedMaxSize for [T; NUM] {
    const MAX_SIZE: usize = NUM * T::MAX_SIZE;
}

/// Sequence types, by the type of their elements.
pub trait SerializeSeqMaxSize {
    type Element;
}

impl<T> SerializeSeqMaxSize for Vec<T> {
    type Element = T;
}

} // verus!
