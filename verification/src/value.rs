//! Pointer encoding: skewed references and packed scalars.
//!
//! A word is either a scalar (low bit clear, payload in the upper 31 bits)
//! or a skewed pointer: a word-aligned heap address minus one. Aligned
//! addresses are multiples of four, so a skewed pointer is always 3 modulo 4
//! and can never collide with a scalar. Address zero is reserved as an
//! "absent" marker, hence representable addresses start at four.

use vstd::prelude::*;

verus! {

/// A heap address that the encoding can carry: word-aligned and nonzero,
/// so that skewing it never collides with a scalar and never underflows.
pub open spec fn spec_representable(a: u32) -> bool {
    a % 4 == 0 && a >= 4
}

/// A word that carries a packed scalar: the low bit is clear.
pub open spec fn spec_is_scalar(w: u32) -> bool {
    w % 2 == 0
}

/// A word that carries a skewed pointer: one below a word-aligned address.
pub open spec fn spec_is_skewed_ptr(w: u32) -> bool {
    w % 4 == 3 && w != 0xffff_ffffu32
}

/// The skewed encoding of a representable address.
pub open spec fn spec_skew(a: u32) -> u32
    recommends
        spec_representable(a),
{
    (a - 1) as u32
}

/// The address carried by a skewed pointer word.
pub open spec fn spec_unskew(w: u32) -> u32
    recommends
        spec_is_skewed_ptr(w),
{
    (w + 1) as u32
}

/// The payload packed into a scalar word.
pub open spec fn spec_scalar_payload(w: u32) -> u32
    recommends
        spec_is_scalar(w),
{
    w / 2
}

/// Skew a representable address into its pointer word.
pub fn skew(a: u32) -> (w: u32)
    requires
        spec_representable(a),
    ensures
        w == spec_skew(a),
        spec_is_skewed_ptr(w),
        !spec_is_scalar(w),
{
    a - 1
}

/// Recover the address from a skewed pointer word.
pub fn unskew(w: u32) -> (a: u32)
    requires
        spec_is_skewed_ptr(w),
    ensures
        a == spec_unskew(w),
        spec_representable(a),
{
    w + 1
}

/// Whether a word carries a packed scalar rather than a reference.
pub fn is_scalar(w: u32) -> (b: bool)
    ensures
        b == spec_is_scalar(w),
{
    w % 2 == 0
}

/// Pack a 31-bit payload into a scalar word.
pub fn scalar_from(n: u32) -> (w: u32)
    requires
        n < 0x8000_0000u32,
    ensures
        w == 2 * n,
        spec_is_scalar(w),
        spec_scalar_payload(w) == n,
{
    n * 2
}

/// Unpack the payload of a scalar word.
pub fn scalar_payload(w: u32) -> (n: u32)
    requires
        spec_is_scalar(w),
    ensures
        n == spec_scalar_payload(w),
{
    w / 2
}

/// Skewing is reversible over the whole representable range.
pub proof fn lemma_skew_round_trip(a: u32)
    requires
        spec_representable(a),
    ensures
        spec_unskew(spec_skew(a)) == a,
{
}

/// A skewed pointer never shares a bit pattern with a scalar.
pub proof fn lemma_skew_never_scalar(a: u32)
    requires
        spec_representable(a),
    ensures
        !spec_is_scalar(spec_skew(a)),
        spec_is_skewed_ptr(spec_skew(a)),
{
}

} // verus!
