use vstd::prelude::*;

verus! {

/// The rank of a floating-point number: `None` stands for NaN, `Some(k)` for
/// a number whose place in the numeric order is `k`.
///
/// For a binary32 value the rank is [`rank_of`] its bits, and ranks compare
/// as the values do ([`lemma_rank_order_is_ieee_order`]). NaN compares false
/// with everything, which is why it has no rank.
pub type Rank = Option<u32>;

/// `a < b` on ranked numbers: false as soon as one side is NaN.
pub open spec fn below(a: Rank, b: Rank) -> bool {
    match (a, b) {
        (Some(x), Some(y)) => x < y,
        _ => false,
    }
}

/// `a > b` on ranked numbers: false as soon as one side is NaN.
pub open spec fn above(a: Rank, b: Rank) -> bool {
    below(b, a)
}

/// Executable `a < b` on ranks.
pub fn is_below(a: Rank, b: Rank) -> (r: bool)
    ensures
        r == below(a, b),
{
    match (a, b) {
        (Some(x), Some(y)) => x < y,
        _ => false,
    }
}

/// Executable `a > b` on ranks.
pub fn is_above(a: Rank, b: Rank) -> (r: bool)
    ensures
        r == above(a, b),
{
    is_below(b, a)
}

/// The magnitude bits of an IEEE 754 binary32 value: all but the sign bit.
pub open spec fn magnitude(bits: u32) -> u32 {
    if bits >= 0x8000_0000 { (bits - 0x8000_0000) as u32 } else { bits }
}

/// Whether the binary32 value with these bits is negative-signed (sign bit set).
pub open spec fn sign_set(bits: u32) -> bool {
    bits >= 0x8000_0000
}

/// Whether the binary32 value with these bits is a NaN: all exponent bits
/// set and a nonzero fraction, that is, a magnitude above that of infinity.
pub open spec fn is_nan_bits(bits: u32) -> bool {
    magnitude(bits) > 0x7f80_0000
}

/// The `<` of IEEE 754 on binary32 values, given by their bits: false when
/// either is NaN; the two zeros are equal; otherwise values of one sign are
/// ordered by magnitude (reversed for negative ones), and every negative
/// value lies below every positive one.
pub open spec fn ieee_less(a: u32, b: u32) -> bool {
    if is_nan_bits(a) || is_nan_bits(b) {
        false
    } else if magnitude(a) == 0 && magnitude(b) == 0 {
        false
    } else if !sign_set(a) && !sign_set(b) {
        magnitude(a) < magnitude(b)
    } else if sign_set(a) && sign_set(b) {
        magnitude(b) < magnitude(a)
    } else {
        sign_set(a)
    }
}

/// The rank of the binary32 value with the given bits: `None` for NaN; both
/// zeros share the rank `0x8000_0000`; positive values rank above it in the
/// order of their bits, negative ones below it in the reverse order.
pub open spec fn rank_of(bits: u32) -> Rank {
    if is_nan_bits(bits) {
        None
    } else if magnitude(bits) == 0 {
        Some(0x8000_0000)
    } else if sign_set(bits) {
        Some((0xffff_ffff - bits) as u32)
    } else {
        Some((bits + 0x8000_0000) as u32)
    }
}

/// The bits of the binary32 value of rank `k` (of the two zeros, the
/// positive one).
pub open spec fn bits_of(k: u32) -> u32 {
    if k >= 0x8000_0000 { (k - 0x8000_0000) as u32 } else { (0xffff_ffff - k) as u32 }
}

/// Ranks the binary32 value with the given bits.
pub fn rank_from_bits(bits: u32) -> (r: Rank)
    ensures
        r == rank_of(bits),
{
    let mag = if bits >= 0x8000_0000 { bits - 0x8000_0000 } else { bits };
    if mag > 0x7f80_0000 {
        None
    } else if mag == 0 {
        Some(0x8000_0000)
    } else if bits >= 0x8000_0000 {
        Some(0xffff_ffff - bits)
    } else {
        Some(bits + 0x8000_0000)
    }
}

/// The bits of the binary32 value of rank `k`.
pub fn bits_from_rank(k: u32) -> (bits: u32)
    ensures
        bits == bits_of(k),
{
    if k >= 0x8000_0000 {
        k - 0x8000_0000
    } else {
        0xffff_ffff - k
    }
}

/// Ranks compare exactly as IEEE 754 compares the values they rank: for any
/// two binary32 values, the rank of one lies below the rank of the other
/// precisely when the first value is less than the second.
pub proof fn lemma_rank_order_is_ieee_order(a: u32, b: u32)
    ensures
        below(rank_of(a), rank_of(b)) <==> ieee_less(a, b),
        above(rank_of(a), rank_of(b)) <==> ieee_less(b, a),
{
}

/// A rank gives back the value it was taken of, except that a negative zero
/// comes back as a positive one.
pub proof fn lemma_rank_round_trip(bits: u32)
    requires
        !is_nan_bits(bits),
    ensures
        rank_of(bits) is Some,
        bits_of(rank_of(bits)->0) == (if magnitude(bits) == 0 { 0 } else { bits }),
{
}

} // verus!
