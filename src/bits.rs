//! Bit counts of a byte, as mathematical functions, and the standard library's
//! population counts tied to them.
use vstd::arithmetic::power2::{lemma2_to64, lemma_pow2_unfold, pow2};
use vstd::prelude::*;

verus! {

/// Number of 1-bits among the lowest `width` bits of `x`.
pub open spec fn ones_in(x: nat, width: nat) -> nat
    decreases width,
{
    if width == 0 {
        0
    } else {
        (x % 2) + ones_in(x / 2, (width - 1) as nat)
    }
}

/// Number of 0-bits among the lowest `width` bits of `x`.
pub open spec fn zeros_in(x: nat, width: nat) -> nat
    decreases width,
{
    if width == 0 {
        0
    } else {
        (1 - x % 2) as nat + zeros_in(x / 2, (width - 1) as nat)
    }
}

/// Number of 1-bits of a byte.
pub open spec fn ones(x: u8) -> nat {
    ones_in(x as nat, 8)
}

/// Number of 0-bits of a byte.
pub open spec fn zeros(x: u8) -> nat {
    zeros_in(x as nat, 8)
}

/// The ones and the zeros among the lowest `width` bits make up all of them.
pub proof fn lemma_counts_fill_width(x: nat, width: nat)
    ensures
        ones_in(x, width) + zeros_in(x, width) == width,
    decreases width,
{
    if width > 0 {
        lemma_counts_fill_width(x / 2, (width - 1) as nat);
    }
}

/// Where `x + y + 1 == 2^width` (so that `y` is `x` with its lowest `width`
/// bits inverted), the ones of `x` are the zeros of `y`.
pub proof fn lemma_complement_counts(x: nat, y: nat, width: nat)
    requires
        x + y + 1 == pow2(width),
    ensures
        ones_in(x, width) == zeros_in(y, width),
    decreases width,
{
    if width > 0 {
        let w = (width - 1) as nat;
        lemma_pow2_unfold(width);
        assert(x % 2 + y % 2 == 1 && x / 2 + y / 2 + 1 == pow2(w));
        lemma_complement_counts(x / 2, y / 2, w);
    }
}

/// A byte has eight bits, each a one or a zero.
pub proof fn lemma_ones_plus_zeros(x: u8)
    ensures
        ones(x) + zeros(x) == 8,
{
    lemma_counts_fill_width(x as nat, 8);
}

/// Flipping the bits of a byte that a mask selects, starting from all ones,
/// leaves as many ones as the mask has zeros; starting from all zeros, the
/// result is the mask itself.
pub proof fn lemma_flipped_counts(mask: u8)
    ensures
        ones(u8::MAX ^ mask) == zeros(mask),
        zeros(u8::MAX ^ mask) == ones(mask),
        u8::MIN ^ mask == mask,
{
    let flipped: u8 = u8::MAX ^ mask;
    assert(flipped == 255 - mask && u8::MIN ^ mask == mask) by (bit_vector)
        requires
            flipped == u8::MAX ^ mask,
    ;
    lemma2_to64();
    lemma_complement_counts(flipped as nat, mask as nat, 8);
    lemma_complement_counts(mask as nat, flipped as nat, 8);
}

/// Relies on `u8::count_ones`: the number of ones in the binary representation.
pub assume_specification[ u8::count_ones ](x: u8) -> (r: u32)
    ensures
        r as nat == ones(x),
;

/// Relies on `u8::count_zeros`: the number of zeros in the binary representation.
pub assume_specification[ u8::count_zeros ](x: u8) -> (r: u32)
    ensures
        r as nat == zeros(x),
;

} // verus!
