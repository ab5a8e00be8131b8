//! Laws that relate the operations of `Coin` to each other.
use vstd::prelude::*;

use core::cmp::Ordering;

use crate::bits::{lemma_flipped_counts, lemma_ones_plus_zeros, ones, ones_in, zeros, zeros_in};
use crate::coin::{canonical, truth_of, Coin};
use vstd::std_specs::cmp::{PartialEqSpec, PartialOrdSpec};

verus! {

/// Converting a Boolean to a coin and reading the coin gives the Boolean back.
pub proof fn lemma_round_trip(b: bool)
    ensures
        Coin(canonical(b)).value() == b,
{
    reveal_with_fuel(ones_in, 9);
    reveal_with_fuel(zeros_in, 9);
    assert(ones(u8::MAX) == 8 && zeros(u8::MAX) == 0);
    assert(ones(u8::MIN) == 0 && zeros(u8::MIN) == 8);
}

/// A byte reads as `true` exactly when at least four of its eight bits are set.
pub proof fn lemma_truth_threshold(x: u8)
    ensures
        truth_of(x) <==> ones(x) >= 4,
{
    lemma_ones_plus_zeros(x);
}

/// Corrupting a `true` coin: clearing the bits that `mask` selects keeps it
/// `true` when at most three bits are cleared, and makes it `false` when five
/// or more are. (With exactly four cleared, four ones remain against four
/// zeros, and the byte still reads as `true`.)
pub proof fn lemma_flips_from_true(mask: u8)
    requires
        ones(mask) != 4,
    ensures
        Coin(canonical(true) ^ mask).value() <==> ones(mask) <= 3,
{
    lemma_flipped_counts(mask);
    lemma_ones_plus_zeros(mask);
}

/// Corrupting a `false` coin: setting the bits that `mask` selects keeps it
/// `false` when at most three bits are set, and makes it `true` when four or
/// more are.
pub proof fn lemma_flips_from_false(mask: u8)
    ensures
        Coin(canonical(false) ^ mask).value() <==> ones(mask) >= 4,
{
    lemma_flipped_counts(mask);
    lemma_truth_threshold(mask);
}

/// Two coins made from the same Boolean stay equal, whatever their raw bytes,
/// as long as each of them has at most three flipped bits.
pub proof fn lemma_corrupted_coins_equal(b: bool, mask1: u8, mask2: u8)
    requires
        ones(mask1) <= 3,
        ones(mask2) <= 3,
    ensures
        Coin(canonical(b) ^ mask1).eq_spec(&Coin(canonical(b) ^ mask2)),
{
    if b {
        lemma_flips_from_true(mask1);
        lemma_flips_from_true(mask2);
    } else {
        lemma_flips_from_false(mask1);
        lemma_flips_from_false(mask2);
    }
}

/// The order of coins is total and goes by the values they read as: `false`
/// before `true`, equal exactly when the values are equal, and transitive.
pub proof fn lemma_order(a: Coin, b: Coin, c: Coin)
    ensures
        Coin(canonical(false)).partial_cmp_spec(&Coin(canonical(true))) == Some(Ordering::Less),
        a.partial_cmp_spec(&b) is Some,
        a.partial_cmp_spec(&b) == Some(Ordering::Equal) <==> a.eq_spec(&b),
        a.partial_cmp_spec(&b) == Some(Ordering::Less) <==> (!a.value() && b.value()),
        a.partial_cmp_spec(&b) == Some(Ordering::Less) <==> b.partial_cmp_spec(&a) == Some(
            Ordering::Greater,
        ),
        a.partial_cmp_spec(&b) == Some(Ordering::Less) && b.partial_cmp_spec(&c) == Some(
            Ordering::Less,
        ) ==> a.partial_cmp_spec(&c) == Some(Ordering::Less),
        a.partial_cmp_spec(&b) != Some(Ordering::Greater) && b.partial_cmp_spec(&c) != Some(
            Ordering::Greater,
        ) ==> a.partial_cmp_spec(&c) != Some(Ordering::Greater),
{
    lemma_round_trip(false);
    lemma_round_trip(true);
}

/// Healing is idempotent: the healed byte reads as the value read before, and
/// healing it again writes the same byte.
pub proof fn lemma_heal_stable(c: Coin)
    ensures
        Coin(canonical(c.value())).value() == c.value(),
        canonical(Coin(canonical(c.value())).value()) == canonical(c.value()),
{
    lemma_round_trip(c.value());
}

} // verus!
