//! The `Coin` type: a Boolean held in a full byte and read by majority.
use vstd::prelude::*;

use core::cmp::Ordering;

use crate::bits::{ones, zeros};
use crate::laws::lemma_round_trip;

verus! {

/// Truth value that a storage byte stands for: at least as many 1-bits as 0-bits.
pub open spec fn truth_of(x: u8) -> bool {
    ones(x) >= zeros(x)
}

/// Canonical storage byte of a truth value: all ones for `true`, all zeros for `false`.
pub open spec fn canonical(b: bool) -> u8 {
    if b {
        u8::MAX
    } else {
        u8::MIN
    }
}

/// Order of two truth values: `false` before `true`.
pub open spec fn order_of(a: bool, b: bool) -> Ordering {
    if a == b {
        Ordering::Equal
    } else if !a {
        Ordering::Less
    } else {
        Ordering::Greater
    }
}

/// A bit-flip resistant Boolean, stored in one byte.
///
/// Its public field is the storage byte. Equality, order and hashing go by the
/// value that the byte reads as, never by the raw bits. Reading never changes
/// the byte; [`Coin::degauss`] is the explicit step that heals it.
#[derive(Debug, Clone, Copy)]
pub struct Coin(pub u8);

impl Coin {
    /// The truth value this coin reads as.
    pub open spec fn value(&self) -> bool {
        truth_of(self.0)
    }

    /// The coin for `true`: every bit set.
    pub fn truthy() -> (r: Coin)
        ensures
            r.0 == canonical(true),
    {
        Coin(u8::MAX)
    }

    /// The coin for `false`: every bit clear.
    pub fn falsey() -> (r: Coin)
        ensures
            r.0 == canonical(false),
    {
        Coin(u8::MIN)
    }

    /// Reads the coin: `true` iff its byte has at least as many ones as zeros.
    ///
    /// The two counts are compared with each other, so that the decision
    /// boundary is not a single constant in the code.
    pub fn to_bool(&self) -> (r: bool)
        ensures
            r == self.value(),
    {
        let val: u8 = self.0;
        val.count_ones() >= val.count_zeros()
    }

    /// Heals the coin: reads it, then rewrites its byte to the canonical
    /// pattern of the value read, which drops any flipped bits.
    ///
    /// The canonical patterns are themselves plain constants of the code and
    /// are as exposed to corruption as anything else in it.
    pub fn degauss(&mut self)
        ensures
            final(self).0 == canonical(old(self).value()),
            final(self).value() == old(self).value(),
    {
        let fresh_bits: u8 = match self.to_bool() {
            true => u8::MAX,
            false => u8::MIN,
        };
        self.0 = fresh_bits;
        proof {
            lemma_round_trip(old(self).value());
        }
    }
}

impl PartialEq for Coin {
    fn eq(&self, other: &Coin) -> (r: bool) {
        self.to_bool() == other.to_bool()
    }
}

impl vstd::std_specs::cmp::PartialEqSpecImpl for Coin {
    open spec fn obeys_eq_spec() -> bool {
        true
    }

    open spec fn eq_spec(&self, other: &Coin) -> bool {
        self.value() == other.value()
    }
}

impl Eq for Coin {
}

impl PartialOrd for Coin {
    fn partial_cmp(&self, other: &Coin) -> (r: Option<Ordering>) {
        let a = self.to_bool();
        let b = other.to_bool();
        if a == b {
            Some(Ordering::Equal)
        } else if !a {
            Some(Ordering::Less)
        } else {
            Some(Ordering::Greater)
        }
    }
}

impl vstd::std_specs::cmp::PartialOrdSpecImpl for Coin {
    open spec fn obeys_partial_cmp_spec() -> bool {
        true
    }

    open spec fn partial_cmp_spec(&self, other: &Coin) -> Option<Ordering> {
        Some(order_of(self.value(), other.value()))
    }
}

impl core::hash::Hash for Coin {
    fn hash<H: core::hash::Hasher>(&self, state: &mut H) {
        self.to_bool().hash(state);
    }
}

/// Relies on `bool`'s `Hash::hash`, which feeds the Boolean to the hasher.
/// Nothing is stated of the hasher's state.
pub assume_specification<H: core::hash::Hasher>[ <bool as core::hash::Hash>::hash::<H> ](
    b: &bool,
    state: &mut H,
);

impl From<bool> for Coin {
    fn from(b: bool) -> (r: Coin) {
        match b {
            true => Coin::truthy(),
            false => Coin::falsey(),
        }
    }
}

impl vstd::std_specs::convert::FromSpecImpl<bool> for Coin {
    open spec fn obeys_from_spec() -> bool {
        true
    }

    open spec fn from_spec(b: bool) -> Coin {
        Coin(canonical(b))
    }
}

impl From<Coin> for bool {
    fn from(c: Coin) -> (r: bool) {
        c.to_bool()
    }
}

impl vstd::std_specs::convert::FromSpecImpl<Coin> for bool {
    open spec fn obeys_from_spec() -> bool {
        true
    }

    open spec fn from_spec(c: Coin) -> bool {
        c.value()
    }
}

impl<'a> From<&'a Coin> for bool {
    fn from(c: &'a Coin) -> (r: bool) {
        c.to_bool()
    }
}

impl<'a> vstd::std_specs::convert::FromSpecImpl<&'a Coin> for bool {
    open spec fn obeys_from_spec() -> bool {
        true
    }

    open spec fn from_spec(c: &'a Coin) -> bool {
        c.value()
    }
}

} // verus!
