//! A bit-flip resistant Boolean.
//!
//! A [`Coin`] stores a Boolean in a whole byte and reads it back by majority:
//! the value is `true` when the byte holds at least as many 1-bits as 0-bits.
//! Up to three flipped bits in a canonical pattern (all ones for `true`, all
//! zeros for `false`) never change what it reads as. A tie of four ones against
//! four zeros reads as `true`.
pub mod bits;
pub mod coin;
pub mod laws;

pub use coin::Coin;
