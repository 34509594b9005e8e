//! Two 4-bit unsigned fields packed into one `u8`.
//!
//! The first field sits in the low nibble and the second in the high
//! nibble: the raw byte is `(second << 4) | first`. Both operands must
//! already fit in four bits; the pair is an immutable, trivially
//! copyable value.

use vstd::prelude::*;

verus! {

/// The low nibble of `raw`: the first packed field.
pub open spec fn u8_low_nibble(raw: u8) -> u8 {
    raw & 0x0F
}

/// The high nibble of `raw`, shifted down: the second packed field.
pub open spec fn u8_high_nibble(raw: u8) -> u8 {
    (raw & 0xF0) >> 4u8
}

/// The byte that packs `first` into the low nibble and `second` into the
/// high nibble.
pub open spec fn u8_pack_nibbles(first: u8, second: u8) -> u8 {
    (second << 4u8) | first
}

/// Packing two 4-bit values and reading them back returns the operands:
/// the low nibble is the first value and the high nibble the second.
pub proof fn lemma_pack_nibbles_roundtrip(first: u8, second: u8)
    requires
        first < 16,
        second < 16,
    ensures
        u8_low_nibble(u8_pack_nibbles(first, second)) == first,
        u8_high_nibble(u8_pack_nibbles(first, second)) == second,
{
    assert(u8_low_nibble(u8_pack_nibbles(first, second)) == first && u8_high_nibble(
        u8_pack_nibbles(first, second),
    ) == second) by (bit_vector)
        requires
            first < 16,
            second < 16,
    ;
}

/// A pair of 4-bit unsigned fields packed into one byte.
///
/// The raw `u8` is the single attribute: `first` is the low nibble and
/// `second` the high nibble.
#[derive(Debug, Clone, Copy, PartialEq, Eq, Hash, Structural)]
pub struct U4x2 {
    byte: u8,
}

impl U4x2 {
    /// The raw backing byte.
    pub closed spec fn raw(&self) -> u8 {
        self.byte
    }

    /// Packs `first` into the low nibble and `second` into the high
    /// nibble. Both operands must fit in four bits.
    pub fn new(first: u8, second: u8) -> (r: U4x2)
        requires
            first < 16,
            second < 16,
        ensures
            r.raw() == u8_pack_nibbles(first, second),
            r.raw() == (second << 4u8) | first,
    {
        U4x2 { byte: (second << 4u8) | first }
    }

    /// The raw backing byte holding both packed fields.
    pub fn inner(&self) -> (r: u8)
        ensures
            r == self.raw(),
    {
        self.byte
    }

    /// The first packed field: the low nibble.
    pub fn first(&self) -> (r: u8)
        ensures
            r == u8_low_nibble(self.raw()),
            r < 16,
    {
        let b = self.byte;
        proof {
            assert(b & 0x0F < 16) by (bit_vector);
        }
        b & 0x0F
    }

    /// The second packed field: the high nibble, shifted down.
    pub fn second(&self) -> (r: u8)
        ensures
            r == u8_high_nibble(self.raw()),
            r < 16,
    {
        let b = self.byte;
        proof {
            assert((b & 0xF0) >> 4u8 < 16) by (bit_vector);
        }
        (b & 0xF0) >> 4u8
    }
}

} // verus!
