//! A scale degree and its accidental packed into one byte.
//!
//! The degree number sits in the low nibble of a [`U4x2`] and the
//! accidental code in the high nibble: 0 natural, 1 flat, 2 double
//! flat, 3 sharp, 4 double sharp. This packing is independent of the
//! chord slot encoding, which stores accidentals by position instead.

use crate::u4x2::U4x2;
use crate::u4x2::u8_high_nibble;
use crate::u4x2::u8_low_nibble;
use crate::u4x2::u8_pack_nibbles;
use crate::u4x2::lemma_pack_nibbles_roundtrip;
use vstd::prelude::*;

verus! {

/// A packed (degree, accidental) pair: the degree in the low nibble,
/// the accidental code in the high nibble.
#[derive(Debug, Clone, Copy, PartialEq, Eq, Hash, Structural)]
pub struct Degreex {
    /// The underlying packed pair.
    inner: U4x2,
}

impl Degreex {
    /// The raw backing byte.
    pub closed spec fn raw(&self) -> u8 {
        self.inner.raw()
    }

    /// Packs a degree number and an accidental code, both in `0..16`.
    pub fn new(first: u8, second: u8) -> (r: Degreex)
        requires
            first < 16,
            second < 16,
        ensures
            r.raw() == u8_pack_nibbles(first, second),
            u8_low_nibble(r.raw()) == first,
            u8_high_nibble(r.raw()) == second,
    {
        proof {
            lemma_pack_nibbles_roundtrip(first, second);
        }
        Degreex { inner: U4x2::new(first, second) }
    }

    /// The raw backing byte holding degree and accidental.
    pub fn inner(&self) -> (r: u8)
        ensures
            r == self.raw(),
    {
        self.inner.inner()
    }

    /// The degree number: the low nibble.
    pub fn first(&self) -> (r: u8)
        ensures
            r == u8_low_nibble(self.raw()),
            r < 16,
    {
        self.inner.first()
    }

    /// The accidental code: the high nibble.
    pub fn second(&self) -> (r: u8)
        ensures
            r == u8_high_nibble(self.raw()),
            r < 16,
    {
        self.inner.second()
    }
}

/// The natural third degree.
pub fn third() -> (r: Degreex)
    ensures
        u8_low_nibble(r.raw()) == 3 && u8_high_nibble(r.raw()) == 0,
{
    Degreex::new(3, 0)
}

/// The flattened third degree.
pub fn third_flat() -> (r: Degreex)
    ensures
        u8_low_nibble(r.raw()) == 3 && u8_high_nibble(r.raw()) == 1,
{
    Degreex::new(3, 1)
}

/// The doubly flattened third degree.
pub fn third_doubleflat() -> (r: Degreex)
    ensures
        u8_low_nibble(r.raw()) == 3 && u8_high_nibble(r.raw()) == 2,
{
    Degreex::new(3, 2)
}

/// The sharpened third degree.
pub fn third_sharp() -> (r: Degreex)
    ensures
        u8_low_nibble(r.raw()) == 3 && u8_high_nibble(r.raw()) == 3,
{
    Degreex::new(3, 3)
}

/// The doubly sharpened third degree.
pub fn third_doublesharp() -> (r: Degreex)
    ensures
        u8_low_nibble(r.raw()) == 3 && u8_high_nibble(r.raw()) == 4,
{
    Degreex::new(3, 4)
}

/// The natural fifth degree.
pub fn fifth() -> (r: Degreex)
    ensures
        u8_low_nibble(r.raw()) == 5 && u8_high_nibble(r.raw()) == 0,
{
    Degreex::new(5, 0)
}

/// The flattened fifth degree.
pub fn fifth_flat() -> (r: Degreex)
    ensures
        u8_low_nibble(r.raw()) == 5 && u8_high_nibble(r.raw()) == 1,
{
    Degreex::new(5, 1)
}

/// The doubly flattened fifth degree.
pub fn fifth_doubleflat() -> (r: Degreex)
    ensures
        u8_low_nibble(r.raw()) == 5 && u8_high_nibble(r.raw()) == 2,
{
    Degreex::new(5, 2)
}

/// The sharpened fifth degree.
pub fn fifth_sharp() -> (r: Degreex)
    ensures
        u8_low_nibble(r.raw()) == 5 && u8_high_nibble(r.raw()) == 3,
{
    Degreex::new(5, 3)
}

/// The doubly sharpened fifth degree.
pub fn fifth_doublesharp() -> (r: Degreex)
    ensures
        u8_low_nibble(r.raw()) == 5 && u8_high_nibble(r.raw()) == 4,
{
    Degreex::new(5, 4)
}

/// The natural seventh degree.
pub fn seventh() -> (r: Degreex)
    ensures
        u8_low_nibble(r.raw()) == 7 && u8_high_nibble(r.raw()) == 0,
{
    Degreex::new(7, 0)
}

/// The flattened seventh degree.
pub fn seventh_flat() -> (r: Degreex)
    ensures
        u8_low_nibble(r.raw()) == 7 && u8_high_nibble(r.raw()) == 1,
{
    Degreex::new(7, 1)
}

/// The doubly flattened seventh degree.
pub fn seventh_doubleflat() -> (r: Degreex)
    ensures
        u8_low_nibble(r.raw()) == 7 && u8_high_nibble(r.raw()) == 2,
{
    Degreex::new(7, 2)
}

/// The sharpened seventh degree.
pub fn seventh_sharp() -> (r: Degreex)
    ensures
        u8_low_nibble(r.raw()) == 7 && u8_high_nibble(r.raw()) == 3,
{
    Degreex::new(7, 3)
}

/// The doubly sharpened seventh degree.
pub fn seventh_doublesharp() -> (r: Degreex)
    ensures
        u8_low_nibble(r.raw()) == 7 && u8_high_nibble(r.raw()) == 4,
{
    Degreex::new(7, 4)
}

} // verus!
