//! A vector of sixteen 4-bit unsigned fields packed into one `u64`.
//!
//! Field `i` occupies bits `[4i, 4i + 4)` of the raw word; field 0 is the
//! least significant nibble. Every field holds a value in `0..16`. The
//! container is an immutable value: `set_item` and `reset_item` return a
//! new container, and [`U4Vec16Builder`] accumulates fields without
//! mutating anything in place.

use vstd::prelude::*;

verus! {

/// The 4-bit field of `v` at position `i`, as a byte in `0..16`.
pub open spec fn u64_nibble(v: u64, i: u64) -> u8 {
    ((v >> ((4 * i) as u64)) & 0xF) as u8
}

/// The sixteen 4-bit fields of `v` as a sequence, field 0 first.
pub open spec fn u64_nibble_seq(v: u64) -> Seq<u8> {
    Seq::new(16, |i: int| u64_nibble(v, i as u64))
}

/// Xor-ing out the current field at `i` clears it and leaves every other
/// field unchanged.
pub proof fn lemma_u64_clear_nibble(v: u64, i: u64, w: u64)
    requires
        i < 16,
        w == v ^ ((u64_nibble(v, i) as u64) << ((4 * i) as u64)),
    ensures
        forall|j: u64|
            j < 16 ==> u64_nibble(w, j) == if j == i {
                0u8
            } else {
                u64_nibble(v, j)
            },
{
    assert forall|j: u64|
        j < 16 implies u64_nibble(w, j) == (if j == i {
        0u8
    } else {
        u64_nibble(v, j)
    }) by {
        assert(u64_nibble(v ^ ((u64_nibble(v, i) as u64) << ((4 * i) as u64)), j) == (if j == i {
            0u8
        } else {
            u64_nibble(v, j)
        })) by (bit_vector)
            requires
                i < 16,
                j < 16,
        ;
    }
}

/// Or-ing a value into a cleared field writes that field and leaves every
/// other field unchanged.
pub proof fn lemma_u64_set_nibble(v: u64, i: u64, x: u8, w: u64)
    requires
        i < 16,
        x < 16,
        u64_nibble(v, i) == 0,
        w == v | ((x as u64) << ((4 * i) as u64)),
    ensures
        forall|j: u64|
            j < 16 ==> u64_nibble(w, j) == if j == i {
                x
            } else {
                u64_nibble(v, j)
            },
{
    assert forall|j: u64|
        j < 16 implies u64_nibble(w, j) == (if j == i {
        x
    } else {
        u64_nibble(v, j)
    }) by {
        assert(u64_nibble(v | ((x as u64) << ((4 * i) as u64)), j) == (if j == i {
            x
        } else {
            u64_nibble(v, j)
        })) by (bit_vector)
            requires
                i < 16,
                j < 16,
                x < 16,
                u64_nibble(v, i) == 0,
        ;
    }
}

/// Two words that agree on all sixteen fields are the same word.
pub proof fn lemma_u64_nibbles_injective(a: u64, b: u64)
    requires
        forall|i: u64| i < 16 ==> u64_nibble(a, i) == u64_nibble(b, i),
    ensures
        a == b,
{
    assert(a == b) by (bit_vector)
        requires
            u64_nibble(a, 0) == u64_nibble(b, 0),
            u64_nibble(a, 1) == u64_nibble(b, 1),
            u64_nibble(a, 2) == u64_nibble(b, 2),
            u64_nibble(a, 3) == u64_nibble(b, 3),
            u64_nibble(a, 4) == u64_nibble(b, 4),
            u64_nibble(a, 5) == u64_nibble(b, 5),
            u64_nibble(a, 6) == u64_nibble(b, 6),
            u64_nibble(a, 7) == u64_nibble(b, 7),
            u64_nibble(a, 8) == u64_nibble(b, 8),
            u64_nibble(a, 9) == u64_nibble(b, 9),
            u64_nibble(a, 10) == u64_nibble(b, 10),
            u64_nibble(a, 11) == u64_nibble(b, 11),
            u64_nibble(a, 12) == u64_nibble(b, 12),
            u64_nibble(a, 13) == u64_nibble(b, 13),
            u64_nibble(a, 14) == u64_nibble(b, 14),
            u64_nibble(a, 15) == u64_nibble(b, 15),
    ;
}

/// A vector of sixteen 4-bit unsigned fields.
///
/// The raw `u64` is the single attribute; field `i` occupies bits
/// `[4i, 4i + 4)`. Reading a field never observes bits of a neighbouring
/// field, and writing one leaves every other field bit-for-bit unchanged.
#[derive(Debug, Clone, Copy, PartialEq, Eq, Hash, Structural)]
pub struct U4Vec16 {
    bits: u64,
}

impl View for U4Vec16 {
    type V = Seq<u8>;

    open spec fn view(&self) -> Seq<u8> {
        u64_nibble_seq(self.raw())
    }
}

impl U4Vec16 {
    /// The raw backing word.
    pub closed spec fn raw(&self) -> u64 {
        self.bits
    }

    /// The vector a given raw word denotes.
    pub closed spec fn spec_from_u64(value: u64) -> U4Vec16 {
        U4Vec16 { bits: value }
    }

    /// Builds the vector with raw word `value`, preserving all 64 bits.
    pub fn from_u64(value: u64) -> (r: U4Vec16)
        ensures
            r == U4Vec16::spec_from_u64(value),
            r.raw() == value,
    {
        U4Vec16 { bits: value }
    }

    /// Builds the vector whose field at position `i` is `items[i]`.
    /// Every entry must already fit in four bits.
    pub fn from_vec(items: [u8; 16]) -> (r: U4Vec16)
        requires
            forall|k: int| 0 <= k < 16 ==> items@[k] < 16,
        ensures
            r@ == items@,
    {
        let mut value: u64 = 0;
        let mut i: usize = 0;
        proof {
            assert forall|j: u64| j < 16 implies u64_nibble(value, j) == 0 by {
                assert(u64_nibble(0u64, j) == 0) by (bit_vector);
            }
        }
        while i < 16
            invariant
                i <= 16,
                forall|k: int| 0 <= k < 16 ==> items@[k] < 16,
                forall|j: u64| j < i ==> u64_nibble(value, j) == items@[j as int],
                forall|j: u64| i <= j < 16 ==> u64_nibble(value, j) == 0,
            decreases 16 - i,
        {
            let before = value;
            let item = items[i];
            value = value | ((item as u64) << ((4 * i) as u64));
            proof {
                lemma_u64_set_nibble(before, i as u64, item, value);
            }
            i = i + 1;
        }
        let r = U4Vec16 { bits: value };
        proof {
            assert forall|j: int| 0 <= j < 16 implies r@[j] == items@[j] by {
                assert(u64_nibble(value, (j as u64)) == items@[(j as u64) as int]);
            }
            assert(r@ =~= items@);
        }
        r
    }

    /// The number of fields, always sixteen.
    pub fn capacity(&self) -> (r: usize)
        ensures
            r == 16,
    {
        16
    }

    /// The raw backing word of this vector.
    pub fn inner(&self) -> (r: u64)
        ensures
            r == self.raw(),
    {
        self.bits
    }

    /// The field at position `index`, a value in `0..16`.
    pub fn item(&self, index: usize) -> (r: u8)
        requires
            index < 16,
        ensures
            r == self@[index as int],
            r < 16,
    {
        let val = self.bits >> ((4 * index) as u64);
        proof {
            assert(val & 0xF < 16) by (bit_vector);
        }
        (val & 0xF) as u8
    }

    /// Returns a copy with the field at `index` cleared to zero and every
    /// other field unchanged.
    pub fn reset_item(self, index: usize) -> (r: U4Vec16)
        requires
            index < 16,
        ensures
            r@ == self@.update(index as int, 0u8),
    {
        let item = self.item(index) as u64;
        let mask = item << ((4 * index) as u64);
        let value = self.bits ^ mask;
        let r = U4Vec16 { bits: value };
        proof {
            lemma_u64_clear_nibble(self.bits, index as u64, value);
            assert forall|j: int|
                0 <= j < 16 implies r@[j] == self@.update(index as int, 0u8)[j] by {
                assert(u64_nibble(value, (j as u64)) == if (j as u64) == (index as u64) {
                    0u8
                } else {
                    u64_nibble(self.bits, (j as u64))
                });
            }
            assert(r@ =~= self@.update(index as int, 0u8));
        }
        r
    }

    /// Returns a copy with the field at `index` set to the low four bits
    /// of `value` and every other field unchanged. A value above fifteen
    /// is masked to its low nibble.
    pub fn set_item(self, index: usize, value: u8) -> (r: U4Vec16)
        requires
            index < 16,
        ensures
            r@ == self@.update(index as int, value & 0xF),
    {
        let cleared = self.reset_item(index);
        let item = value & 0xF;
        let mask = (item as u64) << ((4 * index) as u64);
        let raw = cleared.bits | mask;
        let r = U4Vec16 { bits: raw };
        proof {
            assert(item < 16 && u64_nibble(cleared.bits, index as u64) == 0) by {
                assert(value & 0xF < 16) by (bit_vector);
                assert(cleared@[index as int] == 0);
            }
            lemma_u64_set_nibble(cleared.bits, index as u64, item, raw);
            assert forall|j: int|
                0 <= j < 16 implies r@[j] == self@.update(index as int, value & 0xF)[j] by {
                assert(u64_nibble(raw, (j as u64)) == if (j as u64) == (index as u64) {
                    item
                } else {
                    u64_nibble(cleared.bits, (j as u64))
                });
                assert(cleared@[j] == u64_nibble(cleared.bits, (j as u64)));
            }
            assert(r@ =~= self@.update(index as int, value & 0xF));
        }
        r
    }

    /// A fresh iteration over the sixteen fields, starting at position 0.
    pub fn iter_items(&self) -> (r: U4Vec16Iter)
        ensures
            r.src() == *self,
            r.pos() == 0,
    {
        U4Vec16Iter { vec: *self, index: 0 }
    }

    /// The field at position 0.
    pub fn item0(&self) -> (r: u8)
        ensures
            r == self@[0],
    {
        self.item(0)
    }

    /// The field at position 1.
    pub fn item1(&self) -> (r: u8)
        ensures
            r == self@[1],
    {
        self.item(1)
    }

    /// The field at position 2.
    pub fn item2(&self) -> (r: u8)
        ensures
            r == self@[2],
    {
        self.item(2)
    }

    /// The field at position 3.
    pub fn item3(&self) -> (r: u8)
        ensures
            r == self@[3],
    {
        self.item(3)
    }

    /// The field at position 4.
    pub fn item4(&self) -> (r: u8)
        ensures
            r == self@[4],
    {
        self.item(4)
    }

    /// The field at position 5.
    pub fn item5(&self) -> (r: u8)
        ensures
            r == self@[5],
    {
        self.item(5)
    }

    /// The field at position 6.
    pub fn item6(&self) -> (r: u8)
        ensures
            r == self@[6],
    {
        self.item(6)
    }

    /// The field at position 7.
    pub fn item7(&self) -> (r: u8)
        ensures
            r == self@[7],
    {
        self.item(7)
    }

    /// The field at position 8.
    pub fn item8(&self) -> (r: u8)
        ensures
            r == self@[8],
    {
        self.item(8)
    }

    /// The field at position 9.
    pub fn item9(&self) -> (r: u8)
        ensures
            r == self@[9],
    {
        self.item(9)
    }

    /// The field at position 10.
    pub fn item10(&self) -> (r: u8)
        ensures
            r == self@[10],
    {
        self.item(10)
    }

    /// The field at position 11.
    pub fn item11(&self) -> (r: u8)
        ensures
            r == self@[11],
    {
        self.item(11)
    }

    /// The field at position 12.
    pub fn item12(&self) -> (r: u8)
        ensures
            r == self@[12],
    {
        self.item(12)
    }

    /// The field at position 13.
    pub fn item13(&self) -> (r: u8)
        ensures
            r == self@[13],
    {
        self.item(13)
    }

    /// The field at position 14.
    pub fn item14(&self) -> (r: u8)
        ensures
            r == self@[14],
    {
        self.item(14)
    }

    /// The field at position 15.
    pub fn item15(&self) -> (r: u8)
        ensures
            r == self@[15],
    {
        self.item(15)
    }
}

/// Round trip: a vector built from a raw word reads back as that word.
pub proof fn lemma_u4vec16_raw_roundtrip(v: u64)
    ensures
        U4Vec16::spec_from_u64(v).raw() == v,
{
}

/// Field isolation: writing field `i` never changes what field `j` holds,
/// for any distinct positions `i` and `j`. `set_item` promises the update
/// below, and the update leaves every other position untouched.
pub proof fn lemma_field_isolation(c: U4Vec16, i: int, j: int, x: u8)
    requires
        0 <= i < 16,
        0 <= j < 16,
        i != j,
    ensures
        c@.update(i, x & 0xF)[j] == c@[j],
{
}

/// Last write wins: writing field `i` twice leaves the low four bits of
/// the second value, whatever was written first.
pub proof fn lemma_overwrite_last_wins(c: U4Vec16, i: int, x: u8, y: u8)
    requires
        0 <= i < 16,
    ensures
        c@.update(i, x & 0xF).update(i, y & 0xF)[i] == y & 0xF,
{
}

/// The sixteen fields determine the raw word: vectors with equal field
/// sequences are equal. Building through [`U4Vec16Builder`] and writing
/// the same fields directly with `set_item` therefore yield identical raw
/// values, since both promise the same field sequence.
pub proof fn lemma_u4vec16_slots_determine_raw(a: U4Vec16, b: U4Vec16)
    requires
        a@ == b@,
    ensures
        a == b,
{
    assert forall|i: u64| i < 16 implies u64_nibble(a.raw(), i) == u64_nibble(b.raw(), i) by {
        assert(a@[i as int] == u64_nibble(a.raw(), (i as int) as u64));
        assert(b@[i as int] == u64_nibble(b.raw(), (i as int) as u64));
        assert((i as int) as u64 == i);
    }
    lemma_u64_nibbles_injective(a.raw(), b.raw());
}

/// An iteration over the fields of a [`U4Vec16`], position 0 first.
///
/// Each call of [`U4Vec16Iter::next`] yields one field and advances the
/// position; after sixteen fields it yields nothing. A fresh iteration
/// always starts at position 0.
pub struct U4Vec16Iter {
    /// The vector being iterated over.
    vec: U4Vec16,
    /// The next position to yield.
    index: usize,
}

impl U4Vec16Iter {
    /// The vector this iteration walks.
    pub closed spec fn src(&self) -> U4Vec16 {
        self.vec
    }

    /// The next position to yield.
    pub closed spec fn pos(&self) -> int {
        self.index as int
    }

    /// Yields the field at the current position and advances, or yields
    /// nothing once all sixteen fields are spent.
    pub fn next(&mut self) -> (r: Option<u8>)
        ensures
            old(self).pos() < 16 ==> {
                &&& r == Some(old(self).src()@[old(self).pos()])
                &&& final(self).pos() == old(self).pos() + 1
                &&& final(self).src() == old(self).src()
            },
            old(self).pos() >= 16 ==> {
                &&& r is None
                &&& *final(self) == *old(self)
            },
    {
        if self.index < 16 {
            let item = self.vec.item(self.index);
            self.index = self.index + 1;
            Some(item)
        } else {
            None
        }
    }

    /// How many fields remain to be yielded.
    pub fn len(&self) -> (r: usize)
        requires
            self.pos() <= 16,
        ensures
            r == 16 - self.pos(),
    {
        16 - self.index
    }
}

/// Accumulates 4-bit fields for a [`U4Vec16`], starting from all-zero.
///
/// Each [`U4Vec16Builder::set_item`] returns a new builder with one field
/// written; [`U4Vec16Builder::build`] finalizes the vector. The builder
/// performs exactly the container's own `set_item` on its accumulated
/// value, so building through the builder and applying the same writes
/// directly give identical raw values.
pub struct U4Vec16Builder {
    /// The vector accumulated so far.
    vec: U4Vec16,
}

impl U4Vec16Builder {
    /// The vector accumulated so far.
    pub closed spec fn state(&self) -> U4Vec16 {
        self.vec
    }

    /// A fresh builder with every field zero.
    pub fn new() -> (r: U4Vec16Builder)
        ensures
            r.state().raw() == 0,
    {
        U4Vec16Builder { vec: U4Vec16::from_u64(0) }
    }

    /// Writes the low four bits of `value` into the field at `index`,
    /// leaving all other fields unchanged.
    pub fn set_item(self, index: usize, value: u8) -> (r: U4Vec16Builder)
        requires
            index < 16,
        ensures
            r.state()@ == self.state()@.update(index as int, value & 0xF),
    {
        U4Vec16Builder { vec: self.vec.set_item(index, value) }
    }

    /// Finalizes the builder and hands out the accumulated vector.
    pub fn build(self) -> (r: U4Vec16)
        ensures
            r == self.state(),
    {
        self.vec
    }
}

impl Default for U4Vec16Builder {
    /// A fresh builder with every field zero.
    fn default() -> (r: U4Vec16Builder)
        ensures
            r.state().raw() == 0,
    {
        U4Vec16Builder::new()
    }
}

} // verus!
