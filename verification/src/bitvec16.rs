//! A vector of sixteen boolean flags packed into one `u16`.
//!
//! Bit `i` of the raw word is the flag at position `i`; bit 0 is the least
//! significant. The container is an immutable value: it is constructed
//! whole from a raw word, from an array of flags, or through
//! [`BitVec16Builder`], and every accessor leaves it unchanged.

use vstd::prelude::*;

verus! {

/// True when bit `i` of `v` is set; bit 0 is the least significant.
pub open spec fn u16_bit(v: u16, i: u16) -> bool {
    v & (1u16 << i) != 0
}

/// The sixteen bits of `v` as a sequence of flags, bit 0 first.
pub open spec fn u16_bit_seq(v: u16) -> Seq<bool> {
    Seq::new(16, |i: int| u16_bit(v, i as u16))
}

/// Or-ing in `1 << i` sets bit `i` and leaves every other bit unchanged.
pub proof fn lemma_u16_set_bit(v: u16, i: u16, w: u16)
    requires
        i < 16,
        w == v | (1u16 << i),
    ensures
        forall|j: u16| j < 16 ==> u16_bit(w, j) == (j == i || u16_bit(v, j)),
{
    assert forall|j: u16| j < 16 implies u16_bit(w, j) == (j == i || u16_bit(v, j)) by {
        assert(u16_bit(v | (1u16 << i), j) == (j == i || u16_bit(v, j))) by (bit_vector)
            requires
                i < 16,
                j < 16,
        ;
    }
}

/// Two words that agree on all sixteen bits are the same word.
pub proof fn lemma_u16_bits_injective(a: u16, b: u16)
    requires
        forall|i: u16| i < 16 ==> u16_bit(a, i) == u16_bit(b, i),
    ensures
        a == b,
{
    assert(a == b) by (bit_vector)
        requires
            u16_bit(a, 0) == u16_bit(b, 0),
            u16_bit(a, 1) == u16_bit(b, 1),
            u16_bit(a, 2) == u16_bit(b, 2),
            u16_bit(a, 3) == u16_bit(b, 3),
            u16_bit(a, 4) == u16_bit(b, 4),
            u16_bit(a, 5) == u16_bit(b, 5),
            u16_bit(a, 6) == u16_bit(b, 6),
            u16_bit(a, 7) == u16_bit(b, 7),
            u16_bit(a, 8) == u16_bit(b, 8),
            u16_bit(a, 9) == u16_bit(b, 9),
            u16_bit(a, 10) == u16_bit(b, 10),
            u16_bit(a, 11) == u16_bit(b, 11),
            u16_bit(a, 12) == u16_bit(b, 12),
            u16_bit(a, 13) == u16_bit(b, 13),
            u16_bit(a, 14) == u16_bit(b, 14),
            u16_bit(a, 15) == u16_bit(b, 15),
    ;
}

/// The positions below `n` at which `s` holds the flag `target`,
/// in ascending order.
pub open spec fn indices_where(s: Seq<bool>, target: bool, n: int) -> Seq<usize>
    decreases n,
{
    if n <= 0 {
        Seq::empty()
    } else if s[n - 1] == target {
        indices_where(s, target, n - 1).push((n - 1) as usize)
    } else {
        indices_where(s, target, n - 1)
    }
}

/// Every entry of `indices_where` lies below `n`, and the entries ascend.
pub proof fn lemma_indices_where_ascending(s: Seq<bool>, target: bool, n: int)
    requires
        0 <= n <= 16,
    ensures
        forall|k: int|
            0 <= k < indices_where(s, target, n).len()
                ==> #[trigger] indices_where(s, target, n)[k] < n,
        forall|k: int, l: int|
            0 <= k < l < indices_where(s, target, n).len()
                ==> indices_where(s, target, n)[k] < indices_where(s, target, n)[l],
    decreases n,
{
    if n > 0 {
        lemma_indices_where_ascending(s, target, n - 1);
        let prev = indices_where(s, target, n - 1);
        let cur = indices_where(s, target, n);
        if s[n - 1] == target {
            assert(cur == prev.push((n - 1) as usize));
            assert forall|k: int, l: int| 0 <= k < l < cur.len() implies cur[k] < cur[l] by {
                if l < prev.len() {
                    assert(cur[k] == prev[k] && cur[l] == prev[l]);
                } else {
                    assert(cur[l] == (n - 1) as usize);
                    assert(cur[k] == prev[k] && prev[k] < n - 1);
                }
            }
        } else {
            assert(cur == prev);
        }
    }
}

/// `indices_where` selects exactly the right positions: `i` appears
/// among the collected indices precisely when `i < n` and `s[i]` is the
/// sought flag.
pub proof fn lemma_indices_where_membership(s: Seq<bool>, target: bool, n: int)
    requires
        0 <= n <= 16,
    ensures
        forall|i: usize|
            #[trigger] indices_where(s, target, n).contains(i) <==> (i < n && s[i as int]
                == target),
    decreases n,
{
    if n > 0 {
        lemma_indices_where_membership(s, target, n - 1);
        let prev = indices_where(s, target, n - 1);
        let cur = indices_where(s, target, n);
        assert forall|i: usize|
            #[trigger] cur.contains(i) <==> (i < n && s[i as int] == target) by {
            if s[n - 1] == target {
                assert(cur == prev.push((n - 1) as usize));
                if cur.contains(i) {
                    let k = choose|k: int| 0 <= k < cur.len() && cur[k] == i;
                    if k < prev.len() {
                        assert(prev.contains(i));
                    }
                }
                if i < n && s[i as int] == target {
                    if i == n - 1 {
                        assert(cur[cur.len() - 1] == i);
                    } else {
                        assert(prev.contains(i));
                        let k = choose|k: int| 0 <= k < prev.len() && prev[k] == i;
                        assert(cur[k] == i);
                    }
                }
            } else {
                assert(cur == prev);
            }
        }
    }
}

/// A 16-bit vector of boolean flags.
///
/// The raw `u16` is the single attribute; bit `i` is the flag at
/// position `i`. No position carries any meaning beyond set or unset.
#[derive(Debug, Clone, Copy, PartialEq, Eq, Hash, Structural)]
pub struct BitVec16 {
    bits: u16,
}

impl View for BitVec16 {
    type V = Seq<bool>;

    open spec fn view(&self) -> Seq<bool> {
        u16_bit_seq(self.raw())
    }
}

impl BitVec16 {
    /// The raw backing word.
    pub closed spec fn raw(&self) -> u16 {
        self.bits
    }

    /// The vector a given raw word denotes.
    pub closed spec fn spec_from_u16(value: u16) -> BitVec16 {
        BitVec16 { bits: value }
    }

    /// Builds the vector with raw word `value`, preserving every bit.
    pub fn from_u16(value: u16) -> (r: BitVec16)
        ensures
            r == BitVec16::spec_from_u16(value),
            r.raw() == value,
    {
        BitVec16 { bits: value }
    }

    /// Builds the vector whose flag at position `i` is `bits[i]`.
    pub fn from_vec(bits: [bool; 16]) -> (r: BitVec16)
        ensures
            r@ == bits@,
    {
        let mut value: u16 = 0;
        let mut i: usize = 0;
        proof {
            assert forall|j: u16| j < 16 implies !u16_bit(value, j) by {
                assert(!u16_bit(0u16, j)) by (bit_vector);
            }
        }
        while i < 16
            invariant
                i <= 16,
                forall|j: u16| j < i ==> u16_bit(value, j) == bits@[j as int],
                forall|j: u16| i <= j < 16 ==> !u16_bit(value, j),
            decreases 16 - i,
        {
            let before = value;
            if bits[i] {
                value = value | (1u16 << (i as u16));
                proof {
                    lemma_u16_set_bit(before, i as u16, value);
                }
            }
            proof {
                assert forall|j: u16| j < i + 1 implies u16_bit(value, j) == bits@[j as int] by {
                    if j < i {
                        assert(u16_bit(before, j) == bits@[j as int]);
                    }
                }
            }
            i = i + 1;
        }
        let r = BitVec16 { bits: value };
        proof {
            assert forall|j: int| 0 <= j < 16 implies r@[j] == bits@[j] by {
                assert(u16_bit(value, (j as u16)) == bits@[(j as u16) as int]);
            }
            assert(r@ =~= bits@);
        }
        r
    }

    /// The number of flag positions, always sixteen.
    pub fn capacity(&self) -> (r: usize)
        ensures
            r == 16,
    {
        16
    }

    /// The raw backing word of this vector.
    pub fn inner(&self) -> (r: u16)
        ensures
            r == self.raw(),
    {
        self.bits
    }

    /// The flag at position `index`.
    pub fn bit(&self, index: usize) -> (r: bool)
        requires
            index < 16,
        ensures
            r == self@[index as int],
    {
        self.bits & (1u16 << (index as u16)) != 0
    }

    /// The flag at position 0.
    pub fn bit0(&self) -> (r: bool)
        ensures
            r == self@[0],
    {
        self.bit(0)
    }

    /// The flag at position 1.
    pub fn bit1(&self) -> (r: bool)
        ensures
            r == self@[1],
    {
        self.bit(1)
    }

    /// The flag at position 2.
    pub fn bit2(&self) -> (r: bool)
        ensures
            r == self@[2],
    {
        self.bit(2)
    }

    /// The flag at position 3.
    pub fn bit3(&self) -> (r: bool)
        ensures
            r == self@[3],
    {
        self.bit(3)
    }

    /// The flag at position 4.
    pub fn bit4(&self) -> (r: bool)
        ensures
            r == self@[4],
    {
        self.bit(4)
    }

    /// The flag at position 5.
    pub fn bit5(&self) -> (r: bool)
        ensures
            r == self@[5],
    {
        self.bit(5)
    }

    /// The flag at position 6.
    pub fn bit6(&self) -> (r: bool)
        ensures
            r == self@[6],
    {
        self.bit(6)
    }

    /// The flag at position 7.
    pub fn bit7(&self) -> (r: bool)
        ensures
            r == self@[7],
    {
        self.bit(7)
    }

    /// The flag at position 8.
    pub fn bit8(&self) -> (r: bool)
        ensures
            r == self@[8],
    {
        self.bit(8)
    }

    /// The flag at position 9.
    pub fn bit9(&self) -> (r: bool)
        ensures
            r == self@[9],
    {
        self.bit(9)
    }

    /// The flag at position 10.
    pub fn bit10(&self) -> (r: bool)
        ensures
            r == self@[10],
    {
        self.bit(10)
    }

    /// The flag at position 11.
    pub fn bit11(&self) -> (r: bool)
        ensures
            r == self@[11],
    {
        self.bit(11)
    }

    /// The flag at position 12.
    pub fn bit12(&self) -> (r: bool)
        ensures
            r == self@[12],
    {
        self.bit(12)
    }

    /// The flag at position 13.
    pub fn bit13(&self) -> (r: bool)
        ensures
            r == self@[13],
    {
        self.bit(13)
    }

    /// The flag at position 14.
    pub fn bit14(&self) -> (r: bool)
        ensures
            r == self@[14],
    {
        self.bit(14)
    }

    /// The flag at position 15.
    pub fn bit15(&self) -> (r: bool)
        ensures
            r == self@[15],
    {
        self.bit(15)
    }

    /// A fresh iteration over the sixteen flags, starting at position 0.
    pub fn iter_bits(&self) -> (r: BitVec16Iter)
        ensures
            r.src() == *self,
            r.pos() == 0,
    {
        BitVec16Iter { vec: *self, index: 0 }
    }

    /// The positions whose flag is set, in ascending order.
    pub fn indeces_on(&self) -> (r: Vec<usize>)
        ensures
            r@ == indices_where(self@, true, 16),
    {
        self.indices_matching(true)
    }

    /// The positions whose flag is unset, in ascending order.
    pub fn indeces_off(&self) -> (r: Vec<usize>)
        ensures
            r@ == indices_where(self@, false, 16),
    {
        self.indices_matching(false)
    }

    /// The positions whose flag equals `target`, in ascending order.
    fn indices_matching(&self, target: bool) -> (r: Vec<usize>)
        ensures
            r@ == indices_where(self@, target, 16),
    {
        let mut out: Vec<usize> = Vec::new();
        let mut i: usize = 0;
        while i < 16
            invariant
                i <= 16,
                out@ == indices_where(self@, target, i as int),
            decreases 16 - i,
        {
            if self.bit(i) == target {
                out.push(i);
            }
            i = i + 1;
        }
        out
    }
}

/// Round trip: a vector built from a raw word reads back as that word.
pub proof fn lemma_bitvec16_raw_roundtrip(v: u16)
    ensures
        BitVec16::spec_from_u16(v).raw() == v,
{
}

/// The sixteen flags determine the raw word: vectors with equal flag
/// sequences are equal, so any two constructions that set the same flags
/// yield the same raw value.
pub proof fn lemma_bitvec16_flags_determine_raw(a: BitVec16, b: BitVec16)
    requires
        a@ == b@,
    ensures
        a == b,
{
    assert forall|i: u16| i < 16 implies u16_bit(a.raw(), i) == u16_bit(b.raw(), i) by {
        assert(a@[i as int] == u16_bit(a.raw(), (i as int) as u16));
        assert(b@[i as int] == u16_bit(b.raw(), (i as int) as u16));
        assert((i as int) as u16 == i);
    }
    lemma_u16_bits_injective(a.raw(), b.raw());
}

/// An iteration over the flags of a [`BitVec16`], position 0 first.
///
/// Each call of [`BitVec16Iter::next`] yields one flag and advances the
/// position; after sixteen flags it yields nothing. A fresh iteration
/// always starts at position 0.
pub struct BitVec16Iter {
    /// The vector being iterated over.
    vec: BitVec16,
    /// The next position to yield.
    index: usize,
}

impl BitVec16Iter {
    /// The vector this iteration walks.
    pub closed spec fn src(&self) -> BitVec16 {
        self.vec
    }

    /// The next position to yield.
    pub closed spec fn pos(&self) -> int {
        self.index as int
    }

    /// Yields the flag at the current position and advances, or yields
    /// nothing once all sixteen flags are spent.
    pub fn next(&mut self) -> (r: Option<bool>)
        ensures
            old(self).pos() < 16 ==> {
                &&& r == Some(old(self).src()@[old(self).pos()])
                &&& final(self).pos() == old(self).pos() + 1
                &&& final(self).src() == old(self).src()
            },
            old(self).pos() >= 16 ==> {
                &&& r is None
                &&& *final(self) == *old(self)
            },
    {
        if self.index < 16 {
            let b = self.vec.bit(self.index);
            self.index = self.index + 1;
            Some(b)
        } else {
            None
        }
    }

    /// How many flags remain to be yielded.
    pub fn len(&self) -> (r: usize)
        requires
            self.pos() <= 16,
        ensures
            r == 16 - self.pos(),
    {
        16 - self.index
    }
}

/// Accumulates set positions for a [`BitVec16`], starting from all-unset.
///
/// Each [`BitVec16Builder::set_index`] returns a new builder with one more
/// flag set; [`BitVec16Builder::build`] finalizes the vector. Setting a
/// position is one `|` of the raw word: building through the builder and
/// writing the same bits directly give identical raw values.
pub struct BitVec16Builder {
    /// The vector accumulated so far.
    vec: BitVec16,
}

impl BitVec16Builder {
    /// The vector accumulated so far.
    pub closed spec fn state(&self) -> BitVec16 {
        self.vec
    }

    /// A fresh builder with every flag unset.
    pub fn new() -> (r: BitVec16Builder)
        ensures
            r.state().raw() == 0,
    {
        BitVec16Builder { vec: BitVec16::from_u16(0) }
    }

    /// Sets the flag at position `index`, leaving all others unchanged.
    pub fn set_index(self, index: u8) -> (r: BitVec16Builder)
        requires
            index < 16,
        ensures
            r.state().raw() == self.state().raw() | (1u16 << index),
            r.state()@ == self.state()@.update(index as int, true),
    {
        let value = self.vec.inner() | (1u16 << (index as u16));
        let vec = BitVec16::from_u16(value);
        proof {
            lemma_u16_set_bit(self.vec.bits, index as u16, value);
            assert forall|j: int|
                0 <= j < 16 implies vec@[j] == self.state()@.update(index as int, true)[j] by {
                assert(vec@[j] == u16_bit(value, (j as u16)));
                assert(u16_bit(value, (j as u16)) == ((j as u16) == index as u16 || u16_bit(
                    self.state().raw(),
                    (j as u16),
                )));
            }
            assert(vec@ =~= self.state()@.update(index as int, true));
        }
        BitVec16Builder { vec }
    }

    /// Finalizes the builder and hands out the accumulated vector.
    pub fn build(self) -> (r: BitVec16)
        ensures
            r == self.state(),
    {
        self.vec
    }
}

impl Default for BitVec16Builder {
    /// A fresh builder with every flag unset.
    fn default() -> (r: BitVec16Builder)
        ensures
            r.state().raw() == 0,
    {
        BitVec16Builder::new()
    }
}

} // verus!
