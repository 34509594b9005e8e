//! Musical scales as 16-bit interval masks.
//!
//! A scale wraps one [`BitVec16`]: bit `i` of the raw word means that
//! the semitone interval `i + 1` from the root belongs to the scale.
//! From the mask the scale derives its ascending interval sequence, the
//! step sequence of first differences, and the absolute notes obtained
//! by applying the scale to a root note.
//!
//! A scale can be assembled in two interchangeable styles: by absolute
//! intervals through [`ScaleBuilder`], or by relative steps through
//! [`ScaleStepBuilder`], which keeps a running total and sets the same
//! bits. Driving them with matching input lists yields bit-identical
//! scales; [`lemma_scale_builder_equivalence`] proves it.

use crate::bitvec16::BitVec16;
use crate::bitvec16::BitVec16Builder;
use crate::bitvec16::lemma_u16_set_bit;
use crate::bitvec16::u16_bit;
use vstd::prelude::*;

verus! {

/// A scale: a mask of the semitone intervals `1..17` that belong to it.
#[derive(Debug, Clone, Copy, PartialEq, Eq, Hash, Structural)]
pub struct Scale(BitVec16);

impl Scale {
    /// The underlying bit vector; bit `i` stands for interval `i + 1`.
    pub closed spec fn vec(&self) -> BitVec16 {
        self.0
    }

    /// The raw backing word of the mask.
    pub open spec fn raw(&self) -> u16 {
        self.vec().raw()
    }

    /// Builds the scale with mask word `value`.
    pub fn from_u16(value: u16) -> (r: Scale)
        ensures
            r.raw() == value,
    {
        Scale(BitVec16::from_u16(value))
    }

    /// The semitone intervals of the scale, ascending: `i + 1` for each
    /// set bit `i` of the mask.
    pub fn intervals(&self) -> (r: Vec<u8>)
        ensures
            r@ == intervals_of(*self),
    {
        let mut out: Vec<u8> = Vec::new();
        let mut i: usize = 0;
        while i < 16
            invariant
                i <= 16,
                out@ == intervals_upto(*self, i as int),
            decreases 16 - i,
        {
            if self.0.bit(i) {
                out.push((i + 1) as u8);
            }
            i = i + 1;
        }
        out
    }

    /// The step sequence: the first difference of the interval
    /// sequence, with an implicit predecessor of 0 for the root.
    pub fn steps(&self) -> (r: Vec<u8>)
        ensures
            r@ == steps_of(*self),
    {
        proof {
            lemma_intervals_ascending(*self, 16);
        }
        let ivs = self.intervals();
        let mut out: Vec<u8> = Vec::new();
        let mut last: u8 = 0;
        let mut k: usize = 0;
        while k < ivs.len()
            invariant
                k <= ivs.len(),
                ivs@ == intervals_of(*self),
                out@ == steps_of(*self).take(k as int),
                last == if k == 0 {
                    0u8
                } else {
                    ivs@[k - 1]
                },
                forall|a: int|
                    0 <= a < intervals_of(*self).len()
                        ==> 1 <= #[trigger] intervals_of(*self)[a] <= 16,
                forall|a: int, b: int|
                    0 <= a < b < intervals_of(*self).len()
                        ==> intervals_of(*self)[a] < intervals_of(*self)[b],
            decreases ivs.len() - k,
        {
            let iv = ivs[k];
            proof {
                if k > 0 {
                    assert(intervals_of(*self)[k - 1] < intervals_of(*self)[k as int]);
                }
                assert(steps_of(*self)[k as int] == (iv - last) as u8);
            }
            out.push(iv - last);
            proof {
                assert(out@ =~= steps_of(*self).take(k + 1));
            }
            last = iv;
            k = k + 1;
        }
        proof {
            assert(out@ =~= steps_of(*self));
        }
        out
    }

    /// Projects the scale onto a root note: the root itself, followed by
    /// `root + interval` for each interval, ascending. Every such sum
    /// must fit in a byte.
    pub fn apply(&self, root: u8) -> (r: Vec<u8>)
        requires
            forall|k: int|
                0 <= k < intervals_of(*self).len()
                    ==> root + #[trigger] intervals_of(*self)[k] <= 255,
        ensures
            r@ == apply_of(*self, root),
    {
        let ivs = self.intervals();
        let mut out: Vec<u8> = Vec::new();
        out.push(root);
        proof {
            assert(out@ =~= apply_of(*self, root).take(1));
        }
        let mut k: usize = 0;
        while k < ivs.len()
            invariant
                k <= ivs.len(),
                ivs@ == intervals_of(*self),
                forall|a: int|
                    0 <= a < intervals_of(*self).len()
                        ==> root + #[trigger] intervals_of(*self)[a] <= 255,
                out@ == apply_of(*self, root).take(1 + k),
            decreases ivs.len() - k,
        {
            out.push(root + ivs[k]);
            proof {
                assert(out@ =~= apply_of(*self, root).take(1 + k + 1));
            }
            k = k + 1;
        }
        proof {
            assert(out@ =~= apply_of(*self, root));
        }
        out
    }
}

/// The intervals of `s` contributed by mask bits below `n`, ascending.
pub open spec fn intervals_upto(s: Scale, n: int) -> Seq<u8>
    decreases n,
{
    if n <= 0 {
        Seq::empty()
    } else if s.vec()@[n - 1] {
        intervals_upto(s, n - 1).push(n as u8)
    } else {
        intervals_upto(s, n - 1)
    }
}

/// The full ascending interval sequence of `s`.
pub open spec fn intervals_of(s: Scale) -> Seq<u8> {
    intervals_upto(s, 16)
}

/// The step sequence of `s`: first differences of the intervals, the
/// first interval being measured from the root.
pub open spec fn steps_of(s: Scale) -> Seq<u8> {
    Seq::new(
        intervals_of(s).len(),
        |k: int|
            if k == 0 {
                intervals_of(s)[0]
            } else {
                (intervals_of(s)[k] - intervals_of(s)[k - 1]) as u8
            },
    )
}

/// The notes of `s` played from `root`: the root, then each interval
/// added to it.
pub open spec fn apply_of(s: Scale, root: u8) -> Seq<u8> {
    seq![root] + Seq::new(intervals_of(s).len(), |k: int| (root + intervals_of(s)[k]) as u8)
}

/// The interval sequence ascends strictly, and every entry lies in
/// `1..=n`: the emitted intervals are derived solely from the set bits,
/// in ascending bit order.
pub proof fn lemma_intervals_ascending(s: Scale, n: int)
    requires
        0 <= n <= 16,
    ensures
        forall|k: int|
            0 <= k < intervals_upto(s, n).len() ==> 1 <= #[trigger] intervals_upto(s, n)[k] <= n,
        forall|k: int, l: int|
            0 <= k < l < intervals_upto(s, n).len()
                ==> intervals_upto(s, n)[k] < intervals_upto(s, n)[l],
    decreases n,
{
    if n > 0 {
        lemma_intervals_ascending(s, n - 1);
        let prev = intervals_upto(s, n - 1);
        let cur = intervals_upto(s, n);
        if s.vec()@[n - 1] {
            assert(cur == prev.push(n as u8));
            assert forall|k: int, l: int| 0 <= k < l < cur.len() implies cur[k] < cur[l] by {
                if l < prev.len() {
                    assert(cur[k] == prev[k] && cur[l] == prev[l]);
                } else {
                    assert(cur[l] == n as u8);
                    assert(cur[k] == prev[k] && prev[k] <= n - 1);
                }
            }
        } else {
            assert(cur == prev);
        }
    }
}

/// The interval sequence holds exactly the intervals whose mask bit is
/// set: `iv` appears among the intervals up to `n` precisely when
/// `1 <= iv <= n` and bit `iv - 1` is set.
pub proof fn lemma_intervals_membership(s: Scale, n: int)
    requires
        0 <= n <= 16,
    ensures
        forall|iv: u8|
            #[trigger] intervals_upto(s, n).contains(iv) <==> (1 <= iv <= n && s.vec()@[iv
                - 1]),
    decreases n,
{
    if n > 0 {
        lemma_intervals_membership(s, n - 1);
        let prev = intervals_upto(s, n - 1);
        let cur = intervals_upto(s, n);
        assert forall|iv: u8|
            #[trigger] cur.contains(iv) <==> (1 <= iv <= n && s.vec()@[iv - 1]) by {
            if s.vec()@[n - 1] {
                assert(cur == prev.push(n as u8));
                if cur.contains(iv) {
                    let k = choose|k: int| 0 <= k < cur.len() && cur[k] == iv;
                    if k < prev.len() {
                        assert(prev.contains(iv));
                    }
                }
                if 1 <= iv <= n && s.vec()@[iv - 1] {
                    if iv == n {
                        assert(cur[cur.len() - 1] == iv);
                    } else {
                        assert(prev.contains(iv));
                        let k = choose|k: int| 0 <= k < prev.len() && prev[k] == iv;
                        assert(cur[k] == iv);
                    }
                }
            } else {
                assert(cur == prev);
            }
        }
    }
}

/// The accumulated mask has exactly the bits of the listed intervals:
/// bit `j` of `mask_of_intervals(ivs)` is set precisely when `j + 1`
/// appears in the list.
pub proof fn lemma_mask_of_intervals_bits(ivs: Seq<u8>)
    requires
        forall|k: int| 0 <= k < ivs.len() ==> 1 <= #[trigger] ivs[k] <= 16,
    ensures
        forall|j: u16|
            j < 16 ==> (u16_bit(mask_of_intervals(ivs), j) <==> ivs.contains((j + 1) as u8)),
    decreases ivs.len(),
{
    if ivs.len() == 0 {
        assert forall|j: u16| j < 16 implies !u16_bit(mask_of_intervals(ivs), j) by {
            assert(!u16_bit(0u16, j)) by (bit_vector);
        }
    } else {
        let dl = ivs.drop_last();
        lemma_mask_of_intervals_bits(dl);
        let mask = mask_of_intervals(ivs);
        lemma_u16_set_bit(mask_of_intervals(dl), (ivs.last() - 1) as u16, mask);
        assert forall|j: u16|
            j < 16 implies (u16_bit(mask, j) <==> ivs.contains((j + 1) as u8)) by {
            if u16_bit(mask, j) {
                if j != ivs.last() - 1 {
                    assert(dl.contains((j + 1) as u8));
                    let k = choose|k: int| 0 <= k < dl.len() && dl[k] == (j + 1) as u8;
                    assert(ivs[k] == (j + 1) as u8);
                } else {
                    assert(ivs[ivs.len() - 1] == (j + 1) as u8);
                }
            }
            if ivs.contains((j + 1) as u8) {
                let k = choose|k: int| 0 <= k < ivs.len() && ivs[k] == (j + 1) as u8;
                if k < ivs.len() - 1 {
                    assert(dl[k] == (j + 1) as u8);
                    assert(dl.contains((j + 1) as u8));
                }
            }
        }
    }
}

/// What you set is what you read back: a scale whose mask was
/// accumulated from an interval list yields, through `intervals`,
/// exactly the listed intervals — ascending, without duplicates, and
/// nothing else.
pub proof fn lemma_built_scale_intervals(s: Scale, ivs: Seq<u8>)
    requires
        forall|k: int| 0 <= k < ivs.len() ==> 1 <= #[trigger] ivs[k] <= 16,
        s.raw() == mask_of_intervals(ivs),
    ensures
        forall|iv: u8| #[trigger] intervals_of(s).contains(iv) <==> ivs.contains(iv),
{
    lemma_intervals_membership(s, 16);
    lemma_mask_of_intervals_bits(ivs);
    assert forall|iv: u8| #[trigger] intervals_of(s).contains(iv) <==> ivs.contains(iv) by {
        if 1 <= iv <= 16 {
            let j = (iv - 1) as u16;
            assert(s.vec()@[iv - 1] == u16_bit(s.raw(), j));
            assert((j + 1) as u8 == iv);
        } else {
            if ivs.contains(iv) {
                let k = choose|k: int| 0 <= k < ivs.len() && ivs[k] == iv;
                assert(1 <= ivs[k] <= 16);
            }
        }
    }
}

/// Accumulates a scale from absolute semitone intervals.
///
/// Each [`ScaleBuilder::set_interval`] marks one interval in `1..17`;
/// [`ScaleBuilder::build`] finalizes the scale. Marking interval `n`
/// sets bit `n - 1` of the mask and nothing else.
pub struct ScaleBuilder {
    /// The mask accumulated so far.
    vec_builder: BitVec16Builder,
}

impl ScaleBuilder {
    /// The mask accumulated so far.
    pub closed spec fn state(&self) -> BitVec16 {
        self.vec_builder.state()
    }

    /// A fresh builder with no interval marked.
    fn new() -> (r: ScaleBuilder)
        ensures
            r.state().raw() == 0,
    {
        ScaleBuilder { vec_builder: BitVec16Builder::new() }
    }

    /// Marks the semitone interval `interval`, which must lie in
    /// `1..17`, by setting bit `interval - 1` of the mask.
    pub fn set_interval(self, interval: u8) -> (r: ScaleBuilder)
        requires
            1 <= interval <= 16,
        ensures
            r.state().raw() == self.state().raw() | (1u16 << ((interval - 1) as u16)),
            r.state()@ == self.state()@.update(interval - 1, true),
    {
        ScaleBuilder { vec_builder: self.vec_builder.set_index(interval - 1) }
    }

    /// Finalizes the builder and hands out the scale.
    pub fn build(self) -> (r: Scale)
        ensures
            r.raw() == self.state().raw(),
    {
        Scale::from_u16(self.vec_builder.build().inner())
    }
}

impl Default for ScaleBuilder {
    /// A fresh builder with no interval marked.
    fn default() -> (r: ScaleBuilder)
        ensures
            r.state().raw() == 0,
    {
        ScaleBuilder::new()
    }
}

/// Accumulates a scale from relative steps.
///
/// Each [`ScaleStepBuilder::add_step`] advances a running interval total
/// by the step and marks the interval reached, exactly as
/// [`ScaleBuilder::set_interval`] would mark that total. The running
/// total may never leave `1..17`.
pub struct ScaleStepBuilder {
    /// The builder that receives the accumulated intervals.
    scale_builder: ScaleBuilder,
    /// The interval reached so far: the sum of the steps taken.
    last_interval: u8,
}

impl ScaleStepBuilder {
    /// The mask accumulated so far.
    pub closed spec fn state(&self) -> BitVec16 {
        self.scale_builder.state()
    }

    /// The interval reached so far.
    pub closed spec fn last(&self) -> u8 {
        self.last_interval
    }

    /// A fresh builder at the root, with no interval marked.
    fn new() -> (r: ScaleStepBuilder)
        ensures
            r.state().raw() == 0,
            r.last() == 0,
    {
        ScaleStepBuilder { scale_builder: ScaleBuilder::new(), last_interval: 0 }
    }

    /// Advances the running total by `step` semitones and marks the
    /// interval reached. The new total must stay in `1..17`.
    pub fn add_step(self, step: u8) -> (r: ScaleStepBuilder)
        requires
            1 <= self.last() + step <= 16,
        ensures
            r.last() == self.last() + step,
            r.state().raw() == self.state().raw() | (1u16 << ((self.last() + step - 1) as u16)),
            r.state()@ == self.state()@.update(self.last() + step - 1, true),
    {
        let interval = self.last_interval + step;
        ScaleStepBuilder {
            scale_builder: self.scale_builder.set_interval(interval),
            last_interval: interval,
        }
    }

    /// Finalizes the builder and hands out the scale.
    pub fn build(self) -> (r: Scale)
        ensures
            r.raw() == self.state().raw(),
    {
        self.scale_builder.build()
    }
}

impl Default for ScaleStepBuilder {
    /// A fresh builder at the root, with no interval marked.
    fn default() -> (r: ScaleStepBuilder)
        ensures
            r.state().raw() == 0,
            r.last() == 0,
    {
        ScaleStepBuilder::new()
    }
}

/// The mask that marking each interval of `ivs` in turn accumulates:
/// what driving [`ScaleBuilder`] with `ivs` builds, by its contract.
pub open spec fn mask_of_intervals(ivs: Seq<u8>) -> u16
    decreases ivs.len(),
{
    if ivs.len() == 0 {
        0u16
    } else {
        mask_of_intervals(ivs.drop_last()) | (1u16 << ((ivs.last() - 1) as u16))
    }
}

/// The last running total of a sequence of totals, zero when none has
/// been taken yet.
pub open spec fn last_total(totals: Seq<u8>) -> u8 {
    if totals.len() == 0 {
        0u8
    } else {
        totals.last()
    }
}

/// The running interval totals that a step list accumulates: entry `k`
/// is the sum of the first `k + 1` steps.
pub open spec fn running_totals(steps: Seq<u8>) -> Seq<u8>
    decreases steps.len(),
{
    if steps.len() == 0 {
        Seq::empty()
    } else {
        let prev = running_totals(steps.drop_last());
        prev.push((last_total(prev) + steps.last()) as u8)
    }
}

/// The mask that taking each step of `steps` in turn accumulates: what
/// driving [`ScaleStepBuilder`] with `steps` builds, by its contract.
pub open spec fn mask_of_steps(steps: Seq<u8>) -> u16
    decreases steps.len(),
{
    if steps.len() == 0 {
        0u16
    } else {
        mask_of_steps(steps.drop_last()) | (1u16 << ((last_total(running_totals(steps)) - 1) as u16))
    }
}

/// Scale builder equivalence: a step list and its list of running
/// totals build bit-identical scales. Driving [`ScaleStepBuilder`] with
/// `steps` accumulates `mask_of_steps(steps)`, driving [`ScaleBuilder`]
/// with the corresponding interval list accumulates
/// `mask_of_intervals` of the running totals, and the two masks are
/// equal whenever every running total stays in `1..17`.
pub proof fn lemma_scale_builder_equivalence(steps: Seq<u8>)
    requires
        forall|k: int|
            0 <= k < steps.len() ==> 1 <= #[trigger] running_totals(steps)[k] <= 16,
    ensures
        mask_of_steps(steps) == mask_of_intervals(running_totals(steps)),
    decreases steps.len(),
{
    if steps.len() > 0 {
        let shorter = steps.drop_last();
        let totals = running_totals(steps);
        let prev = running_totals(shorter);
        assert(totals == prev.push((last_total(prev) + steps.last()) as u8));
        assert(running_totals(steps).len() == steps.len()) by {
            lemma_running_totals_len(steps);
        }
        assert(prev.len() == shorter.len()) by {
            lemma_running_totals_len(shorter);
        }
        assert forall|k: int| 0 <= k < shorter.len() implies 1 <= #[trigger] running_totals(
            shorter,
        )[k] <= 16 by {
            assert(running_totals(shorter)[k] == totals[k]);
        }
        lemma_scale_builder_equivalence(shorter);
        assert(totals.drop_last() == prev);
        assert(mask_of_intervals(totals) == mask_of_intervals(prev) | (1u16 << ((totals.last()
            - 1) as u16)));
        assert(last_total(totals) == totals.last());
    }
}

/// A step list accumulates one running total per step.
pub proof fn lemma_running_totals_len(steps: Seq<u8>)
    ensures
        running_totals(steps).len() == steps.len(),
    decreases steps.len(),
{
    if steps.len() > 0 {
        lemma_running_totals_len(steps.drop_last());
    }
}

/// The major scale: steps W-W-H-W-W-W-H.
pub fn major() -> (r: Scale)
    ensures
        r.raw() == 0b0000_1101_0101_1010,
{
    Scale::from_u16(0b0000_1101_0101_1010)
}

/// The natural minor scale: steps W-H-W-W-H-W-W.
pub fn natural_minor() -> (r: Scale)
    ensures
        r.raw() == 0b0000_1010_1101_0110,
{
    Scale::from_u16(0b0000_1010_1101_0110)
}

/// The harmonic minor scale: steps W-H-W-W-H-WH-H.
pub fn harmonic_minor() -> (r: Scale)
    ensures
        r.raw() == 0b0000_1100_1101_0110,
{
    Scale::from_u16(0b0000_1100_1101_0110)
}

/// The ascending melodic minor scale: steps W-H-W-W-W-W-H.
pub fn melodic_minor() -> (r: Scale)
    ensures
        r.raw() == 0b0000_1101_0101_0110,
{
    Scale::from_u16(0b0000_1101_0101_0110)
}

/// The major pentatonic scale: steps W-W-WH-W.
pub fn pentatonic_major() -> (r: Scale)
    ensures
        r.raw() == 0b0000_0001_0100_1010,
{
    Scale::from_u16(0b0000_0001_0100_1010)
}

/// The minor pentatonic scale: steps WH-W-W-WH.
pub fn pentatonic_minor() -> (r: Scale)
    ensures
        r.raw() == 0b0000_0010_0101_0100,
{
    Scale::from_u16(0b0000_0010_0101_0100)
}

/// The major blues scale: steps W-H-H-WH-W.
pub fn blues_major() -> (r: Scale)
    ensures
        r.raw() == 0b0000_0001_0100_1110,
{
    Scale::from_u16(0b0000_0001_0100_1110)
}

/// The minor blues scale: steps WH-W-H-H-WH-W.
pub fn blues_minor() -> (r: Scale)
    ensures
        r.raw() == 0b0000_1010_0111_0100,
{
    Scale::from_u16(0b0000_1010_0111_0100)
}

/// The whole-tone scale: steps W-W-W-W-W.
pub fn jazz_whole_tone() -> (r: Scale)
    ensures
        r.raw() == 0b0000_0010_1010_1010,
{
    Scale::from_u16(0b0000_0010_1010_1010)
}

/// The whole-half diminished scale: steps W-H-W-H-W-H-W.
pub fn jazz_wholehalf_diminished() -> (r: Scale)
    ensures
        r.raw() == 0b0000_0101_1011_0110,
{
    Scale::from_u16(0b0000_0101_1011_0110)
}

/// The bebop major scale: steps W-W-H-W-H-H-W-H.
pub fn bibop_major() -> (r: Scale)
    ensures
        r.raw() == 0b0000_1101_1101_1010,
{
    Scale::from_u16(0b0000_1101_1101_1010)
}

/// The bebop minor scale: steps W-H-H-H-W-W-H-W.
pub fn bibop_minor() -> (r: Scale)
    ensures
        r.raw() == 0b0000_1011_0101_1110,
{
    Scale::from_u16(0b0000_1011_0101_1110)
}

/// The bebop dominant scale: steps W-W-H-W-W-H-H-H.
pub fn bibop_dominant() -> (r: Scale)
    ensures
        r.raw() == 0b0000_1111_0101_1010,
{
    Scale::from_u16(0b0000_1111_0101_1010)
}

} // verus!
