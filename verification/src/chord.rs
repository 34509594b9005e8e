//! Chords as 16-slot vectors of accidental codes.
//!
//! A chord wraps one [`U4Vec16`]: slot `i` holds the accidental code of
//! scale-degree `i + 1`, and the reserved code 0 means that the degree
//! is absent. A well-formed chord holds only codes `0..5` in its slots.
//! The chord is exactly the set of present (degree, accidental) pairs,
//! and [`Chord::degrees`] yields them in ascending degree order.
//!
//! Chords are assembled through [`ChordBuilder`], which starts from the
//! root — every chord implicitly contains its root — and overwrites one
//! slot per call, last write winning.

use crate::degree::Degree;
use crate::degree::DegreeAccidental;
use crate::degree::degree_accidental_code;
use crate::degree::degree_accidental_of_code;
use crate::degree::degree_display;
use crate::degree::fifth;
use crate::degree::flat_fifth;
use crate::degree::flat_seventh;
use crate::degree::flat_third;
use crate::degree::doubleflat_seventh;
use crate::degree::eleventh;
use crate::degree::fourth;
use crate::degree::lemma_spec_new_degree;
use crate::degree::ninth;
use crate::degree::root;
use crate::degree::second;
use crate::degree::seventh;
use crate::degree::sharp_fifth;
use crate::degree::sixth;
use crate::degree::third;
use crate::degree::thirteenth;
use crate::u4vec16::U4Vec16;
use crate::u4vec16::U4Vec16Builder;
use crate::u4vec16::u64_nibble;
use vstd::prelude::*;

verus! {

broadcast use lemma_spec_new_degree;

/// The degree accidental behind a slot code known to be valid.
pub open spec fn accidental_of_slot(code: u8) -> DegreeAccidental {
    if code == 1 {
        DegreeAccidental::Natural
    } else if code == 2 {
        DegreeAccidental::Flat
    } else if code == 3 {
        DegreeAccidental::DoubleFlat
    } else {
        DegreeAccidental::Sharp
    }
}

/// The slot contents of a chord with no degree present.
pub open spec fn empty_slots() -> Seq<u8> {
    Seq::new(16, |i: int| 0u8)
}

/// A chord: sixteen slots of accidental codes, slot `i` for degree
/// `i + 1`, code 0 for an absent degree.
pub struct Chord(U4Vec16);

impl Chord {
    /// The underlying slot vector.
    pub closed spec fn vec(&self) -> U4Vec16 {
        self.0
    }

    /// The sixteen slot codes, degree 1 first.
    pub open spec fn slots(&self) -> Seq<u8> {
        self.vec()@
    }

    /// A well-formed chord holds only the codes `0..5`: absent, or one
    /// of the four degree accidentals.
    pub open spec fn wf(&self) -> bool {
        forall|i: int| 0 <= i < 16 ==> #[trigger] self.slots()[i] <= 4
    }

    /// Wraps a slot vector as a chord. Every slot must hold 0 or a
    /// valid accidental code.
    pub fn new(degrees: U4Vec16) -> (r: Chord)
        requires
            forall|i: int| 0 <= i < 16 ==> degrees@[i] <= 4,
        ensures
            r.vec() == degrees,
            r.wf(),
    {
        Chord(degrees)
    }

    /// The present degrees, ascending by degree number: one pair per
    /// slot whose code is not 0.
    pub fn degrees(&self) -> (r: Vec<Degree>)
        requires
            self.wf(),
        ensures
            r@ == degrees_of(*self),
    {
        let mut out: Vec<Degree> = Vec::new();
        let mut i: usize = 0;
        while i < 16
            invariant
                i <= 16,
                self.wf(),
                out@ == degrees_upto(*self, i as int),
            decreases 16 - i,
        {
            let code = self.0.item(i);
            if code != 0 {
                let acc = DegreeAccidental::from_code(code);
                proof {
                    assert(degree_accidental_of_code(code) == Some(accidental_of_slot(code)));
                }
                out.push(Degree::new((i + 1) as u8, acc));
            }
            i = i + 1;
        }
        out
    }

    /// Renders the chord: the display forms of its degrees, joined by
    /// hyphens.
    pub fn display_string(&self) -> (r: String)
        requires
            self.wf(),
        ensures
            r@ == degrees_display(degrees_of(*self)),
    {
        proof {
            reveal_strlit("-");
        }
        let degs = self.degrees();
        let mut s = String::new();
        let mut k: usize = 0;
        while k < degs.len()
            invariant
                k <= degs.len(),
                degs@ == degrees_of(*self),
                s@ == degrees_display(degrees_of(*self).take(k as int)),
            decreases degs.len() - k,
        {
            if k > 0 {
                s.append("-");
            }
            let part = degs[k].display_string();
            s.append(part.as_str());
            proof {
                reveal_strlit("-");
                let taken = degrees_of(*self).take(k + 1);
                assert(taken.drop_last() =~= degrees_of(*self).take(k as int));
                assert(taken.last() == degrees_of(*self)[k as int]);
                assert(s@ =~= degrees_display(taken));
            }
            k = k + 1;
        }
        proof {
            assert(degrees_of(*self).take(degrees_of(*self).len() as int) =~= degrees_of(
                *self,
            ));
        }
        s
    }
}

/// The degrees contributed by slots below `n`, ascending.
pub open spec fn degrees_upto(c: Chord, n: int) -> Seq<Degree>
    decreases n,
{
    if n <= 0 {
        Seq::empty()
    } else if c.slots()[n - 1] == 0 {
        degrees_upto(c, n - 1)
    } else {
        degrees_upto(c, n - 1).push(
            Degree::spec_new(n as u8, accidental_of_slot(c.slots()[n - 1])),
        )
    }
}

/// The full degree sequence of `c`, ascending by degree number.
pub open spec fn degrees_of(c: Chord) -> Seq<Degree> {
    degrees_upto(c, 16)
}

/// The display form of a degree sequence: each degree's display form,
/// joined by hyphens.
pub open spec fn degrees_display(ds: Seq<Degree>) -> Seq<char>
    decreases ds.len(),
{
    if ds.len() == 0 {
        Seq::empty()
    } else if ds.len() == 1 {
        degree_display(ds[0])
    } else {
        degrees_display(ds.drop_last()) + seq!['-'] + degree_display(ds.last())
    }
}

/// Chord degree ordering: the degree sequence ascends strictly in
/// degree number, every yielded degree lies in `1..=n`, and a degree is
/// yielded exactly when its slot code is not 0, carrying that slot's
/// accidental.
pub proof fn lemma_degrees_ordered(c: Chord, n: int)
    requires
        c.wf(),
        0 <= n <= 16,
    ensures
        forall|k: int|
            0 <= k < degrees_upto(c, n).len() ==> {
                &&& 1 <= (#[trigger] degrees_upto(c, n)[k]).spec_degree() <= n
                &&& c.slots()[degrees_upto(c, n)[k].spec_degree() - 1] != 0
                &&& degrees_upto(c, n)[k].spec_accidental() == accidental_of_slot(
                    c.slots()[degrees_upto(c, n)[k].spec_degree() - 1],
                )
            },
        forall|k: int, l: int|
            0 <= k < l < degrees_upto(c, n).len()
                ==> degrees_upto(c, n)[k].spec_degree() < degrees_upto(c, n)[l].spec_degree(),
        forall|i: int|
            0 <= i < n && #[trigger] c.slots()[i] != 0
                ==> degrees_upto(c, n).contains(
                    Degree::spec_new((i + 1) as u8, accidental_of_slot(c.slots()[i])),
                ),
    decreases n,
{
    if n > 0 {
        lemma_degrees_ordered(c, n - 1);
        let prev = degrees_upto(c, n - 1);
        let cur = degrees_upto(c, n);
        assert forall|i: int|
            0 <= i < n && #[trigger] c.slots()[i] != 0 implies cur.contains(
            Degree::spec_new((i + 1) as u8, accidental_of_slot(c.slots()[i])),
        ) by {
            let d = Degree::spec_new((i + 1) as u8, accidental_of_slot(c.slots()[i]));
            if i < n - 1 {
                let k = choose|k: int| 0 <= k < prev.len() && prev[k] == d;
                if c.slots()[n - 1] != 0 {
                    assert(cur[k] == d);
                } else {
                    assert(cur[k] == d);
                }
            } else {
                assert(cur.last() == d);
            }
        }
        if c.slots()[n - 1] != 0 {
            assert forall|k: int, l: int|
                0 <= k < l < cur.len() implies cur[k].spec_degree() < cur[l].spec_degree() by {
                if l < prev.len() {
                    assert(cur[k] == prev[k] && cur[l] == prev[l]);
                } else {
                    assert(cur[l].spec_degree() == n);
                    assert(cur[k] == prev[k] && prev[k].spec_degree() <= n - 1);
                }
            }
        }
    }
}

/// Accumulates a chord degree by degree, starting from the bare root.
///
/// [`ChordBuilder::with_root`] opens the chord with degree 1 set to
/// natural; each [`ChordBuilder::set_degree`] overwrites one slot, the
/// last write winning; [`ChordBuilder::build`] finalizes the chord.
pub struct ChordBuilder(U4Vec16Builder);

impl ChordBuilder {
    /// The slot vector accumulated so far.
    pub closed spec fn state(&self) -> U4Vec16 {
        self.0.state()
    }

    /// The accumulated slot codes.
    pub open spec fn slots(&self) -> Seq<u8> {
        self.state()@
    }

    /// A well-formed builder holds only the codes `0..5` in its slots.
    pub open spec fn wf(&self) -> bool {
        forall|i: int| 0 <= i < 16 ==> #[trigger] self.slots()[i] <= 4
    }

    /// A fresh builder holding only the root: degree 1, natural.
    pub fn with_root() -> (r: ChordBuilder)
        ensures
            r.slots() == empty_slots().update(0, 1u8),
            r.wf(),
    {
        let empty = ChordBuilder(U4Vec16Builder::new());
        proof {
            assert forall|j: int| 0 <= j < 16 implies empty.slots()[j] == empty_slots()[j] by {
                let ju = j as u64;
                assert(u64_nibble(0u64, ju) == 0) by (bit_vector);
                assert(empty.slots()[j] == u64_nibble(empty.state().raw(), ju));
            }
            assert(empty.slots() =~= empty_slots());
        }
        let r = empty.set_degree(root());
        proof {
            assert(r.slots() =~= empty_slots().update(0, 1u8));
        }
        r
    }

    /// Writes `degree`'s accidental code into slot `degree - 1`,
    /// overwriting whatever the slot held.
    pub fn set_degree(self, degree: Degree) -> (r: ChordBuilder)
        requires
            degree.wf(),
        ensures
            r.slots() == self.slots().update(
                degree.spec_degree() - 1,
                degree_accidental_code(degree.spec_accidental()),
            ),
    {
        let code = degree.accidental().code();
        proof {
            assert(code & 0xF == code) by (bit_vector)
                requires
                    code <= 4,
            ;
        }
        ChordBuilder(self.0.set_item((degree.degree() - 1) as usize, code))
    }

    /// Finalizes the builder and hands out the chord.
    pub fn build(self) -> (r: Chord)
        ensures
            r.vec() == self.state(),
            r.slots() == self.slots(),
    {
        Chord(self.0.build())
    }
}

impl Default for ChordBuilder {
    /// A fresh builder holding only the root.
    fn default() -> (r: ChordBuilder)
        ensures
            r.slots() == empty_slots().update(0, 1u8),
            r.wf(),
    {
        ChordBuilder::with_root()
    }
}

/// The major triad: root, major third, perfect fifth (R-3-5).
pub fn major_triad() -> (r: Chord)
    ensures
        r.slots() == seq![1u8, 0, 1, 0, 1, 0, 0, 0, 0, 0, 0, 0, 0, 0, 0, 0],
        r.wf(),
{
    let c = ChordBuilder::with_root().set_degree(third()).set_degree(fifth()).build();
    proof {
        assert(c.slots() =~= seq![1u8, 0, 1, 0, 1, 0, 0, 0, 0, 0, 0, 0, 0, 0, 0, 0]);
    }
    c
}

/// The minor triad: root, minor third, perfect fifth (R-♭3-5).
pub fn minor_triad() -> (r: Chord)
    ensures
        r.slots() == seq![1u8, 0, 2, 0, 1, 0, 0, 0, 0, 0, 0, 0, 0, 0, 0, 0],
        r.wf(),
{
    let c = ChordBuilder::with_root().set_degree(flat_third()).set_degree(fifth()).build();
    proof {
        assert(c.slots() =~= seq![1u8, 0, 2, 0, 1, 0, 0, 0, 0, 0, 0, 0, 0, 0, 0, 0]);
    }
    c
}

/// The diminished triad: root, minor third, diminished fifth (R-♭3-♭5).
pub fn diminished_triad() -> (r: Chord)
    ensures
        r.slots() == seq![1u8, 0, 2, 0, 2, 0, 0, 0, 0, 0, 0, 0, 0, 0, 0, 0],
        r.wf(),
{
    let c = ChordBuilder::with_root().set_degree(flat_third()).set_degree(flat_fifth()).build();
    proof {
        assert(c.slots() =~= seq![1u8, 0, 2, 0, 2, 0, 0, 0, 0, 0, 0, 0, 0, 0, 0, 0]);
    }
    c
}

/// The augmented triad: root, major third, augmented fifth (R-3-♯5).
pub fn augmented_triad() -> (r: Chord)
    ensures
        r.slots() == seq![1u8, 0, 1, 0, 4, 0, 0, 0, 0, 0, 0, 0, 0, 0, 0, 0],
        r.wf(),
{
    let c = ChordBuilder::with_root().set_degree(third()).set_degree(sharp_fifth()).build();
    proof {
        assert(c.slots() =~= seq![1u8, 0, 1, 0, 4, 0, 0, 0, 0, 0, 0, 0, 0, 0, 0, 0]);
    }
    c
}

/// The major seventh chord: R-3-5-7.
pub fn major_seventh_chord() -> (r: Chord)
    ensures
        r.slots() == seq![1u8, 0, 1, 0, 1, 0, 1, 0, 0, 0, 0, 0, 0, 0, 0, 0],
        r.wf(),
{
    let c = ChordBuilder::with_root().set_degree(third()).set_degree(fifth()).set_degree(seventh()).build();
    proof {
        assert(c.slots() =~= seq![1u8, 0, 1, 0, 1, 0, 1, 0, 0, 0, 0, 0, 0, 0, 0, 0]);
    }
    c
}

/// The minor seventh chord: R-♭3-5-♭7.
pub fn minor_seventh_chord() -> (r: Chord)
    ensures
        r.slots() == seq![1u8, 0, 2, 0, 1, 0, 2, 0, 0, 0, 0, 0, 0, 0, 0, 0],
        r.wf(),
{
    let c = ChordBuilder::with_root().set_degree(flat_third()).set_degree(fifth()).set_degree(flat_seventh()).build();
    proof {
        assert(c.slots() =~= seq![1u8, 0, 2, 0, 1, 0, 2, 0, 0, 0, 0, 0, 0, 0, 0, 0]);
    }
    c
}

/// The dominant seventh chord: R-3-5-♭7.
pub fn dominant_seventh() -> (r: Chord)
    ensures
        r.slots() == seq![1u8, 0, 1, 0, 1, 0, 2, 0, 0, 0, 0, 0, 0, 0, 0, 0],
        r.wf(),
{
    let c = ChordBuilder::with_root().set_degree(third()).set_degree(fifth()).set_degree(flat_seventh()).build();
    proof {
        assert(c.slots() =~= seq![1u8, 0, 1, 0, 1, 0, 2, 0, 0, 0, 0, 0, 0, 0, 0, 0]);
    }
    c
}

/// The half-diminished seventh chord: R-♭3-♭5-♭7.
pub fn half_diminished_seventh() -> (r: Chord)
    ensures
        r.slots() == seq![1u8, 0, 2, 0, 2, 0, 2, 0, 0, 0, 0, 0, 0, 0, 0, 0],
        r.wf(),
{
    let c = ChordBuilder::with_root().set_degree(flat_third()).set_degree(flat_fifth()).set_degree(flat_seventh()).build();
    proof {
        assert(c.slots() =~= seq![1u8, 0, 2, 0, 2, 0, 2, 0, 0, 0, 0, 0, 0, 0, 0, 0]);
    }
    c
}

/// The diminished seventh chord: R-♭3-♭5-♭♭7.
pub fn diminished_seventh() -> (r: Chord)
    ensures
        r.slots() == seq![1u8, 0, 2, 0, 2, 0, 3, 0, 0, 0, 0, 0, 0, 0, 0, 0],
        r.wf(),
{
    let c = ChordBuilder::with_root().set_degree(flat_third()).set_degree(flat_fifth()).set_degree(doubleflat_seventh()).build();
    proof {
        assert(c.slots() =~= seq![1u8, 0, 2, 0, 2, 0, 3, 0, 0, 0, 0, 0, 0, 0, 0, 0]);
    }
    c
}

/// The augmented seventh chord: R-3-♯5-♭7.
pub fn augmented_seventh() -> (r: Chord)
    ensures
        r.slots() == seq![1u8, 0, 1, 0, 4, 0, 2, 0, 0, 0, 0, 0, 0, 0, 0, 0],
        r.wf(),
{
    let c = ChordBuilder::with_root().set_degree(third()).set_degree(sharp_fifth()).set_degree(flat_seventh()).build();
    proof {
        assert(c.slots() =~= seq![1u8, 0, 1, 0, 4, 0, 2, 0, 0, 0, 0, 0, 0, 0, 0, 0]);
    }
    c
}

/// The minor major seventh chord: R-♭3-5-7.
pub fn minor_major_seventh() -> (r: Chord)
    ensures
        r.slots() == seq![1u8, 0, 2, 0, 1, 0, 1, 0, 0, 0, 0, 0, 0, 0, 0, 0],
        r.wf(),
{
    let c = ChordBuilder::with_root().set_degree(flat_third()).set_degree(fifth()).set_degree(seventh()).build();
    proof {
        assert(c.slots() =~= seq![1u8, 0, 2, 0, 1, 0, 1, 0, 0, 0, 0, 0, 0, 0, 0, 0]);
    }
    c
}

/// The sixth chord: R-3-5-6.
pub fn sixth_chord() -> (r: Chord)
    ensures
        r.slots() == seq![1u8, 0, 1, 0, 1, 1, 0, 0, 0, 0, 0, 0, 0, 0, 0, 0],
        r.wf(),
{
    let c = ChordBuilder::with_root().set_degree(third()).set_degree(fifth()).set_degree(sixth()).build();
    proof {
        assert(c.slots() =~= seq![1u8, 0, 1, 0, 1, 1, 0, 0, 0, 0, 0, 0, 0, 0, 0, 0]);
    }
    c
}

/// The sixth minor chord: R-♭3-5-6.
pub fn sixth_minor_chord() -> (r: Chord)
    ensures
        r.slots() == seq![1u8, 0, 2, 0, 1, 1, 0, 0, 0, 0, 0, 0, 0, 0, 0, 0],
        r.wf(),
{
    let c = ChordBuilder::with_root().set_degree(flat_third()).set_degree(fifth()).set_degree(sixth()).build();
    proof {
        assert(c.slots() =~= seq![1u8, 0, 2, 0, 1, 1, 0, 0, 0, 0, 0, 0, 0, 0, 0, 0]);
    }
    c
}

/// The sixth ninth chord: R-3-5-6-9.
pub fn sixth_ninth_chord() -> (r: Chord)
    ensures
        r.slots() == seq![1u8, 0, 1, 0, 1, 1, 0, 0, 1, 0, 0, 0, 0, 0, 0, 0],
        r.wf(),
{
    let c = ChordBuilder::with_root().set_degree(third()).set_degree(fifth()).set_degree(sixth()).set_degree(ninth()).build();
    proof {
        assert(c.slots() =~= seq![1u8, 0, 1, 0, 1, 1, 0, 0, 1, 0, 0, 0, 0, 0, 0, 0]);
    }
    c
}

/// The fifth chord: R-5.
pub fn fifth_chord() -> (r: Chord)
    ensures
        r.slots() == seq![1u8, 0, 0, 0, 1, 0, 0, 0, 0, 0, 0, 0, 0, 0, 0, 0],
        r.wf(),
{
    let c = ChordBuilder::with_root().set_degree(fifth()).build();
    proof {
        assert(c.slots() =~= seq![1u8, 0, 0, 0, 1, 0, 0, 0, 0, 0, 0, 0, 0, 0, 0, 0]);
    }
    c
}

/// The dominant ninth chord: R-3-5-♭7-9.
pub fn dominant_ninth() -> (r: Chord)
    ensures
        r.slots() == seq![1u8, 0, 1, 0, 1, 0, 2, 0, 1, 0, 0, 0, 0, 0, 0, 0],
        r.wf(),
{
    let c = ChordBuilder::with_root().set_degree(third()).set_degree(fifth()).set_degree(flat_seventh()).set_degree(ninth()).build();
    proof {
        assert(c.slots() =~= seq![1u8, 0, 1, 0, 1, 0, 2, 0, 1, 0, 0, 0, 0, 0, 0, 0]);
    }
    c
}

/// The minor ninth chord: R-♭3-5-♭7-9.
pub fn minor_ninth() -> (r: Chord)
    ensures
        r.slots() == seq![1u8, 0, 2, 0, 1, 0, 2, 0, 1, 0, 0, 0, 0, 0, 0, 0],
        r.wf(),
{
    let c = ChordBuilder::with_root().set_degree(flat_third()).set_degree(fifth()).set_degree(flat_seventh()).set_degree(ninth()).build();
    proof {
        assert(c.slots() =~= seq![1u8, 0, 2, 0, 1, 0, 2, 0, 1, 0, 0, 0, 0, 0, 0, 0]);
    }
    c
}

/// The major ninth chord: R-3-5-7-9.
pub fn major_ninth() -> (r: Chord)
    ensures
        r.slots() == seq![1u8, 0, 1, 0, 1, 0, 1, 0, 1, 0, 0, 0, 0, 0, 0, 0],
        r.wf(),
{
    let c = ChordBuilder::with_root().set_degree(third()).set_degree(fifth()).set_degree(seventh()).set_degree(ninth()).build();
    proof {
        assert(c.slots() =~= seq![1u8, 0, 1, 0, 1, 0, 1, 0, 1, 0, 0, 0, 0, 0, 0, 0]);
    }
    c
}

/// The eleventh chord: R-3-5-7-9-11.
pub fn eleventh_chord() -> (r: Chord)
    ensures
        r.slots() == seq![1u8, 0, 1, 0, 1, 0, 1, 0, 1, 0, 1, 0, 0, 0, 0, 0],
        r.wf(),
{
    let c = ChordBuilder::with_root().set_degree(third()).set_degree(fifth()).set_degree(seventh()).set_degree(ninth()).set_degree(eleventh()).build();
    proof {
        assert(c.slots() =~= seq![1u8, 0, 1, 0, 1, 0, 1, 0, 1, 0, 1, 0, 0, 0, 0, 0]);
    }
    c
}

/// The minor eleventh chord: R-♭3-5-♭7-9-11.
pub fn minor_eleventh() -> (r: Chord)
    ensures
        r.slots() == seq![1u8, 0, 2, 0, 1, 0, 2, 0, 1, 0, 1, 0, 0, 0, 0, 0],
        r.wf(),
{
    let c = ChordBuilder::with_root().set_degree(flat_third()).set_degree(fifth()).set_degree(flat_seventh()).set_degree(ninth()).set_degree(eleventh()).build();
    proof {
        assert(c.slots() =~= seq![1u8, 0, 2, 0, 1, 0, 2, 0, 1, 0, 1, 0, 0, 0, 0, 0]);
    }
    c
}

/// The thirteenth chord: R-3-5-♭7-9-11-13.
pub fn thirteenth_chord() -> (r: Chord)
    ensures
        r.slots() == seq![1u8, 0, 1, 0, 1, 0, 2, 0, 1, 0, 1, 0, 1, 0, 0, 0],
        r.wf(),
{
    let c = ChordBuilder::with_root().set_degree(third()).set_degree(fifth()).set_degree(flat_seventh()).set_degree(ninth()).set_degree(eleventh()).set_degree(thirteenth()).build();
    proof {
        assert(c.slots() =~= seq![1u8, 0, 1, 0, 1, 0, 2, 0, 1, 0, 1, 0, 1, 0, 0, 0]);
    }
    c
}

/// The minor thirteenth chord: R-♭3-5-♭7-9-11-13.
pub fn minor_thirteenth() -> (r: Chord)
    ensures
        r.slots() == seq![1u8, 0, 2, 0, 1, 0, 2, 0, 1, 0, 1, 0, 1, 0, 0, 0],
        r.wf(),
{
    let c = ChordBuilder::with_root().set_degree(flat_third()).set_degree(fifth()).set_degree(flat_seventh()).set_degree(ninth()).set_degree(eleventh()).set_degree(thirteenth()).build();
    proof {
        assert(c.slots() =~= seq![1u8, 0, 2, 0, 1, 0, 2, 0, 1, 0, 1, 0, 1, 0, 0, 0]);
    }
    c
}

/// The major thirteenth chord: R-3-5-7-9-11-13.
pub fn major_thirteenth() -> (r: Chord)
    ensures
        r.slots() == seq![1u8, 0, 1, 0, 1, 0, 1, 0, 1, 0, 1, 0, 1, 0, 0, 0],
        r.wf(),
{
    let c = ChordBuilder::with_root().set_degree(third()).set_degree(fifth()).set_degree(seventh()).set_degree(ninth()).set_degree(eleventh()).set_degree(thirteenth()).build();
    proof {
        assert(c.slots() =~= seq![1u8, 0, 1, 0, 1, 0, 1, 0, 1, 0, 1, 0, 1, 0, 0, 0]);
    }
    c
}

/// The major eleventh chord: R-3-5-7-9-11.
pub fn major_eleventh() -> (r: Chord)
    ensures
        r.slots() == seq![1u8, 0, 1, 0, 1, 0, 1, 0, 1, 0, 1, 0, 0, 0, 0, 0],
        r.wf(),
{
    let c = ChordBuilder::with_root().set_degree(third()).set_degree(fifth()).set_degree(seventh()).set_degree(ninth()).set_degree(eleventh()).build();
    proof {
        assert(c.slots() =~= seq![1u8, 0, 1, 0, 1, 0, 1, 0, 1, 0, 1, 0, 0, 0, 0, 0]);
    }
    c
}

/// The suspended second chord: R-2-5.
pub fn suspended_second() -> (r: Chord)
    ensures
        r.slots() == seq![1u8, 1, 0, 0, 1, 0, 0, 0, 0, 0, 0, 0, 0, 0, 0, 0],
        r.wf(),
{
    let c = ChordBuilder::with_root().set_degree(second()).set_degree(fifth()).build();
    proof {
        assert(c.slots() =~= seq![1u8, 1, 0, 0, 1, 0, 0, 0, 0, 0, 0, 0, 0, 0, 0, 0]);
    }
    c
}

/// The suspended fourth chord: R-4-5.
pub fn suspended_fourth() -> (r: Chord)
    ensures
        r.slots() == seq![1u8, 0, 0, 1, 1, 0, 0, 0, 0, 0, 0, 0, 0, 0, 0, 0],
        r.wf(),
{
    let c = ChordBuilder::with_root().set_degree(fourth()).set_degree(fifth()).build();
    proof {
        assert(c.slots() =~= seq![1u8, 0, 0, 1, 1, 0, 0, 0, 0, 0, 0, 0, 0, 0, 0, 0]);
    }
    c
}

/// The added second chord: R-2-3-5.
pub fn added_second() -> (r: Chord)
    ensures
        r.slots() == seq![1u8, 1, 1, 0, 1, 0, 0, 0, 0, 0, 0, 0, 0, 0, 0, 0],
        r.wf(),
{
    let c = ChordBuilder::with_root().set_degree(second()).set_degree(third()).set_degree(fifth()).build();
    proof {
        assert(c.slots() =~= seq![1u8, 1, 1, 0, 1, 0, 0, 0, 0, 0, 0, 0, 0, 0, 0, 0]);
    }
    c
}

/// The added ninth chord: R-3-5-9.
pub fn added_ninth() -> (r: Chord)
    ensures
        r.slots() == seq![1u8, 0, 1, 0, 1, 0, 0, 0, 1, 0, 0, 0, 0, 0, 0, 0],
        r.wf(),
{
    let c = ChordBuilder::with_root().set_degree(third()).set_degree(fifth()).set_degree(ninth()).build();
    proof {
        assert(c.slots() =~= seq![1u8, 0, 1, 0, 1, 0, 0, 0, 1, 0, 0, 0, 0, 0, 0, 0]);
    }
    c
}

/// The added eleventh chord: R-3-5-11.
pub fn added_eleventh() -> (r: Chord)
    ensures
        r.slots() == seq![1u8, 0, 1, 0, 1, 0, 0, 0, 0, 0, 1, 0, 0, 0, 0, 0],
        r.wf(),
{
    let c = ChordBuilder::with_root().set_degree(third()).set_degree(fifth()).set_degree(eleventh()).build();
    proof {
        assert(c.slots() =~= seq![1u8, 0, 1, 0, 1, 0, 0, 0, 0, 0, 1, 0, 0, 0, 0, 0]);
    }
    c
}

/// The dominant seventh flat five chord: R-3-♭5-♭7.
pub fn dominant_seventh_flat_five() -> (r: Chord)
    ensures
        r.slots() == seq![1u8, 0, 1, 0, 2, 0, 2, 0, 0, 0, 0, 0, 0, 0, 0, 0],
        r.wf(),
{
    let c = ChordBuilder::with_root().set_degree(third()).set_degree(flat_fifth()).set_degree(flat_seventh()).build();
    proof {
        assert(c.slots() =~= seq![1u8, 0, 1, 0, 2, 0, 2, 0, 0, 0, 0, 0, 0, 0, 0, 0]);
    }
    c
}

/// The dominant seventh sharp five chord: R-3-♯5-♭7.
pub fn dominant_seventh_sharp_five() -> (r: Chord)
    ensures
        r.slots() == seq![1u8, 0, 1, 0, 4, 0, 2, 0, 0, 0, 0, 0, 0, 0, 0, 0],
        r.wf(),
{
    let c = ChordBuilder::with_root().set_degree(third()).set_degree(sharp_fifth()).set_degree(flat_seventh()).build();
    proof {
        assert(c.slots() =~= seq![1u8, 0, 1, 0, 4, 0, 2, 0, 0, 0, 0, 0, 0, 0, 0, 0]);
    }
    c
}

} // verus!
