//! Chord degrees and the accidentals that modify them.
//!
//! A degree names a position within a chord — the root, the third, the
//! fifth — together with an accidental. Degree accidentals carry the
//! codes stored in a chord's 4-bit slots: natural 1, flat 2, double
//! flat 3, sharp 4. Code 0 is reserved for an absent degree and names
//! no accidental.

use crate::text::decimal_digits;
use crate::text::decimal_string;
use vstd::prelude::*;

verus! {

/// The accidental modification of one chord degree.
#[derive(Debug, Clone, Copy, PartialEq, Eq, Hash, Structural)]
pub enum DegreeAccidental {
    /// No pitch modification.
    Natural,
    /// Lowers the pitch by one semitone.
    Flat,
    /// Lowers the pitch by two semitones.
    DoubleFlat,
    /// Raises the pitch by one semitone.
    Sharp,
}

/// The slot code of a degree accidental, always in `1..5`.
pub open spec fn degree_accidental_code(a: DegreeAccidental) -> u8 {
    match a {
        DegreeAccidental::Natural => 1,
        DegreeAccidental::Flat => 2,
        DegreeAccidental::DoubleFlat => 3,
        DegreeAccidental::Sharp => 4,
    }
}

/// The degree accidental a slot code denotes, or nothing for any code
/// outside `1..5`.
pub open spec fn degree_accidental_of_code(value: u8) -> Option<DegreeAccidental> {
    if value == 1 {
        Some(DegreeAccidental::Natural)
    } else if value == 2 {
        Some(DegreeAccidental::Flat)
    } else if value == 3 {
        Some(DegreeAccidental::DoubleFlat)
    } else if value == 4 {
        Some(DegreeAccidental::Sharp)
    } else {
        None
    }
}

/// The display symbol of a degree accidental; natural shows nothing.
pub open spec fn degree_accidental_symbol(a: DegreeAccidental) -> Seq<char> {
    match a {
        DegreeAccidental::Natural => Seq::empty(),
        DegreeAccidental::Flat => seq!['♭'],
        DegreeAccidental::DoubleFlat => seq!['♭', '♭'],
        DegreeAccidental::Sharp => seq!['♯'],
    }
}

impl DegreeAccidental {
    /// The slot code of this accidental, as stored in a chord's 4-bit
    /// field.
    pub fn code(&self) -> (r: u8)
        ensures
            r == degree_accidental_code(*self),
    {
        match *self {
            DegreeAccidental::Natural => 1,
            DegreeAccidental::Flat => 2,
            DegreeAccidental::DoubleFlat => 3,
            DegreeAccidental::Sharp => 4,
        }
    }

    /// Decodes a slot code, returning nothing for a code that names no
    /// accidental. The valid codes are 1 through 4.
    pub fn try_from_code(value: u8) -> (r: Option<DegreeAccidental>)
        ensures
            r == degree_accidental_of_code(value),
    {
        match value {
            1 => Some(DegreeAccidental::Natural),
            2 => Some(DegreeAccidental::Flat),
            3 => Some(DegreeAccidental::DoubleFlat),
            4 => Some(DegreeAccidental::Sharp),
            _ => None,
        }
    }

    /// Decodes a slot code already known to be valid.
    pub fn from_code(value: u8) -> (r: DegreeAccidental)
        requires
            1 <= value <= 4,
        ensures
            Some(r) == degree_accidental_of_code(value),
    {
        match value {
            1 => DegreeAccidental::Natural,
            2 => DegreeAccidental::Flat,
            3 => DegreeAccidental::DoubleFlat,
            _ => DegreeAccidental::Sharp,
        }
    }

    /// The display symbol: nothing for natural, `♭` or `♭♭` for the
    /// flats, `♯` for sharp.
    pub fn symbol(&self) -> (r: String)
        ensures
            r@ == degree_accidental_symbol(*self),
    {
        proof {
            reveal_strlit("");
            reveal_strlit("♭");
            reveal_strlit("♭♭");
            reveal_strlit("♯");
        }
        let r = match *self {
            DegreeAccidental::Natural => String::from_str(""),
            DegreeAccidental::Flat => String::from_str("♭"),
            DegreeAccidental::DoubleFlat => String::from_str("♭♭"),
            DegreeAccidental::Sharp => String::from_str("♯"),
        };
        proof {
            assert(r@ =~= degree_accidental_symbol(*self));
        }
        r
    }
}

/// Decoding is the inverse of encoding: every degree accidental comes
/// back from its own slot code.
pub proof fn lemma_degree_accidental_code_roundtrip(a: DegreeAccidental)
    ensures
        degree_accidental_of_code(degree_accidental_code(a)) == Some(a),
{
}

/// One chord degree: a degree number in `1..17` and its accidental.
#[derive(Debug, Clone, Copy, PartialEq, Eq, Hash, Structural)]
pub struct Degree {
    /// The degree number, 1 for the root through 16.
    degree: u8,
    /// The accidental modification of this degree.
    accidental: DegreeAccidental,
}

/// The display form of a degree: `R` for the root, otherwise the
/// accidental's symbol followed by the degree number in decimal.
pub open spec fn degree_display(d: Degree) -> Seq<char> {
    if d.spec_degree() == 1 {
        seq!['R']
    } else {
        degree_accidental_symbol(d.spec_accidental()) + decimal_digits(d.spec_degree() as int)
    }
}

impl Degree {
    /// The degree number.
    pub closed spec fn spec_degree(&self) -> u8 {
        self.degree
    }

    /// The accidental modification.
    pub closed spec fn spec_accidental(&self) -> DegreeAccidental {
        self.accidental
    }

    /// A well-formed degree has its number in `1..17`, so that it names
    /// one of a chord's sixteen slots.
    pub open spec fn wf(&self) -> bool {
        1 <= self.spec_degree() <= 16
    }

    /// The degree of a given number and accidental.
    pub closed spec fn spec_new(degree: u8, accidental: DegreeAccidental) -> Degree {
        Degree { degree, accidental }
    }

    /// Builds a degree. The number must lie in `1..17`.
    pub fn new(degree: u8, accidental: DegreeAccidental) -> (r: Degree)
        requires
            1 <= degree <= 16,
        ensures
            r == Degree::spec_new(degree, accidental),
            r.spec_degree() == degree,
            r.spec_accidental() == accidental,
            r.wf(),
    {
        Degree { degree, accidental }
    }

    /// The degree number.
    pub fn degree(&self) -> (r: u8)
        ensures
            r == self.spec_degree(),
    {
        self.degree
    }

    /// The accidental modification.
    pub fn accidental(&self) -> (r: DegreeAccidental)
        ensures
            r == self.spec_accidental(),
    {
        self.accidental
    }

    /// Renders the degree's display form: `R` for the root, otherwise
    /// the accidental's symbol followed by the degree number.
    pub fn display_string(&self) -> (r: String)
        ensures
            r@ == degree_display(*self),
    {
        if self.degree == 1 {
            proof {
                reveal_strlit("R");
            }
            let r = String::from_str("R");
            proof {
                assert(r@ =~= degree_display(*self));
            }
            r
        } else {
            let mut r = self.accidental.symbol();
            r.append(decimal_string(self.degree).as_str());
            proof {
                assert(r@ =~= degree_display(*self));
            }
            r
        }
    }
}

/// A constructed degree reads back its number and accidental.
pub broadcast proof fn lemma_spec_new_degree(degree: u8, accidental: DegreeAccidental)
    ensures
        (#[trigger] Degree::spec_new(degree, accidental)).spec_degree() == degree,
        Degree::spec_new(degree, accidental).spec_accidental() == accidental,
{
}

/// The root: degree 1, natural.
pub fn root() -> (r: Degree)
    ensures
        r == Degree::spec_new(1, DegreeAccidental::Natural),
        r.spec_degree() == 1,
        r.spec_accidental() == DegreeAccidental::Natural,
        r.wf(),
{
    Degree::new(1, DegreeAccidental::Natural)
}

/// The second degree, natural.
pub fn second() -> (r: Degree)
    ensures
        r == Degree::spec_new(2, DegreeAccidental::Natural),
        r.spec_degree() == 2,
        r.spec_accidental() == DegreeAccidental::Natural,
        r.wf(),
{
    Degree::new(2, DegreeAccidental::Natural)
}

/// The third degree, natural: the major third.
pub fn third() -> (r: Degree)
    ensures
        r == Degree::spec_new(3, DegreeAccidental::Natural),
        r.spec_degree() == 3,
        r.spec_accidental() == DegreeAccidental::Natural,
        r.wf(),
{
    Degree::new(3, DegreeAccidental::Natural)
}

/// The third degree, flattened: the minor third.
pub fn flat_third() -> (r: Degree)
    ensures
        r == Degree::spec_new(3, DegreeAccidental::Flat),
        r.spec_degree() == 3,
        r.spec_accidental() == DegreeAccidental::Flat,
        r.wf(),
{
    Degree::new(3, DegreeAccidental::Flat)
}

/// The fourth degree, natural.
pub fn fourth() -> (r: Degree)
    ensures
        r == Degree::spec_new(4, DegreeAccidental::Natural),
        r.spec_degree() == 4,
        r.spec_accidental() == DegreeAccidental::Natural,
        r.wf(),
{
    Degree::new(4, DegreeAccidental::Natural)
}

/// The fifth degree, natural: the perfect fifth.
pub fn fifth() -> (r: Degree)
    ensures
        r == Degree::spec_new(5, DegreeAccidental::Natural),
        r.spec_degree() == 5,
        r.spec_accidental() == DegreeAccidental::Natural,
        r.wf(),
{
    Degree::new(5, DegreeAccidental::Natural)
}

/// The fifth degree, flattened: the diminished fifth.
pub fn flat_fifth() -> (r: Degree)
    ensures
        r == Degree::spec_new(5, DegreeAccidental::Flat),
        r.spec_degree() == 5,
        r.spec_accidental() == DegreeAccidental::Flat,
        r.wf(),
{
    Degree::new(5, DegreeAccidental::Flat)
}

/// The fifth degree, sharpened: the augmented fifth.
pub fn sharp_fifth() -> (r: Degree)
    ensures
        r == Degree::spec_new(5, DegreeAccidental::Sharp),
        r.spec_degree() == 5,
        r.spec_accidental() == DegreeAccidental::Sharp,
        r.wf(),
{
    Degree::new(5, DegreeAccidental::Sharp)
}

/// The sixth degree, natural.
pub fn sixth() -> (r: Degree)
    ensures
        r == Degree::spec_new(6, DegreeAccidental::Natural),
        r.spec_degree() == 6,
        r.spec_accidental() == DegreeAccidental::Natural,
        r.wf(),
{
    Degree::new(6, DegreeAccidental::Natural)
}

/// The seventh degree, natural: the major seventh.
pub fn seventh() -> (r: Degree)
    ensures
        r == Degree::spec_new(7, DegreeAccidental::Natural),
        r.spec_degree() == 7,
        r.spec_accidental() == DegreeAccidental::Natural,
        r.wf(),
{
    Degree::new(7, DegreeAccidental::Natural)
}

/// The seventh degree, flattened: the minor seventh.
pub fn flat_seventh() -> (r: Degree)
    ensures
        r == Degree::spec_new(7, DegreeAccidental::Flat),
        r.spec_degree() == 7,
        r.spec_accidental() == DegreeAccidental::Flat,
        r.wf(),
{
    Degree::new(7, DegreeAccidental::Flat)
}

/// The seventh degree, doubly flattened: the diminished seventh.
pub fn doubleflat_seventh() -> (r: Degree)
    ensures
        r == Degree::spec_new(7, DegreeAccidental::DoubleFlat),
        r.spec_degree() == 7,
        r.spec_accidental() == DegreeAccidental::DoubleFlat,
        r.wf(),
{
    Degree::new(7, DegreeAccidental::DoubleFlat)
}

/// The ninth degree, natural.
pub fn ninth() -> (r: Degree)
    ensures
        r == Degree::spec_new(9, DegreeAccidental::Natural),
        r.spec_degree() == 9,
        r.spec_accidental() == DegreeAccidental::Natural,
        r.wf(),
{
    Degree::new(9, DegreeAccidental::Natural)
}

/// The eleventh degree, natural.
pub fn eleventh() -> (r: Degree)
    ensures
        r == Degree::spec_new(11, DegreeAccidental::Natural),
        r.spec_degree() == 11,
        r.spec_accidental() == DegreeAccidental::Natural,
        r.wf(),
{
    Degree::new(11, DegreeAccidental::Natural)
}

/// The thirteenth degree, natural.
pub fn thirteenth() -> (r: Degree)
    ensures
        r == Degree::spec_new(13, DegreeAccidental::Natural),
        r.spec_degree() == 13,
        r.spec_accidental() == DegreeAccidental::Natural,
        r.wf(),
{
    Degree::new(13, DegreeAccidental::Natural)
}

} // verus!
