//! Musical accidentals and their compact numeric codes.
//!
//! An accidental modifies the pitch of a note. Each variant has a fixed
//! code in `0..16`, so an accidental fits in one 4-bit field: natural 0,
//! flat 2, double flat 3, sharp 8, double sharp 9, and the explicit
//! reset sign 15. Decoding an arbitrary code is fallible and returns
//! nothing for the codes in between.

use vstd::prelude::*;

verus! {

/// A pitch modifier for a note.
#[derive(Debug, Clone, Copy, PartialEq, Eq, Hash, Structural)]
pub enum Accidental {
    /// No pitch modification.
    Natural,
    /// Explicitly cancels earlier accidentals in the same measure.
    Reset,
    /// Lowers the pitch by one semitone.
    Flat,
    /// Lowers the pitch by two semitones.
    DoubleFlat,
    /// Raises the pitch by one semitone.
    Sharp,
    /// Raises the pitch by two semitones.
    DoubleSharp,
}

/// The numeric code of an accidental.
pub open spec fn accidental_code(a: Accidental) -> u8 {
    match a {
        Accidental::Natural => 0,
        Accidental::Reset => 15,
        Accidental::Flat => 2,
        Accidental::DoubleFlat => 3,
        Accidental::Sharp => 8,
        Accidental::DoubleSharp => 9,
    }
}

/// The accidental a numeric code denotes, or nothing for an invalid code.
pub open spec fn accidental_of_code(value: u8) -> Option<Accidental> {
    if value == 0 {
        Some(Accidental::Natural)
    } else if value == 2 {
        Some(Accidental::Flat)
    } else if value == 3 {
        Some(Accidental::DoubleFlat)
    } else if value == 8 {
        Some(Accidental::Sharp)
    } else if value == 9 {
        Some(Accidental::DoubleSharp)
    } else if value == 15 {
        Some(Accidental::Reset)
    } else {
        None
    }
}

/// The display symbol of an accidental; the natural accidental shows
/// nothing.
pub open spec fn accidental_symbol(a: Accidental) -> Seq<char> {
    match a {
        Accidental::Natural => Seq::empty(),
        Accidental::Reset => seq!['♮'],
        Accidental::Flat => seq!['♭'],
        Accidental::DoubleFlat => seq!['♭', '♭'],
        Accidental::Sharp => seq!['♯'],
        Accidental::DoubleSharp => seq!['♯', '♯'],
    }
}

impl Accidental {
    /// The numeric code of this accidental, as stored in a 4-bit field.
    pub fn code(&self) -> (r: u8)
        ensures
            r == accidental_code(*self),
    {
        match *self {
            Accidental::Natural => 0,
            Accidental::Reset => 15,
            Accidental::Flat => 2,
            Accidental::DoubleFlat => 3,
            Accidental::Sharp => 8,
            Accidental::DoubleSharp => 9,
        }
    }

    /// Decodes a numeric code, returning nothing for a code that names
    /// no accidental. The valid codes are 0, 2, 3, 8, 9 and 15.
    pub fn try_from_code(value: u8) -> (r: Option<Accidental>)
        ensures
            r == accidental_of_code(value),
    {
        match value {
            0 => Some(Accidental::Natural),
            2 => Some(Accidental::Flat),
            3 => Some(Accidental::DoubleFlat),
            8 => Some(Accidental::Sharp),
            9 => Some(Accidental::DoubleSharp),
            15 => Some(Accidental::Reset),
            _ => None,
        }
    }

    /// The display symbol: nothing for natural, `♮` for reset, `♭` and
    /// `♭♭` for the flats, `♯` and `♯♯` for the sharps.
    pub fn symbol(&self) -> (r: String)
        ensures
            r@ == accidental_symbol(*self),
    {
        proof {
            reveal_strlit("");
            reveal_strlit("♮");
            reveal_strlit("♭");
            reveal_strlit("♭♭");
            reveal_strlit("♯");
            reveal_strlit("♯♯");
        }
        let r = match *self {
            Accidental::Natural => String::from_str(""),
            Accidental::Reset => String::from_str("♮"),
            Accidental::Flat => String::from_str("♭"),
            Accidental::DoubleFlat => String::from_str("♭♭"),
            Accidental::Sharp => String::from_str("♯"),
            Accidental::DoubleSharp => String::from_str("♯♯"),
        };
        proof {
            assert(r@ =~= accidental_symbol(*self));
        }
        r
    }
}

/// Decoding is the inverse of encoding: every accidental comes back from
/// its own code.
pub proof fn lemma_accidental_code_roundtrip(a: Accidental)
    ensures
        accidental_of_code(accidental_code(a)) == Some(a),
{
}

} // verus!
