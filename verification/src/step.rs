//! Step intervals: the semitone gap between two consecutive notes.
//!
//! A step is a thin wrapper around a semitone count. The common steps
//! have short display names — `H` for the half step, `W` for the whole
//! step, `WH` for the whole-half step — and any other count shows as
//! `S` followed by the count in decimal.

use crate::text::decimal_digits;
use crate::text::decimal_string;
use vstd::prelude::*;

verus! {

/// A step interval, measured in semitones.
#[derive(Debug, Clone, Copy, PartialEq, Eq, Hash, Structural)]
pub struct Step(u8);

/// The display form of a step: `H`, `W` and `WH` for one, two and three
/// semitones, and `S` followed by the count in decimal otherwise.
pub open spec fn step_display(s: Step) -> Seq<char> {
    if s.semitones() == 1 {
        seq!['H']
    } else if s.semitones() == 2 {
        seq!['W']
    } else if s.semitones() == 3 {
        seq!['W', 'H']
    } else {
        seq!['S'] + decimal_digits(s.semitones() as int)
    }
}

impl Step {
    /// The semitone count this step stands for.
    pub closed spec fn semitones(&self) -> u8 {
        self.0
    }

    /// The step of a given semitone count.
    pub closed spec fn spec_new(value: u8) -> Step {
        Step(value)
    }

    /// The underlying semitone count.
    pub fn inner(&self) -> (r: u8)
        ensures
            r == self.semitones(),
    {
        self.0
    }

    /// Renders the step's display form.
    pub fn display_string(&self) -> (r: String)
        ensures
            r@ == step_display(*self),
    {
        proof {
            reveal_strlit("H");
            reveal_strlit("W");
            reveal_strlit("WH");
            reveal_strlit("S");
        }
        if self.0 == 1 {
            let r = String::from_str("H");
            proof {
                assert(r@ =~= step_display(*self));
            }
            r
        } else if self.0 == 2 {
            let r = String::from_str("W");
            proof {
                assert(r@ =~= step_display(*self));
            }
            r
        } else if self.0 == 3 {
            let r = String::from_str("WH");
            proof {
                assert(r@ =~= step_display(*self));
            }
            r
        } else {
            let mut r = String::from_str("S");
            r.append(decimal_string(self.0).as_str());
            proof {
                assert(r@ =~= step_display(*self));
            }
            r
        }
    }
}

impl From<u8> for Step {
    /// Wraps a semitone count as a step; every count is valid.
    fn from(value: u8) -> (r: Step) {
        Step(value)
    }
}

impl vstd::std_specs::convert::FromSpecImpl<u8> for Step {
    open spec fn obeys_from_spec() -> bool {
        true
    }

    open spec fn from_spec(value: u8) -> Step {
        Step::spec_new(value)
    }
}

/// The half step: one semitone.
pub fn half() -> (r: Step)
    ensures
        r.semitones() == 1,
{
    Step(1)
}

/// The whole step: two semitones.
pub fn whole() -> (r: Step)
    ensures
        r.semitones() == 2,
{
    Step(2)
}

/// The whole-half step: three semitones, as found in the harmonic minor
/// scale.
pub fn whole_half() -> (r: Step)
    ensures
        r.semitones() == 3,
{
    Step(3)
}

} // verus!
