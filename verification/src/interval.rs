//! Musical intervals: semitone offsets from a root note.
//!
//! An interval is a thin wrapper around a semitone count. The intervals
//! up to the octave carry their conventional names in display form
//! (`P1`, `m2`, `M3`, `P5`, `P8`, and so on); any larger count shows as
//! `I` followed by the count in decimal.

use crate::step::Step;
use crate::text::decimal_digits;
use crate::text::decimal_string;
use vstd::prelude::*;

verus! {

/// An interval, measured in semitones from the root.
#[derive(Debug, Clone, Copy, PartialEq, Eq, Hash, Structural)]
pub struct Interval(u8);

/// The display form of an interval: the conventional name up to the
/// octave, and `I` followed by the semitone count in decimal beyond it.
pub open spec fn interval_display(iv: Interval) -> Seq<char> {
    let n = iv.semitones();
    if n == 0 {
        seq!['P', '1']
    } else if n == 1 {
        seq!['m', '2']
    } else if n == 2 {
        seq!['M', '2']
    } else if n == 3 {
        seq!['m', '3']
    } else if n == 4 {
        seq!['M', '3']
    } else if n == 5 {
        seq!['P', '4']
    } else if n == 6 {
        seq!['d', '5']
    } else if n == 7 {
        seq!['P', '5']
    } else if n == 8 {
        seq!['m', '6']
    } else if n == 9 {
        seq!['M', '6']
    } else if n == 10 {
        seq!['m', '7']
    } else if n == 11 {
        seq!['M', '7']
    } else if n == 12 {
        seq!['P', '8']
    } else {
        seq!['I'] + decimal_digits(n as int)
    }
}

impl Interval {
    /// The semitone count this interval stands for.
    pub closed spec fn semitones(&self) -> u8 {
        self.0
    }

    /// The interval of a given semitone count.
    pub closed spec fn spec_new(value: u8) -> Interval {
        Interval(value)
    }

    /// The underlying semitone count.
    pub fn inner(&self) -> (r: u8)
        ensures
            r == self.semitones(),
    {
        self.0
    }

    /// Widens the interval by a step. The sum must stay within a byte.
    pub fn add_step(self, step: Step) -> (r: Interval)
        requires
            self.semitones() + step.semitones() <= 255,
        ensures
            r.semitones() == self.semitones() + step.semitones(),
    {
        Interval(self.0 + step.inner())
    }

    /// Renders the interval's display form.
    pub fn display_string(&self) -> (r: String)
        ensures
            r@ == interval_display(*self),
    {
        proof {
            reveal_strlit("P1");
            reveal_strlit("m2");
            reveal_strlit("M2");
            reveal_strlit("m3");
            reveal_strlit("M3");
            reveal_strlit("P4");
            reveal_strlit("d5");
            reveal_strlit("P5");
            reveal_strlit("m6");
            reveal_strlit("M6");
            reveal_strlit("m7");
            reveal_strlit("M7");
            reveal_strlit("P8");
            reveal_strlit("I");
        }
        if self.0 <= 12 {
            let name = match self.0 {
                0 => "P1",
                1 => "m2",
                2 => "M2",
                3 => "m3",
                4 => "M3",
                5 => "P4",
                6 => "d5",
                7 => "P5",
                8 => "m6",
                9 => "M6",
                10 => "m7",
                11 => "M7",
                _ => "P8",
            };
            let r = String::from_str(name);
            proof {
                assert(r@ =~= interval_display(*self));
            }
            r
        } else {
            let mut r = String::from_str("I");
            r.append(decimal_string(self.0).as_str());
            proof {
                assert(r@ =~= interval_display(*self));
            }
            r
        }
    }
}

impl From<u8> for Interval {
    /// Wraps a semitone count as an interval; every count is valid.
    fn from(value: u8) -> (r: Interval) {
        Interval(value)
    }
}

impl vstd::std_specs::convert::FromSpecImpl<u8> for Interval {
    open spec fn obeys_from_spec() -> bool {
        true
    }

    open spec fn from_spec(value: u8) -> Interval {
        Interval::spec_new(value)
    }
}

/// The unison: zero semitones.
pub fn unison() -> (r: Interval)
    ensures
        r.semitones() == 0,
{
    Interval(0)
}

/// The minor second: one semitone.
pub fn minor_second() -> (r: Interval)
    ensures
        r.semitones() == 1,
{
    Interval(1)
}

/// The major second: two semitones.
pub fn major_second() -> (r: Interval)
    ensures
        r.semitones() == 2,
{
    Interval(2)
}

/// The minor third: three semitones.
pub fn minor_third() -> (r: Interval)
    ensures
        r.semitones() == 3,
{
    Interval(3)
}

/// The major third: four semitones.
pub fn major_third() -> (r: Interval)
    ensures
        r.semitones() == 4,
{
    Interval(4)
}

/// The perfect fourth: five semitones.
pub fn perfect_fourth() -> (r: Interval)
    ensures
        r.semitones() == 5,
{
    Interval(5)
}

/// The augmented fourth: six semitones, the tritone.
pub fn augmented_fourth() -> (r: Interval)
    ensures
        r.semitones() == 6,
{
    Interval(6)
}

/// The diminished fifth: six semitones, the same pitch distance as the
/// augmented fourth.
pub fn diminished_fifth() -> (r: Interval)
    ensures
        r.semitones() == 6,
{
    Interval(6)
}

/// The perfect fifth: seven semitones.
pub fn perfect_fifth() -> (r: Interval)
    ensures
        r.semitones() == 7,
{
    Interval(7)
}

/// The minor sixth: eight semitones.
pub fn minor_sixth() -> (r: Interval)
    ensures
        r.semitones() == 8,
{
    Interval(8)
}

/// The major sixth: nine semitones.
pub fn major_sixth() -> (r: Interval)
    ensures
        r.semitones() == 9,
{
    Interval(9)
}

/// The minor seventh: ten semitones.
pub fn minor_seventh() -> (r: Interval)
    ensures
        r.semitones() == 10,
{
    Interval(10)
}

/// The major seventh: eleven semitones.
pub fn major_seventh() -> (r: Interval)
    ensures
        r.semitones() == 11,
{
    Interval(11)
}

/// The octave: twelve semitones.
pub fn octave() -> (r: Interval)
    ensures
        r.semitones() == 12,
{
    Interval(12)
}

} // verus!
