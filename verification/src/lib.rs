//! Fixed-capacity, bit-packed containers for musical encodings.
//!
//! The core of the library is a small family of value types backed by a
//! single machine integer: a vector of sixteen boolean flags ([`BitVec16`]),
//! a vector of sixteen 4-bit fields ([`U4Vec16`]), and a pair of 4-bit
//! fields packed into one byte ([`U4x2`]). On top of these sit two musical
//! encodings: a [`Scale`] is a bit mask of semitone intervals, and a
//! [`Chord`] is a slot vector of accidental codes, one per scale degree.
//!
//! Every container is an immutable value: the "mutating" operations and the
//! builders return new values, so a container can be shared freely. Each
//! operation carries a contract that pins the result down to the bit, and
//! the round-trip, isolation and ordering laws of the encodings are stated
//! and proved alongside the code.

pub mod accidental;
pub mod bitvec16;
pub mod u4vec16;
pub mod text;
pub mod chord;
pub mod degree;
pub mod degreex;
pub mod interval;
pub mod scale;
pub mod step;
pub mod u4x2;

pub use accidental::Accidental;
pub use bitvec16::BitVec16;
pub use bitvec16::BitVec16Builder;
pub use bitvec16::BitVec16Iter;
pub use u4vec16::U4Vec16;
pub use u4vec16::U4Vec16Builder;
pub use u4vec16::U4Vec16Iter;
pub use chord::Chord;
pub use chord::ChordBuilder;
pub use chord::major_triad;
pub use chord::minor_triad;
pub use chord::diminished_triad;
pub use chord::augmented_triad;
pub use chord::major_seventh_chord;
pub use chord::minor_seventh_chord;
pub use chord::dominant_seventh;
pub use chord::half_diminished_seventh;
pub use chord::diminished_seventh;
pub use chord::augmented_seventh;
pub use chord::minor_major_seventh;
pub use chord::sixth_chord;
pub use chord::sixth_minor_chord;
pub use chord::sixth_ninth_chord;
pub use chord::fifth_chord;
pub use chord::dominant_ninth;
pub use chord::minor_ninth;
pub use chord::major_ninth;
pub use chord::eleventh_chord;
pub use chord::minor_eleventh;
pub use chord::thirteenth_chord;
pub use chord::minor_thirteenth;
pub use chord::major_thirteenth;
pub use chord::major_eleventh;
pub use chord::suspended_second;
pub use chord::suspended_fourth;
pub use chord::added_second;
pub use chord::added_ninth;
pub use chord::added_eleventh;
pub use chord::dominant_seventh_flat_five;
pub use chord::dominant_seventh_sharp_five;
pub use degree::Degree;
pub use degreex::Degreex;
pub use degree::DegreeAccidental;
pub use degree::root;
pub use degree::second;
pub use degree::third;
pub use degree::flat_third;
pub use degree::fourth;
pub use degree::fifth;
pub use degree::flat_fifth;
pub use degree::sharp_fifth;
pub use degree::sixth;
pub use degree::seventh;
pub use degree::flat_seventh;
pub use degree::doubleflat_seventh;
pub use degree::ninth;
pub use degree::eleventh;
pub use degree::thirteenth;
pub use interval::Interval;
pub use interval::unison;
pub use interval::minor_second;
pub use interval::major_second;
pub use interval::minor_third;
pub use interval::major_third;
pub use interval::perfect_fourth;
pub use interval::augmented_fourth;
pub use interval::diminished_fifth;
pub use interval::perfect_fifth;
pub use interval::minor_sixth;
pub use interval::major_sixth;
pub use interval::minor_seventh;
pub use interval::major_seventh;
pub use interval::octave;
pub use scale::Scale;
pub use scale::ScaleBuilder;
pub use scale::ScaleStepBuilder;
pub use scale::major;
pub use scale::natural_minor;
pub use scale::harmonic_minor;
pub use scale::melodic_minor;
pub use scale::pentatonic_major;
pub use scale::pentatonic_minor;
pub use scale::blues_major;
pub use scale::blues_minor;
pub use scale::jazz_whole_tone;
pub use scale::jazz_wholehalf_diminished;
pub use scale::bibop_major;
pub use scale::bibop_minor;
pub use scale::bibop_dominant;
pub use step::Step;
pub use step::half;
pub use step::whole;
pub use step::whole_half;
pub use u4x2::U4x2;
