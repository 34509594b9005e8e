use muzze::Scale;
use muzze::ScaleBuilder;
use muzze::ScaleStepBuilder;
use muzze::bibop_dominant;
use muzze::bibop_major;
use muzze::bibop_minor;
use muzze::blues_major;
use muzze::blues_minor;
use muzze::harmonic_minor;
use muzze::jazz_whole_tone;
use muzze::jazz_wholehalf_diminished;
use muzze::major;
use muzze::melodic_minor;
use muzze::natural_minor;
use muzze::pentatonic_major;
use muzze::pentatonic_minor;

const C: u8 = 60;
const D: u8 = 62;
const EF: u8 = 63;
const E: u8 = 64;
const F: u8 = 65;
const FS: u8 = 66;
const GF: u8 = 66;
const G: u8 = 67;
const GS: u8 = 68;
const AF: u8 = 68;
const A: u8 = 69;
const AS: u8 = 70;
const BF: u8 = 70;
const B: u8 = 71;
const C1: u8 = 72;

/// Tests that the major scale produces the correct intervals and step pattern
#[test]
fn test_major_scale() {
    assert_eq!(major().intervals(), vec![2, 4, 5, 7, 9, 11, 12]);
    assert_eq!(major().steps(), vec![2, 2, 1, 2, 2, 2, 1]);

    assert_eq!(major().apply(C), vec![C, D, E, F, G, A, B, C1]);
}

/// Tests that the natural minor scale produces the correct intervals and step pattern
#[test]
fn test_natural_minor_scale() {
    assert_eq!(natural_minor().intervals(), vec![2, 3, 5, 7, 8, 10, 12]);
    assert_eq!(natural_minor().steps(), vec![2, 1, 2, 2, 1, 2, 2]);

    assert_eq!(natural_minor().apply(C), vec![C, D, EF, F, G, AF, BF, C1]);
}

/// Tests that the harmonic minor scale produces the correct intervals and step pattern
#[test]
fn test_harmonic_minor_scale() {
    assert_eq!(harmonic_minor().intervals(), vec![2, 3, 5, 7, 8, 11, 12]);
    assert_eq!(harmonic_minor().steps(), vec![2, 1, 2, 2, 1, 3, 1]);

    assert_eq!(harmonic_minor().apply(C), vec![C, D, EF, F, G, AF, B, C1]);
}

/// Tests that the melodic minor scale produces the correct intervals and step pattern
#[test]
fn test_melodic_minor_scale() {
    assert_eq!(melodic_minor().intervals(), vec![2, 3, 5, 7, 9, 11, 12]);
    assert_eq!(melodic_minor().steps(), vec![2, 1, 2, 2, 2, 2, 1]);

    assert_eq!(melodic_minor().apply(C), vec![C, D, EF, F, G, A, B, C1]);
}

#[test]
fn test_pentatonic_major_scale() {
    assert_eq!(pentatonic_major().intervals(), vec![2, 4, 7, 9]);
    assert_eq!(pentatonic_major().steps(), vec![2, 2, 3, 2]);

    assert_eq!(pentatonic_major().apply(C), vec![C, D, E, G, A]);
}

#[test]
fn test_pentatonic_minor_scale() {
    assert_eq!(pentatonic_minor().intervals(), vec![3, 5, 7, 10]);
    assert_eq!(pentatonic_minor().steps(), vec![3, 2, 2, 3]);

    assert_eq!(pentatonic_minor().apply(C), vec![C, EF, F, G, BF]);
}

#[test]
fn test_blues_minor_scale() {
    assert_eq!(blues_minor().intervals(), vec![3, 5, 6, 7, 10, 12]);
    assert_eq!(blues_minor().steps(), vec![3, 2, 1, 1, 3, 2]);

    assert_eq!(blues_minor().apply(C), vec![C, EF, F, GF, G, BF, C1]);
}

#[test]
fn test_blues_major_scale() {
    assert_eq!(blues_major().intervals(), vec![2, 3, 4, 7, 9]);
    assert_eq!(blues_major().steps(), vec![2, 1, 1, 3, 2]);
    assert_eq!(blues_major().apply(C), vec![C, D, EF, E, G, A]);
}

#[test]
fn test_jazz_whole_tone_scale() {
    assert_eq!(jazz_whole_tone().intervals(), vec![2, 4, 6, 8, 10]);
    assert_eq!(jazz_whole_tone().steps(), vec![2, 2, 2, 2, 2]);
    assert_eq!(jazz_whole_tone().apply(C), vec![C, D, E, FS, GS, AS]);
}

#[test]
fn test_jazz_wholehalf_diminished_scale() {
    assert_eq!(
        jazz_wholehalf_diminished().intervals(),
        vec![2, 3, 5, 6, 8, 9, 11]
    );
    assert_eq!(jazz_wholehalf_diminished().steps(), vec![2, 1, 2, 1, 2, 1, 2]);
    assert_eq!(
        jazz_wholehalf_diminished().apply(C),
        vec![C, D, EF, F, GF, AF, A, B]
    );
}

#[test]
fn test_bibop_major_scale() {
    assert_eq!(bibop_major().intervals(), vec![2, 4, 5, 7, 8, 9, 11, 12]);
    assert_eq!(bibop_major().steps(), vec![2, 2, 1, 2, 1, 1, 2, 1]);
    assert_eq!(bibop_major().apply(C), vec![C, D, E, F, G, AF, A, B, C1]);
}

#[test]
fn test_bibop_minor_scale() {
    assert_eq!(bibop_minor().intervals(), vec![2, 3, 4, 5, 7, 9, 10, 12]);
    assert_eq!(bibop_minor().steps(), vec![2, 1, 1, 1, 2, 2, 1, 2]);
    assert_eq!(bibop_minor().apply(C), vec![C, D, EF, E, F, G, A, BF, C1]);
}

#[test]
fn test_bibop_dominant_scale() {
    assert_eq!(bibop_dominant().intervals(), vec![2, 4, 5, 7, 9, 10, 11, 12]);
    assert_eq!(bibop_dominant().steps(), vec![2, 2, 1, 2, 2, 1, 1, 1]);
    assert_eq!(bibop_dominant().apply(C), vec![C, D, E, F, G, A, BF, B, C1]);
}

/// Tests that the ScaleBuilder correctly constructs Scale instances
#[test]
fn test_scale_builder() {
    let scale = ScaleBuilder::default()
        .set_interval(2)
        .set_interval(4)
        .set_interval(5)
        .set_interval(7)
        .set_interval(9)
        .set_interval(11)
        .set_interval(12)
        .build();
    assert_eq!(scale.intervals(), vec![2, 4, 5, 7, 9, 11, 12]);
    assert_eq!(scale, major());
}

#[test]
fn test_scale_step_builder() {
    let scale = ScaleStepBuilder::default()
        .add_step(2)
        .add_step(2)
        .add_step(1)
        .add_step(2)
        .add_step(2)
        .add_step(2)
        .add_step(1)
        .build();

    assert_eq!(scale.intervals(), vec![2, 4, 5, 7, 9, 11, 12]);
    assert_eq!(scale, major());
}

#[test]
fn test_scale_from_raw_matches_catalog() {
    // A scale built from the documented raw mask is the named scale.
    assert_eq!(Scale::from_u16(0b0000_1101_0101_1010), major());
    assert_eq!(Scale::from_u16(0b0000_1010_1101_0110), natural_minor());
    assert_eq!(Scale::from_u16(0b0000_1100_1101_0110), harmonic_minor());
}

#[test]
fn test_empty_scale() {
    // The empty scale has no intervals, no steps, and applies to the
    // bare root.
    let empty = Scale::from_u16(0);
    assert_eq!(empty.intervals(), Vec::<u8>::new());
    assert_eq!(empty.steps(), Vec::<u8>::new());
    assert_eq!(empty.apply(C), vec![C]);
}

#[test]
fn test_full_scale_chromatic() {
    // All sixteen intervals present: the chromatic-and-beyond mask.
    let full = Scale::from_u16(0xFFFF);
    assert_eq!(
        full.intervals(),
        vec![1, 2, 3, 4, 5, 6, 7, 8, 9, 10, 11, 12, 13, 14, 15, 16]
    );
    assert_eq!(full.steps(), vec![1; 16]);
}

#[test]
fn test_step_builder_matches_interval_builder_harmonic_minor() {
    // Scale builder equivalence on a second scale: steps [2,1,2,2,1,3,1]
    // against intervals [2,3,5,7,8,11,12].
    let by_steps = ScaleStepBuilder::default()
        .add_step(2)
        .add_step(1)
        .add_step(2)
        .add_step(2)
        .add_step(1)
        .add_step(3)
        .add_step(1)
        .build();
    let by_intervals = ScaleBuilder::default()
        .set_interval(2)
        .set_interval(3)
        .set_interval(5)
        .set_interval(7)
        .set_interval(8)
        .set_interval(11)
        .set_interval(12)
        .build();
    assert_eq!(by_steps, by_intervals);
    assert_eq!(by_steps, harmonic_minor());
}
