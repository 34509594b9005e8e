//! Concrete checks of the library's stated laws: round trips, field
//! isolation, last-write-wins, builder equivalence, and the documented
//! scenarios.

use muzze::BitVec16;
use muzze::BitVec16Builder;
use muzze::ChordBuilder;
use muzze::U4Vec16;
use muzze::U4x2;
use muzze::fifth;
use muzze::major;
use muzze::natural_minor;
use muzze::root;
use muzze::third;

#[test]
fn test_roundtrip_u16_word() {
    // Round trip: every bit of the raw word survives construction.
    let v: u16 = 0xA5C3;
    assert_eq!(BitVec16::from_u16(v).inner(), v);
}

#[test]
fn test_roundtrip_u64_word() {
    // Round trip: every bit of the raw word survives construction.
    let v: u64 = 0xDEAD_BEEF_0123_4567;
    assert_eq!(U4Vec16::from_u64(v).inner(), v);
}

#[test]
fn test_field_isolation_distinct_indices() {
    // Field isolation: writing slot 3 leaves slot 11 untouched, and so
    // on for every other pair.
    let c = U4Vec16::from_u64(0x1234_5678_90AB_CDEF);
    let written = c.set_item(3, 0x2);
    for j in 0..16 {
        if j != 3 {
            assert_eq!(written.item(j), c.item(j));
        }
    }
}

#[test]
fn test_overwrite_keeps_low_nibble_of_second_value() {
    // Idempotent overwrite: set(i, x) then set(i, y) reads back y & 0xF.
    let c = U4Vec16::from_u64(0);
    assert_eq!(c.set_item(6, 0x3).set_item(6, 0xAB).item(6), 0xAB & 0xF);
}

#[test]
fn test_builder_equals_direct_bit_arithmetic() {
    // Builder/direct equivalence for the flag vector: the builder's
    // raw word is the or of the single-bit masks.
    let built = BitVec16Builder::default().set_index(2).set_index(9).build();
    assert_eq!(built.inner(), (1u16 << 2) | (1u16 << 9));

    // And for the field vector: builder and direct writes agree.
    let by_builder = muzze::U4Vec16Builder::new().set_item(4, 7).set_item(11, 3).build();
    let direct = U4Vec16::from_u64(0).set_item(4, 7).set_item(11, 3);
    assert_eq!(by_builder.inner(), direct.inner());
}

#[test]
fn test_major_scale_from_root_sixty() {
    // Scenario: the major scale applied to root 60.
    assert_eq!(major().apply(60), vec![60, 62, 64, 65, 67, 69, 71, 72]);
}

#[test]
fn test_natural_minor_scale_from_root_sixty() {
    // Scenario: the natural minor scale applied to root 60.
    assert_eq!(natural_minor().apply(60), vec![60, 62, 63, 65, 67, 68, 70, 72]);
}

#[test]
fn test_triad_scenario_degrees() {
    // Scenario: a chord built from the root with natural third and
    // fifth yields exactly those three degrees.
    let chord = ChordBuilder::with_root().set_degree(third()).set_degree(fifth()).build();
    let degrees = chord.degrees();
    assert_eq!(degrees, vec![root(), third(), fifth()]);
}

#[test]
fn test_pack_scenario_raw_byte() {
    // Scenario: pack(10, 5) reads back its operands and packs to 0x5A.
    let packed = U4x2::new(10, 5);
    assert_eq!(packed.first(), 10);
    assert_eq!(packed.second(), 5);
    assert_eq!(packed.inner(), 0x5A);
}

#[test]
fn test_field_vector_scenario_extremes() {
    // Scenario: writing the lowest and highest fields of an empty
    // vector leaves the middle empty.
    let vec = U4Vec16::from_u64(0).set_item(0, 15).set_item(15, 15);
    assert_eq!(vec.item(0), 15);
    assert_eq!(vec.item(15), 15);
    assert_eq!(vec.item(7), 0);
}
