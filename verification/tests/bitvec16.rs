use muzze::BitVec16;
use muzze::BitVec16Builder;

const VAL: u16 = 0b1000_0000_0000_1101;

fn collect_bits(bitvec: BitVec16) -> Vec<bool> {
    let mut iter = bitvec.iter_bits();
    let mut bits = Vec::new();
    while let Some(b) = iter.next() {
        bits.push(b);
    }
    bits
}

#[test]
fn bitvec16_test_inner() {
    let bitvec = BitVec16::from_u16(VAL);

    // Check the inner value
    assert_eq!(bitvec.inner(), VAL);
}

#[test]
fn bitvec16_test_index() {
    let bitvec = BitVec16::from_u16(VAL);

    // Check the bits are set correctly
    assert!(bitvec.bit(0));
    assert!(!bitvec.bit(1));
    assert!(bitvec.bit(2));
    assert!(bitvec.bit(3));
    assert!(!bitvec.bit(4));
    assert!(!bitvec.bit(5));
    assert!(!bitvec.bit(6));
    assert!(!bitvec.bit(7));
    assert!(!bitvec.bit(8));
    assert!(!bitvec.bit(9));
    assert!(!bitvec.bit(10));
    assert!(!bitvec.bit(11));
    assert!(!bitvec.bit(12));
    assert!(!bitvec.bit(13));
    assert!(!bitvec.bit(14));
    assert!(bitvec.bit(15));
}

#[test]
fn bitvec16_test_bit_at_index() {
    let bitvec = BitVec16::from_u16(VAL);

    assert!(bitvec.bit(0));
    assert!(!bitvec.bit(1));
    assert!(bitvec.bit(2));
    assert!(bitvec.bit(3));
    assert!(!bitvec.bit(4));
    assert!(!bitvec.bit(5));
    assert!(!bitvec.bit(6));
    assert!(!bitvec.bit(7));
    assert!(!bitvec.bit(8));
    assert!(!bitvec.bit(9));
    assert!(!bitvec.bit(10));
    assert!(!bitvec.bit(11));
    assert!(!bitvec.bit(12));
    assert!(!bitvec.bit(13));
    assert!(!bitvec.bit(14));
    assert!(bitvec.bit(15));
}

#[test]
fn bitvec16_test_iter_bits() {
    let bitvec = BitVec16::from_u16(VAL);

    let bits: Vec<bool> = collect_bits(bitvec);
    let expected = vec![
        true, false, true, true, false, false, false, false, false, false, false, false, false,
        false, false, true,
    ];
    assert_eq!(bits, expected);
}

#[test]
fn bitvec16_test_iter_bits_size() {
    let bitvec = BitVec16::from_u16(0);
    let iter = bitvec.iter_bits();
    assert_eq!(iter.len(), 16);

    let bits: Vec<bool> = collect_bits(bitvec);
    assert_eq!(bits.len(), 16);
}

#[test]
fn bitvec16_test_iter_bits_all_false() {
    let bitvec = BitVec16::from_u16(0);
    let bits: Vec<bool> = collect_bits(bitvec);
    assert_eq!(bits, vec![false; 16]);
}

#[test]
fn bitvec16_test_iter_bits_all_true() {
    let bitvec = BitVec16::from_u16(0xFFFF);
    let bits: Vec<bool> = collect_bits(bitvec);
    assert_eq!(bits, vec![true; 16]);
}

#[test]
fn bitvec16_test_indeces_on() {
    let bitvec = BitVec16::from_u16(0b1000_0000_0000_1101);
    let indeces: Vec<usize> = bitvec.indeces_on();
    assert_eq!(indeces, vec![0, 2, 3, 15]);
}

#[test]
fn bitvec16_test_indeces_off() {
    let bitvec = BitVec16::from_u16(0b1000_0000_0000_1101);
    let indeces: Vec<usize> = bitvec.indeces_off();
    assert_eq!(indeces, vec![1, 4, 5, 6, 7, 8, 9, 10, 11, 12, 13, 14]);
}

/// Tests that the BitVec16Builder correctly constructs BitVec16 instances
///
/// This test verifies that the builder pattern works correctly by setting
/// multiple bits and ensuring the final result matches the expected bit pattern.
#[test]
fn bitvec16_test_builder() {
    let bitvec = BitVec16Builder::default()
        .set_index(0)
        .set_index(1)
        .set_index(3)
        .build();
    assert_eq!(bitvec.inner(), 0b0000_0000_0000_1011);
}

#[test]
fn bitvec16_test_from_vec() {
    let bitvec = BitVec16::from_vec([
        true, false, true, true, false, false, false, false, false, false, false, false, false,
        false, false, true,
    ]);
    assert_eq!(bitvec.inner(), 0b1000_0000_0000_1101);
}

#[test]
fn test_individual_bits() {
    let bitvec = BitVec16::from_u16(VAL);

    // Test all individual bit methods
    assert_eq!(bitvec.bit0(), true);
    assert_eq!(bitvec.bit1(), false);
    assert_eq!(bitvec.bit2(), true);
    assert_eq!(bitvec.bit3(), true);
    assert_eq!(bitvec.bit4(), false);
    assert_eq!(bitvec.bit5(), false);
    assert_eq!(bitvec.bit6(), false);
    assert_eq!(bitvec.bit7(), false);
    assert_eq!(bitvec.bit8(), false);
    assert_eq!(bitvec.bit9(), false);
    assert_eq!(bitvec.bit10(), false);
    assert_eq!(bitvec.bit11(), false);
    assert_eq!(bitvec.bit12(), false);
    assert_eq!(bitvec.bit13(), false);
    assert_eq!(bitvec.bit14(), false);
    assert_eq!(bitvec.bit15(), true);
}

#[test]
fn test_individual_bits_all_false() {
    let bitvec = BitVec16::from_u16(0);

    // Test all individual bit methods return false for 0
    assert_eq!(bitvec.bit0(), false);
    assert_eq!(bitvec.bit1(), false);
    assert_eq!(bitvec.bit2(), false);
    assert_eq!(bitvec.bit3(), false);
    assert_eq!(bitvec.bit4(), false);
    assert_eq!(bitvec.bit5(), false);
    assert_eq!(bitvec.bit6(), false);
    assert_eq!(bitvec.bit7(), false);
    assert_eq!(bitvec.bit8(), false);
    assert_eq!(bitvec.bit9(), false);
    assert_eq!(bitvec.bit10(), false);
    assert_eq!(bitvec.bit11(), false);
    assert_eq!(bitvec.bit12(), false);
    assert_eq!(bitvec.bit13(), false);
    assert_eq!(bitvec.bit14(), false);
    assert_eq!(bitvec.bit15(), false);
}

#[test]
fn test_individual_bits_all_true() {
    let bitvec = BitVec16::from_u16(0xFFFF);

    // Test all individual bit methods return true for all-ones
    assert_eq!(bitvec.bit0(), true);
    assert_eq!(bitvec.bit1(), true);
    assert_eq!(bitvec.bit2(), true);
    assert_eq!(bitvec.bit3(), true);
    assert_eq!(bitvec.bit4(), true);
    assert_eq!(bitvec.bit5(), true);
    assert_eq!(bitvec.bit6(), true);
    assert_eq!(bitvec.bit7(), true);
    assert_eq!(bitvec.bit8(), true);
    assert_eq!(bitvec.bit9(), true);
    assert_eq!(bitvec.bit10(), true);
    assert_eq!(bitvec.bit11(), true);
    assert_eq!(bitvec.bit12(), true);
    assert_eq!(bitvec.bit13(), true);
    assert_eq!(bitvec.bit14(), true);
    assert_eq!(bitvec.bit15(), true);
}

#[test]
fn test_bitvec16_capacity() {
    let bitvec = BitVec16::from_u16(0);
    assert_eq!(bitvec.capacity(), 16);
}

#[test]
fn test_bitvec16_roundtrip_all_edges() {
    // Round trip: from_u16 followed by inner preserves the raw word.
    for v in [0u16, 1, 0x0001, 0x8000, 0xABCD, 0xFFFF] {
        assert_eq!(BitVec16::from_u16(v).inner(), v);
    }
}

#[test]
fn test_bitvec16_builder_matches_direct_or() {
    // Builder/direct equivalence: the builder sets exactly the bits that
    // direct or-ing of the raw word sets.
    let built = BitVec16Builder::default()
        .set_index(0)
        .set_index(7)
        .set_index(15)
        .build();
    let direct: u16 = (1 << 0) | (1 << 7) | (1 << 15);
    assert_eq!(built.inner(), direct);
}
