use muzze::Accidental;
use std::collections::HashMap;

#[test]
fn accidental_test_display() {
    // Test that each accidental displays the correct Unicode symbol
    assert_eq!(Accidental::Natural.symbol(), "");
    assert_eq!(Accidental::Reset.symbol(), "♮");
    assert_eq!(Accidental::Flat.symbol(), "♭");
    assert_eq!(Accidental::DoubleFlat.symbol(), "♭♭");
    assert_eq!(Accidental::Sharp.symbol(), "♯");
    assert_eq!(Accidental::DoubleSharp.symbol(), "♯♯");
}

#[test]
fn test_from_accidental_to_u8() {
    // Test conversion from Accidental to its numeric code
    assert_eq!(Accidental::Natural.code(), 0);
    assert_eq!(Accidental::Reset.code(), 15);
    assert_eq!(Accidental::Flat.code(), 2);
    assert_eq!(Accidental::DoubleFlat.code(), 3);
    assert_eq!(Accidental::Sharp.code(), 8);
    assert_eq!(Accidental::DoubleSharp.code(), 9);
}

#[test]
fn test_from_u8_to_accidental() {
    // Test conversion from a numeric code to Accidental
    assert_eq!(Accidental::try_from_code(0), Some(Accidental::Natural));
    assert_eq!(Accidental::try_from_code(2), Some(Accidental::Flat));
    assert_eq!(Accidental::try_from_code(3), Some(Accidental::DoubleFlat));
    assert_eq!(Accidental::try_from_code(8), Some(Accidental::Sharp));
    assert_eq!(Accidental::try_from_code(9), Some(Accidental::DoubleSharp));
    assert_eq!(Accidental::try_from_code(15), Some(Accidental::Reset));
}

#[test]
fn test_invalid_codes_decode_to_nothing() {
    // Every code outside the table is rejected
    for value in [1u8, 4, 5, 6, 7, 10, 11, 12, 13, 14, 16, 100, 255] {
        assert_eq!(Accidental::try_from_code(value), None);
    }
}

#[test]
fn accidental_test_roundtrip_conversion() {
    // Test that converting from Accidental to its code and back preserves the value
    let accidentals = [
        Accidental::Natural,
        Accidental::Reset,
        Accidental::Flat,
        Accidental::DoubleFlat,
        Accidental::Sharp,
        Accidental::DoubleSharp,
    ];

    for accidental in &accidentals {
        let numeric_value = accidental.code();
        let converted_back = Accidental::try_from_code(numeric_value);
        assert_eq!(Some(*accidental), converted_back);
    }
}

#[test]
fn accidental_test_equality() {
    // Test that identical accidentals are equal
    assert_eq!(Accidental::Natural, Accidental::Natural);
    assert_eq!(Accidental::Sharp, Accidental::Sharp);
    assert_eq!(Accidental::Flat, Accidental::Flat);

    // Test that different accidentals are not equal
    assert_ne!(Accidental::Natural, Accidental::Sharp);
    assert_ne!(Accidental::Flat, Accidental::DoubleFlat);
    assert_ne!(Accidental::Sharp, Accidental::DoubleSharp);
}

#[test]
fn accidental_test_clone_and_copy() {
    // Test that accidentals can be cloned and copied
    let original = Accidental::Sharp;
    let cloned = original.clone();
    let copied = original;

    assert_eq!(original, cloned);
    assert_eq!(original, copied);
    assert_eq!(cloned, copied);
}

#[test]
fn accidental_test_debug_formatting() {
    // Test that debug formatting works correctly
    let debug_str = format!("{:?}", Accidental::Sharp);
    assert!(debug_str.contains("Sharp"));

    let debug_str = format!("{:?}", Accidental::Flat);
    assert!(debug_str.contains("Flat"));
}

#[test]
fn accidental_test_hash() {
    // Test that accidentals can be used as HashMap keys
    let mut map = HashMap::new();
    map.insert(Accidental::Sharp, "raised");
    map.insert(Accidental::Flat, "lowered");
    map.insert(Accidental::Natural, "unchanged");

    assert_eq!(map.get(&Accidental::Sharp), Some(&"raised"));
    assert_eq!(map.get(&Accidental::Flat), Some(&"lowered"));
    assert_eq!(map.get(&Accidental::Natural), Some(&"unchanged"));
    assert_eq!(map.get(&Accidental::DoubleSharp), None);
}

#[test]
fn test_all_variants() {
    // Test that we can iterate over all accidental variants
    let all_accidentals = [
        Accidental::Natural,
        Accidental::Reset,
        Accidental::Flat,
        Accidental::DoubleFlat,
        Accidental::Sharp,
        Accidental::DoubleSharp,
    ];

    // Verify we have exactly 6 variants
    assert_eq!(all_accidentals.len(), 6);

    // Verify each variant has a unique numeric value
    let mut values = all_accidentals
        .iter()
        .map(|&a| a.code())
        .collect::<Vec<_>>();
    values.sort();
    assert_eq!(values, vec![0, 2, 3, 8, 9, 15]);
}

#[test]
fn test_unicode_symbols() {
    // Test that the Unicode symbols are correct and non-empty (except Natural)
    // Note: String::len() returns byte count, not character count
    assert_eq!(Accidental::Natural.symbol().len(), 0);
    assert_eq!(Accidental::Reset.symbol().len(), 3); // ♮ is 3 bytes in UTF-8
    assert_eq!(Accidental::Flat.symbol().len(), 3); // ♭ is 3 bytes in UTF-8
    assert_eq!(Accidental::DoubleFlat.symbol().len(), 6); // ♭♭ is 6 bytes in UTF-8
    assert_eq!(Accidental::Sharp.symbol().len(), 3); // ♯ is 3 bytes in UTF-8
    assert_eq!(Accidental::DoubleSharp.symbol().len(), 6); // ♯♯ is 6 bytes in UTF-8
}
