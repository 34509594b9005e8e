use muzze::Step;
use muzze::half;
use muzze::whole;
use muzze::whole_half;
use std::collections::HashMap;

#[test]
fn step_test_display() {
    // Test that each step displays the correct string representation
    assert_eq!(half().display_string(), "H");
    assert_eq!(whole().display_string(), "W");
    assert_eq!(whole_half().display_string(), "WH");

    // Test custom steps
    assert_eq!(Step::from(4).display_string(), "S4");
    assert_eq!(Step::from(0).display_string(), "S0");
    assert_eq!(Step::from(255).display_string(), "S255");
}

#[test]
fn test_from_step_to_u8() {
    // Test conversion from Step to its semitone count
    assert_eq!(half().inner(), 1);
    assert_eq!(whole().inner(), 2);
    assert_eq!(whole_half().inner(), 3);
    assert_eq!(Step::from(4).inner(), 4);
    assert_eq!(Step::from(0).inner(), 0);
    assert_eq!(Step::from(255).inner(), 255);
}

#[test]
fn test_from_u8_to_step() {
    // Test conversion from u8 to Step
    assert_eq!(Step::from(1), half());
    assert_eq!(Step::from(2), whole());
    assert_eq!(Step::from(3), whole_half());
    assert_eq!(Step::from(4), Step::from(4));
    assert_eq!(Step::from(0), Step::from(0));
    assert_eq!(Step::from(255), Step::from(255));
}

#[test]
fn step_test_roundtrip_conversion() {
    // Test that converting from Step to u8 and back preserves the value
    let test_values = [0, 1, 2, 3, 4, 5, 10, 255];

    for value in &test_values {
        let step = Step::from(*value);
        let converted_back = step.inner();
        assert_eq!(*value, converted_back);
    }
}

#[test]
fn step_test_equality() {
    // Test that identical steps are equal
    assert_eq!(half(), half());
    assert_eq!(whole(), whole());
    assert_eq!(whole_half(), whole_half());
    assert_eq!(Step::from(4), Step::from(4));

    // Test that different steps are not equal
    assert_ne!(half(), whole());
    assert_ne!(whole(), whole_half());
    assert_ne!(half(), whole_half());
    assert_ne!(Step::from(4), Step::from(5));
}

#[test]
fn step_test_clone_and_copy() {
    // Test that steps can be cloned and copied
    let original = whole();
    let cloned = original.clone();
    let copied = original;

    assert_eq!(original, cloned);
    assert_eq!(original, copied);
    assert_eq!(cloned, copied);

    // Test with custom step
    let custom_original = Step::from(7);
    let custom_cloned = custom_original.clone();
    let custom_copied = custom_original;

    assert_eq!(custom_original, custom_cloned);
    assert_eq!(custom_original, custom_copied);
    assert_eq!(custom_cloned, custom_copied);
}

#[test]
fn step_test_debug_formatting() {
    // Test that debug formatting works correctly
    let debug_str = format!("{:?}", half());
    assert!(debug_str.contains("Step"));
    assert!(debug_str.contains("1"));

    let debug_str = format!("{:?}", whole());
    assert!(debug_str.contains("Step"));
    assert!(debug_str.contains("2"));

    let debug_str = format!("{:?}", Step::from(42));
    assert!(debug_str.contains("Step"));
    assert!(debug_str.contains("42"));
}

#[test]
fn step_test_hash() {
    // Test that steps can be used as HashMap keys
    let mut map = HashMap::new();
    map.insert(half(), "half");
    map.insert(whole(), "whole");
    map.insert(whole_half(), "whole-half");
    map.insert(Step::from(4), "custom");

    assert_eq!(map.get(&half()), Some(&"half"));
    assert_eq!(map.get(&whole()), Some(&"whole"));
    assert_eq!(map.get(&whole_half()), Some(&"whole-half"));
    assert_eq!(map.get(&Step::from(4)), Some(&"custom"));
    assert_eq!(map.get(&Step::from(5)), None);
}

#[test]
fn step_test_constants() {
    // Test that constants have the correct values
    assert_eq!(half().inner(), 1);
    assert_eq!(whole().inner(), 2);
    assert_eq!(whole_half().inner(), 3);

    // Test that constants are equivalent to their Step equivalents
    assert_eq!(half(), Step::from(1));
    assert_eq!(whole(), Step::from(2));
    assert_eq!(whole_half(), Step::from(3));
}

#[test]
fn test_custom_steps() {
    // Test creating and using custom step values
    let step_0 = Step::from(0);
    let step_5 = Step::from(5);
    let step_12 = Step::from(12);
    let step_255 = Step::from(255);

    assert_eq!(step_0.display_string(), "S0");
    assert_eq!(step_5.display_string(), "S5");
    assert_eq!(step_12.display_string(), "S12");
    assert_eq!(step_255.display_string(), "S255");

    assert_eq!(step_0.inner(), 0);
    assert_eq!(step_5.inner(), 5);
    assert_eq!(step_12.inner(), 12);
    assert_eq!(step_255.inner(), 255);
}

#[test]
fn test_step_patterns() {
    // Test common scale step patterns
    let major_scale_steps = [whole(), whole(), half(), whole(), whole(), whole(), half()];
    let expected_values = [2, 2, 1, 2, 2, 2, 1];

    for (step, expected) in major_scale_steps.iter().zip(expected_values.iter()) {
        assert_eq!(step.inner(), *expected);
    }

    // Test harmonic minor scale pattern (includes the whole-half step)
    let harmonic_minor_steps = [whole(), half(), whole(), whole(), half(), whole_half(), half()];
    let expected_values = [2, 1, 2, 2, 1, 3, 1];

    for (step, expected) in harmonic_minor_steps.iter().zip(expected_values.iter()) {
        assert_eq!(step.inner(), *expected);
    }
}
