use bitnun::text::{decimal_string, same_text, starts_with_zeros};

#[test]
fn decimal_string_of_zero() {
    assert_eq!(decimal_string(0), "0");
}

#[test]
fn decimal_string_of_small_and_large_numbers() {
    assert_eq!(decimal_string(7), "7");
    assert_eq!(decimal_string(10), "10");
    assert_eq!(decimal_string(1_234_567_890), "1234567890");
    assert_eq!(decimal_string(u64::MAX), "18446744073709551615");
}

#[test]
fn decimal_string_agrees_with_std() {
    for n in [0u64, 9, 99, 100, 101, 1000, 65_535, 1_700_000_000_000] {
        assert_eq!(decimal_string(n), n.to_string());
    }
}

#[test]
fn same_text_compares_characters() {
    assert!(same_text("click", "click"));
    assert!(!same_text("click", "clicks"));
    assert!(same_text("", ""));
    assert!(!same_text("", "a"));
}

#[test]
fn zero_prefix_is_counted_in_characters() {
    assert!(starts_with_zeros("00ab", 2));
    assert!(starts_with_zeros("00ab", 1));
    assert!(!starts_with_zeros("00ab", 3));
    assert!(!starts_with_zeros("0", 2));
    assert!(!starts_with_zeros("a0", 1));
}

#[test]
fn zero_prefix_of_length_zero_always_holds() {
    assert!(starts_with_zeros("", 0));
    assert!(starts_with_zeros("abc", 0));
    assert!(!starts_with_zeros("", 1));
}
