//! Tests of the crack-time estimates against the formula
//! `0.5 * 7776^n / rate`, evaluated exactly.

use pwgen::estimate::estimate_crack_times;

#[test]
fn zero_words_is_one_second() {
    assert_eq!(
        estimate_crack_times(0),
        ("1 second".to_string(), "1 second".to_string())
    );
}

#[test]
fn small_counts() {
    // 7776 / 41.2e9 and 7776^2 / 41.2e9 seconds are both under 2 seconds
    assert_eq!(
        estimate_crack_times(1),
        ("1 second".to_string(), "1 second".to_string())
    );
    assert_eq!(
        estimate_crack_times(2),
        ("1 second".to_string(), "1 second".to_string())
    );
    // 7776^3 / 41.2e9 = 11.41.. seconds
    assert_eq!(
        estimate_crack_times(3),
        ("11 seconds".to_string(), "1 second".to_string())
    );
    // 7776^4 / 41.2e9 = 88741.2.. seconds = 1.02.. days
    assert_eq!(
        estimate_crack_times(4),
        ("1 days".to_string(), "14 minutes".to_string())
    );
    assert_eq!(
        estimate_crack_times(5),
        ("21 years".to_string(), "2 months".to_string())
    );
}

#[test]
fn six_words_end_to_end() {
    // guesses = 0.5 * 7776^6; Budget seconds = 7776^6 / 41.2e9
    // = 5365871837881.8.. s = 170037.7.. years -> 170 thousand years;
    // WellFunded is one hundredth of it -> 1700.3.. years -> 1 thousand years
    assert_eq!(
        estimate_crack_times(6),
        (
            "170 thousand years".to_string(),
            "1 thousand years".to_string()
        )
    );
}

#[test]
fn larger_counts() {
    assert_eq!(
        estimate_crack_times(7),
        ("1 billion years".to_string(), "13 million years".to_string())
    );
    assert_eq!(
        estimate_crack_times(8),
        (
            "10 trillion years".to_string(),
            "102 billion years".to_string()
        )
    );
    assert_eq!(
        estimate_crack_times(9),
        (
            "79949 trillion years".to_string(),
            "799 trillion years".to_string()
        )
    );
}

#[test]
fn counts_past_the_exact_power_range() {
    assert_eq!(
        estimate_crack_times(10),
        (
            "621685021 trillion years".to_string(),
            "6216850 trillion years".to_string()
        )
    );
    assert_eq!(
        estimate_crack_times(12),
        (
            "37590915914483413 trillion years".to_string(),
            "375909159144834 trillion years".to_string()
        )
    );
}

#[test]
fn magnitudes_cap_at_u64_max() {
    // from thirteen words on, the Budget magnitude exceeds 64 bits
    assert_eq!(
        estimate_crack_times(13),
        (
            "18446744073709551615 trillion years".to_string(),
            "2923069621510230231 trillion years".to_string()
        )
    );
    assert_eq!(
        estimate_crack_times(14),
        (
            "18446744073709551615 trillion years".to_string(),
            "18446744073709551615 trillion years".to_string()
        )
    );
    assert_eq!(
        estimate_crack_times(255),
        (
            "18446744073709551615 trillion years".to_string(),
            "18446744073709551615 trillion years".to_string()
        )
    );
}
