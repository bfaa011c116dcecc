use std::collections::HashSet;

use uuid_bench::decimal::decimal_text;
use uuid_bench::sample::{
    generate_and_format, generate_samples, run_benchmark, TestingStruct, SAMPLE_COUNT,
};

fn is_lower_hex(c: char) -> bool {
    c.is_ascii_digit() || ('a'..='f').contains(&c)
}

/// Checks the shape `-?[0-9]+` then a version-4 identifier, and returns the
/// numeral's value and the identifier text.
fn split_entry(s: &str) -> (i64, String) {
    let chars: Vec<char> = s.chars().collect();
    assert!(chars.len() > 36, "entry too short: {}", s);
    let cut = chars.len() - 36;
    let numeral: String = chars[..cut].iter().collect();
    let ident: Vec<char> = chars[cut..].to_vec();
    let digits = numeral.strip_prefix('-').unwrap_or(&numeral);
    assert!(!digits.is_empty() && digits.chars().all(|c| c.is_ascii_digit()), "bad numeral in {}", s);
    for (i, c) in ident.iter().enumerate() {
        if i == 8 || i == 13 || i == 18 || i == 23 {
            assert_eq!(*c, '-', "missing hyphen in {}", s);
        } else {
            assert!(is_lower_hex(*c), "bad digit in {}", s);
        }
    }
    assert_eq!(ident[14], '4', "wrong version in {}", s);
    assert!(matches!(ident[19], '8' | '9' | 'a' | 'b'), "wrong variant in {}", s);
    (numeral.parse::<i64>().unwrap(), ident.iter().collect())
}

#[test]
fn decimal_text_of_zero() {
    assert_eq!(decimal_text(0), "0");
}

#[test]
fn decimal_text_of_positive_values() {
    assert_eq!(decimal_text(7), "7");
    assert_eq!(decimal_text(10), "10");
    assert_eq!(decimal_text(305), "305");
    assert_eq!(decimal_text(32767), "32767");
}

#[test]
fn decimal_text_of_negative_values() {
    assert_eq!(decimal_text(-1), "-1");
    assert_eq!(decimal_text(-305), "-305");
    assert_eq!(decimal_text(-32768), "-32768");
}

#[test]
fn decimal_text_matches_std_on_every_value() {
    for v in i16::MIN..=i16::MAX {
        assert_eq!(decimal_text(v), v.to_string());
    }
}

#[test]
fn method_joins_value_and_identifier() {
    let s = TestingStruct { value: -42, id: 0x67e55044_10b1_426f_9247_bb680e5fe0c8 };
    assert_eq!(s.method(), "-4267e55044-10b1-426f-9247-bb680e5fe0c8");
}

#[test]
fn method_on_extreme_values() {
    let low = TestingStruct { value: i16::MIN, id: 0 };
    assert_eq!(low.method(), "-3276800000000-0000-0000-0000-000000000000");
    let high = TestingStruct { value: i16::MAX, id: u128::MAX };
    assert_eq!(high.method(), "32767ffffffff-ffff-ffff-ffff-ffffffffffff");
}

#[test]
fn generated_entry_has_expected_shape() {
    for _ in 0..100 {
        let s = generate_and_format();
        let (v, _) = split_entry(&s);
        assert!((-32768..=32767).contains(&v));
    }
}

#[test]
fn generate_samples_gives_requested_count() {
    assert!(generate_samples(0).is_empty());
    assert_eq!(generate_samples(3).len(), 3);
}

#[test]
fn run_has_ten_thousand_entries() {
    assert_eq!(SAMPLE_COUNT, 10000);
    assert_eq!(run_benchmark().len(), 10000);
}

#[test]
fn run_entries_have_expected_shape_and_range() {
    for s in run_benchmark() {
        let (v, _) = split_entry(&s);
        assert!((-32768..=32767).contains(&v));
    }
}

#[test]
fn run_identifiers_are_distinct() {
    let run = run_benchmark();
    let ids: HashSet<String> = run.iter().map(|s| split_entry(s).1).collect();
    assert_eq!(ids.len(), run.len());
}

#[test]
fn two_runs_have_equal_length_and_differ() {
    let a = run_benchmark();
    let b = run_benchmark();
    assert_eq!(a.len(), 10000);
    assert_eq!(b.len(), 10000);
    assert_ne!(a, b);
}
