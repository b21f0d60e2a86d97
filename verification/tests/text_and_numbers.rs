use stoneflow::numtext::{i64_to_dec, parse_dec_i64};
use stoneflow::text::{
    join_strings, str_ends_with, str_eq, str_eq_ignore_ascii_case, to_ascii_lower,
    to_ascii_upper, trim_str, vec_contains_str,
};

#[test]
fn trim_removes_surrounding_whitespace_only() {
    assert_eq!(trim_str("  hello world \t\n"), "hello world");
    assert_eq!(trim_str(""), "");
    assert_eq!(trim_str(" \r\n\t "), "");
    assert_eq!(trim_str("inner  space"), "inner  space");
}

#[test]
fn ascii_case_folding_leaves_other_characters_alone() {
    assert_eq!(to_ascii_upper("p1 done!"), "P1 DONE!");
    assert_eq!(to_ascii_lower("P1 Done!"), "p1 done!");
    assert_eq!(to_ascii_upper("任务 p2"), "任务 P2");
}

#[test]
fn string_comparisons() {
    assert!(str_eq("abc", "abc"));
    assert!(!str_eq("abc", "abd"));
    assert!(str_eq_ignore_ascii_case("p1", "P1"));
    assert!(!str_eq_ignore_ascii_case("p1", "p2"));
    assert!(str_ends_with("work_default", "_default"));
    assert!(!str_ends_with("default", "_default"));
}

#[test]
fn joins_and_membership() {
    let parts = vec!["a".to_string(), "b".to_string(), "c".to_string()];
    assert_eq!(join_strings(&parts, ", "), "a, b, c");
    let one = vec!["solo".to_string()];
    assert_eq!(join_strings(&one, ", "), "solo");
    assert!(vec_contains_str(&parts, "b"));
    assert!(!vec_contains_str(&parts, "d"));
}

#[test]
fn decimal_parsing_matches_i64_semantics() {
    assert_eq!(parse_dec_i64("0"), Some(0));
    assert_eq!(parse_dec_i64("1736816400000"), Some(1_736_816_400_000));
    assert_eq!(parse_dec_i64("-42"), Some(-42));
    assert_eq!(parse_dec_i64("+42"), Some(42));
    assert_eq!(parse_dec_i64("9223372036854775807"), Some(i64::MAX));
    assert_eq!(parse_dec_i64("-9223372036854775808"), Some(i64::MIN));
    assert_eq!(parse_dec_i64("9223372036854775808"), None);
    assert_eq!(parse_dec_i64(""), None);
    assert_eq!(parse_dec_i64("-"), None);
    assert_eq!(parse_dec_i64("12x"), None);
    assert_eq!(parse_dec_i64(" 12"), None);
}

#[test]
fn decimal_formatting_round_trips() {
    assert_eq!(i64_to_dec(0), "0");
    assert_eq!(i64_to_dec(1024), "1024");
    assert_eq!(i64_to_dec(-7), "-7");
    assert_eq!(i64_to_dec(i64::MIN), "-9223372036854775808");
    for v in [0i64, 1, -1, 99, 1_736_816_400_000, i64::MAX, i64::MIN] {
        assert_eq!(parse_dec_i64(&i64_to_dec(v)), Some(v));
    }
}
