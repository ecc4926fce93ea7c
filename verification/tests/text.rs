//! Tests for the verified text utilities.

use torznab_toolkit::text::{join_commas_exec, parse_u32, split_commas_exec, u32_to_dec,
    u64_to_dec};

#[test]
fn decimal_rendering_exact_values() {
    assert_eq!(u32_to_dec(0), "0");
    assert_eq!(u32_to_dec(7), "7");
    assert_eq!(u32_to_dec(100), "100");
    assert_eq!(u32_to_dec(4294967295), "4294967295");
    assert_eq!(u64_to_dec(9872349573), "9872349573");
    assert_eq!(u64_to_dec(18446744073709551615), "18446744073709551615");
}

#[test]
fn parse_accepts_plain_and_signed_digits() {
    assert_eq!(parse_u32("0"), Some(0));
    assert_eq!(parse_u32("1010"), Some(1010));
    assert_eq!(parse_u32("+7"), Some(7));
    assert_eq!(parse_u32("4294967295"), Some(4294967295));
}

#[test]
fn parse_rejects_malformed_tokens() {
    assert_eq!(parse_u32(""), None);
    assert_eq!(parse_u32("+"), None);
    assert_eq!(parse_u32("-1"), None);
    assert_eq!(parse_u32("12a"), None);
    assert_eq!(parse_u32("a12"), None);
    assert_eq!(parse_u32("1 2"), None);
    assert_eq!(parse_u32("++1"), None);
    assert_eq!(parse_u32("4294967296"), None);
    assert_eq!(parse_u32("99999999999999999999"), None);
}

#[test]
fn split_keeps_empty_tokens() {
    assert_eq!(split_commas_exec(""), vec![String::new()]);
    assert_eq!(split_commas_exec("a"), vec!["a".to_string()]);
    assert_eq!(
        split_commas_exec("a,b,c"),
        vec!["a".to_string(), "b".to_string(), "c".to_string()]
    );
    assert_eq!(
        split_commas_exec(",a,"),
        vec![String::new(), "a".to_string(), String::new()]
    );
}

#[test]
fn join_is_the_inverse_of_split() {
    let parts = vec!["q".to_string(), "season".to_string(), "ep".to_string()];
    let joined = join_commas_exec(&parts);
    assert_eq!(joined, "q,season,ep");
    assert_eq!(split_commas_exec(&joined), parts);
    assert_eq!(join_commas_exec(&vec![]), "");
}
