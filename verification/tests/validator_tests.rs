//! Tests for the per-field validators and the integer grammar.

use spreet::numbers::parse_u8;
use spreet::validate::{is_dir, is_max_6, is_non_negative, is_positive};

#[test]
fn parse_u8_accepts_plain_decimals() {
    assert_eq!(parse_u8("0"), Some(0));
    assert_eq!(parse_u8("7"), Some(7));
    assert_eq!(parse_u8("42"), Some(42));
    assert_eq!(parse_u8("255"), Some(255));
    assert_eq!(parse_u8("007"), Some(7));
}

#[test]
fn parse_u8_rejects_everything_else() {
    assert_eq!(parse_u8(""), None);
    assert_eq!(parse_u8("256"), None);
    assert_eq!(parse_u8("1000"), None);
    assert_eq!(parse_u8("-1"), None);
    assert_eq!(parse_u8("+1"), None);
    assert_eq!(parse_u8("1 "), None);
    assert_eq!(parse_u8("4.2"), None);
    assert_eq!(parse_u8("abc"), None);
}

#[test]
fn is_positive_accepts_positive_integers() {
    assert_eq!(is_positive("1"), Ok(1));
    assert_eq!(is_positive("255"), Ok(255));
}

#[test]
fn is_positive_rejects_zero_and_non_numeric() {
    assert_eq!(is_positive("0"), Err(String::from("must be greater than zero")));
    assert_eq!(is_positive("x"), Err(String::from("must be an unsigned integer")));
    assert_eq!(is_positive("-2"), Err(String::from("must be an unsigned integer")));
}

#[test]
fn is_non_negative_accepts_any_parsed_value() {
    assert_eq!(is_non_negative("0"), Ok(0));
    assert_eq!(is_non_negative("9"), Ok(9));
    assert_eq!(is_non_negative("255"), Ok(255));
}

#[test]
fn is_non_negative_rejects_non_numeric() {
    assert_eq!(is_non_negative("wide"), Err(String::from("must be a non-negative number")));
    assert_eq!(is_non_negative("256"), Err(String::from("must be a non-negative number")));
}

#[test]
fn is_max_6_bounds_the_level() {
    assert_eq!(is_max_6("0"), Ok(0));
    assert_eq!(is_max_6("6"), Ok(6));
    assert_eq!(is_max_6("7"), Err(String::from("must be a number no more than 6")));
    assert_eq!(is_max_6("x"), Err(String::from("must be an unsigned integer")));
}

#[test]
fn is_dir_accepts_an_existing_directory() {
    // The test process runs with the package root as its working directory.
    assert_eq!(is_dir("."), Ok(String::from(".")));
    assert_eq!(is_dir("src"), Ok(String::from("src")));
}

#[test]
fn is_dir_rejects_missing_paths_and_files() {
    let expected = Err(String::from("must be an existing directory"));
    assert_eq!(is_dir("no_such_directory_here"), expected);
    // An existing file is not a directory.
    assert_eq!(is_dir("Cargo.toml"), expected);
}
