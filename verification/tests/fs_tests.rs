//! Tests for `parse`, which performs the real directory-existence check.
//!
//! The test process runs with the package root as its working directory, so
//! `.` and `src` are existing directories and `Cargo.toml` is an existing
//! file that is not a directory.

use spreet::cli::{OptionName, ValidationFailure};
use spreet::parse::parse;

fn args(tokens: &[&str]) -> Vec<String> {
    tokens.iter().map(|t| t.to_string()).collect()
}

#[test]
fn existing_directory_is_accepted() {
    let cli = parse(&args(&[".", "out.png"])).unwrap();
    assert_eq!(cli.input, ".");
    assert_eq!(cli.output, "out.png");
    assert_eq!(cli.ratio, 1);
    assert_eq!(cli.spacing, 0);
    assert!(!cli.crop);
    assert!(!cli.include_center);
    assert!(!cli.unique);
    assert!(!cli.recursive);
    assert_eq!(cli.oxipng, None);
    assert_eq!(cli.zopfli, None);
    assert!(!cli.minify_index_file);
    assert!(!cli.simple_index_file);
    assert!(!cli.sdf);
}

#[test]
fn nonexistent_path_is_path_error() {
    let e = parse(&args(&["no_such_directory_here", "out.png"])).unwrap_err();
    assert_eq!(e, ValidationFailure::PathError);
}

#[test]
fn existing_file_is_path_error() {
    let e = parse(&args(&["Cargo.toml", "out.png"])).unwrap_err();
    assert_eq!(e, ValidationFailure::PathError);
}

#[test]
fn bad_value_reported_before_path_check() {
    // Per-field validation runs during the scan, so a bad ratio surfaces
    // even when the input directory does not exist.
    let e = parse(&args(&["no_such_directory_here", "out.png", "--ratio", "x"])).unwrap_err();
    assert_eq!(e, ValidationFailure::ParseError(OptionName::Ratio));
}

#[test]
fn repeated_parse_yields_equal_configurations() {
    let v = args(&[".", "out.png", "--crop", "--include-center", "--spacing", "2"]);
    let first = parse(&v).unwrap();
    let second = parse(&v).unwrap();
    assert!(first == second);
    assert_eq!(first.pixel_ratio(), second.pixel_ratio());
}
