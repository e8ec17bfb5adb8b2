//! Scenario tests for the argument scanner and the cross-field rules.
//!
//! `parse_with` takes the directory-existence observation as an argument,
//! so these tests never touch the filesystem; `fs_tests.rs` covers the
//! real check.

use spreet::cli::{OptionName, ValidationFailure};
use spreet::parse::parse_with;

fn args(tokens: &[&str]) -> Vec<String> {
    tokens.iter().map(|t| t.to_string()).collect()
}

#[test]
fn minimal_invocation_uses_defaults() {
    let cli = parse_with(&args(&["indir", "out.png"]), true).unwrap();
    assert_eq!(cli.input, "indir");
    assert_eq!(cli.output, "out.png");
    assert_eq!(cli.ratio, 1);
    assert!(!cli.retina);
    assert!(!cli.unique);
    assert!(!cli.recursive);
    assert!(!cli.crop);
    assert!(!cli.include_center);
    assert_eq!(cli.spacing, 0);
    assert_eq!(cli.oxipng, None);
    assert_eq!(cli.zopfli, None);
    assert!(!cli.minify_index_file);
    assert!(!cli.simple_index_file);
    assert!(!cli.sdf);
    assert_eq!(cli.pixel_ratio(), 1);
}

#[test]
fn ratio_positive_succeeds() {
    let cli = parse_with(&args(&["indir", "out.png", "--ratio", "3"]), true).unwrap();
    assert_eq!(cli.ratio, 3);
    assert_eq!(cli.pixel_ratio(), 3);
    let cli = parse_with(&args(&["indir", "out.png", "-r", "7"]), true).unwrap();
    assert_eq!(cli.ratio, 7);
    assert_eq!(cli.pixel_ratio(), 7);
}

#[test]
fn ratio_zero_is_range_error() {
    let e = parse_with(&args(&["indir", "out.png", "--ratio", "0"]), true).unwrap_err();
    assert_eq!(e, ValidationFailure::RangeError(OptionName::Ratio));
}

#[test]
fn ratio_non_numeric_is_parse_error() {
    let e = parse_with(&args(&["indir", "out.png", "--ratio", "abc"]), true).unwrap_err();
    assert_eq!(e, ValidationFailure::ParseError(OptionName::Ratio));
    let e = parse_with(&args(&["indir", "out.png", "--ratio", "-3"]), true).unwrap_err();
    assert_eq!(e, ValidationFailure::ParseError(OptionName::Ratio));
}

#[test]
fn retina_sets_pixel_ratio_two() {
    let cli = parse_with(&args(&["indir", "out.png", "--retina"]), true).unwrap();
    assert!(cli.retina);
    assert_eq!(cli.ratio, 1);
    assert_eq!(cli.pixel_ratio(), 2);
}

#[test]
fn ratio_and_retina_conflict_in_either_order() {
    let expected = ValidationFailure::GroupConflictError(OptionName::Ratio, OptionName::Retina);
    let e = parse_with(&args(&["indir", "out.png", "--ratio", "3", "--retina"]), true)
        .unwrap_err();
    assert_eq!(e, expected);
    let e = parse_with(&args(&["indir", "out.png", "--retina", "--ratio", "3"]), true)
        .unwrap_err();
    assert_eq!(e, expected);
}

#[test]
fn oxipng_six_succeeds() {
    let cli = parse_with(&args(&["indir", "out.png", "--oxipng", "6"]), true).unwrap();
    assert_eq!(cli.oxipng, Some(6));
    assert_eq!(cli.zopfli, None);
}

#[test]
fn oxipng_seven_is_range_error() {
    let e = parse_with(&args(&["indir", "out.png", "--oxipng", "7"]), true).unwrap_err();
    assert_eq!(e, ValidationFailure::RangeError(OptionName::Oxipng));
}

#[test]
fn oxipng_and_zopfli_conflict() {
    let e = parse_with(&args(&["indir", "out.png", "--oxipng", "2", "--zopfli", "5"]), true)
        .unwrap_err();
    assert_eq!(
        e,
        ValidationFailure::GroupConflictError(OptionName::Oxipng, OptionName::Zopfli)
    );
}

#[test]
fn zopfli_zero_fails_one_succeeds() {
    let e = parse_with(&args(&["indir", "out.png", "--zopfli", "0"]), true).unwrap_err();
    assert_eq!(e, ValidationFailure::RangeError(OptionName::Zopfli));
    let cli = parse_with(&args(&["indir", "out.png", "--zopfli", "1"]), true).unwrap();
    assert_eq!(cli.zopfli, Some(1));
}

#[test]
fn include_center_requires_crop() {
    let e = parse_with(&args(&["indir", "out.png", "--include-center"]), true).unwrap_err();
    assert_eq!(
        e,
        ValidationFailure::DependencyError(OptionName::IncludeCenter, OptionName::Crop)
    );
    let cli = parse_with(&args(&["indir", "out.png", "--include-center", "--crop"]), true)
        .unwrap();
    assert!(cli.include_center);
    assert!(cli.crop);
}

#[test]
fn spacing_value_is_recorded() {
    let cli = parse_with(&args(&["indir", "out.png", "--spacing", "4"]), true).unwrap();
    assert_eq!(cli.spacing, 4);
    let e = parse_with(&args(&["indir", "out.png", "--spacing", "wide"]), true).unwrap_err();
    assert_eq!(e, ValidationFailure::ParseError(OptionName::Spacing));
}

#[test]
fn boolean_flags_are_recorded() {
    let cli = parse_with(
        &args(&[
            "indir",
            "out.png",
            "--unique",
            "--recursive",
            "--crop",
            "--sdf",
            "--simple-index-file",
            "--minify-index-file",
        ]),
        true,
    )
    .unwrap();
    assert!(cli.unique);
    assert!(cli.recursive);
    assert!(cli.crop);
    assert!(cli.sdf);
    assert!(cli.simple_index_file);
    assert!(cli.minify_index_file);
    let cli = parse_with(&args(&["indir", "out.png", "-m"]), true).unwrap();
    assert!(cli.minify_index_file);
}

#[test]
fn options_may_precede_positionals() {
    let cli = parse_with(&args(&["--crop", "indir", "--spacing", "2", "out.png"]), true)
        .unwrap();
    assert_eq!(cli.input, "indir");
    assert_eq!(cli.output, "out.png");
    assert!(cli.crop);
    assert_eq!(cli.spacing, 2);
}

#[test]
fn unknown_option_is_rejected() {
    let e = parse_with(&args(&["indir", "out.png", "--bogus"]), true).unwrap_err();
    assert_eq!(e, ValidationFailure::UnknownOptionError);
}

#[test]
fn missing_value_is_rejected() {
    let e = parse_with(&args(&["indir", "out.png", "--ratio"]), true).unwrap_err();
    assert_eq!(e, ValidationFailure::MissingValueError(OptionName::Ratio));
}

#[test]
fn duplicate_option_is_rejected() {
    let e = parse_with(&args(&["indir", "out.png", "--crop", "--crop"]), true).unwrap_err();
    assert_eq!(e, ValidationFailure::DuplicateOptionError(OptionName::Crop));
    let e = parse_with(&args(&["indir", "out.png", "-r", "2", "--ratio", "3"]), true)
        .unwrap_err();
    assert_eq!(e, ValidationFailure::DuplicateOptionError(OptionName::Ratio));
}

#[test]
fn missing_positionals_are_rejected() {
    let e = parse_with(&args(&[]), true).unwrap_err();
    assert_eq!(e, ValidationFailure::MissingPositionalError(OptionName::Input));
    let e = parse_with(&args(&["indir"]), true).unwrap_err();
    assert_eq!(e, ValidationFailure::MissingPositionalError(OptionName::Output));
}

#[test]
fn extra_positional_is_rejected() {
    let e = parse_with(&args(&["indir", "out.png", "stray"]), true).unwrap_err();
    assert_eq!(e, ValidationFailure::ExtraPositionalError);
}

#[test]
fn bad_value_reported_before_group_conflict() {
    // A non-numeric ratio surfaces as its own parse error, not as a
    // spurious conflict with the retina flag that follows it.
    let e = parse_with(&args(&["indir", "out.png", "--ratio", "x", "--retina"]), true)
        .unwrap_err();
    assert_eq!(e, ValidationFailure::ParseError(OptionName::Ratio));
}

#[test]
fn nonexistent_directory_is_path_error() {
    let e = parse_with(&args(&["indir", "out.png"]), false).unwrap_err();
    assert_eq!(e, ValidationFailure::PathError);
}

#[test]
fn parse_with_is_deterministic() {
    let v = args(&["indir", "out.png", "--retina", "--crop", "--oxipng", "3"]);
    let first = parse_with(&v, true).unwrap();
    let second = parse_with(&v, true).unwrap();
    assert!(first == second);
}
