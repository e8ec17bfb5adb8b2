//! Per-field validators.
//!
//! Each validator is a pure function from a raw string to a typed value or
//! a message naming the broken rule, exactly as [`crate::numbers`] fixes the
//! integer grammar. The directory check is the one point where the library
//! touches the filesystem, behind [`check_dir`]'s pure core.

use vstd::prelude::*;
use crate::numbers::{parse_u8, spec_parse_u8};

verus! {

/// Validates that a string parses as an unsigned integer greater than zero
/// (used for the pixel ratio and the zopfli iteration count).
pub fn is_positive(s: &str) -> (r: Result<u8, String>)
    ensures
        match spec_parse_u8(s@) {
            Some(v) => if v > 0 {
                r == Ok::<u8, String>(v)
            } else {
                r matches Err(m) && m@ == "must be greater than zero"@
            },
            None => r matches Err(m) && m@ == "must be an unsigned integer"@,
        },
{
    match parse_u8(s) {
        Option::None => Err("must be an unsigned integer".to_owned()),
        Option::Some(v) => {
            if v > 0 {
                Ok(v)
            } else {
                Err("must be greater than zero".to_owned())
            }
        },
    }
}

/// Validates that a string parses as an unsigned integer (used for the
/// sprite spacing; the type itself excludes negative values, so only
/// non-numeric strings are rejected).
pub fn is_non_negative(s: &str) -> (r: Result<u8, String>)
    ensures
        match spec_parse_u8(s@) {
            Some(v) => r == Ok::<u8, String>(v),
            None => r matches Err(m) && m@ == "must be a non-negative number"@,
        },
{
    match parse_u8(s) {
        Option::None => Err("must be a non-negative number".to_owned()),
        Option::Some(v) => Ok(v),
    }
}

/// Validates that a string parses as an unsigned integer no more than 6
/// (used for the oxipng optimization level).
pub fn is_max_6(s: &str) -> (r: Result<u8, String>)
    ensures
        match spec_parse_u8(s@) {
            Some(v) => if v <= 6 {
                r == Ok::<u8, String>(v)
            } else {
                r matches Err(m) && m@ == "must be a number no more than 6"@
            },
            None => r matches Err(m) && m@ == "must be an unsigned integer"@,
        },
{
    match parse_u8(s) {
        Option::None => Err("must be an unsigned integer".to_owned()),
        Option::Some(v) => {
            if v <= 6 {
                Ok(v)
            } else {
                Err("must be a number no more than 6".to_owned())
            }
        },
    }
}

/// Relies on std::path::Path::is_dir: returns whether the path names a
/// directory that exists on disk at the moment of the call. The answer
/// depends on the filesystem, so nothing is promised of it.
#[verifier::external_body]
pub(crate) fn path_is_dir(p: &str) -> bool {
    std::path::Path::new(p).is_dir()
}

/// The pure core of the directory validator: accepts or rejects `p` given
/// the outcome `exists_dir` of the filesystem check.
pub fn check_dir(p: &str, exists_dir: bool) -> (r: Result<String, String>)
    ensures
        exists_dir ==> (r matches Ok(q) && q@ == p@),
        !exists_dir ==> (r matches Err(m) && m@ == "must be an existing directory"@),
{
    if exists_dir {
        Ok(p.to_owned())
    } else {
        Err("must be an existing directory".to_owned())
    }
}

/// Validates that a string names an existing directory. The result follows
/// the filesystem check per [`check_dir`].
pub fn is_dir(p: &str) -> (r: Result<String, String>)
    ensures
        r matches Ok(q) ==> q@ == p@,
        r matches Err(m) ==> m@ == "must be an existing directory"@,
{
    let exists_dir: bool = path_is_dir(p);
    check_dir(p, exists_dir)
}

} // verus!
