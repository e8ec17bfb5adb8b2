//! Classification of raw argument tokens.
//!
//! A token either names one of the recognized options, looks like an option
//! but is not recognized, or is a positional value. [`spec_classify`] fixes
//! the classification; [`classify`] computes it.

use vstd::prelude::*;
use vstd::string::StrSliceExecFns;

verus! {

/// The kind of a single argument token.
#[derive(Clone, Copy, Debug, PartialEq, Eq, Structural)]
pub enum Token {
    /// `-r` or `--ratio`; takes a value.
    OptRatio,
    /// `--retina`.
    FlagRetina,
    /// `--unique`.
    FlagUnique,
    /// `--recursive`.
    FlagRecursive,
    /// `--crop`.
    FlagCrop,
    /// `--include-center`.
    FlagIncludeCenter,
    /// `--spacing`; takes a value.
    OptSpacing,
    /// `--oxipng`; takes a value.
    OptOxipng,
    /// `--zopfli`; takes a value.
    OptZopfli,
    /// `-m` or `--minify-index-file`.
    FlagMinifyIndexFile,
    /// `--simple-index-file`.
    FlagSimpleIndexFile,
    /// `--sdf`.
    FlagSdf,
    /// Starts with `-` but is none of the recognized options.
    Unknown,
    /// A positional value (also a lone `-`).
    Positional,
}

/// The classification of the token `t`, checked against each recognized
/// option name in turn.
pub open spec fn spec_classify(t: Seq<char>) -> Token {
    if t == "-r"@ || t == "--ratio"@ {
        Token::OptRatio
    } else if t == "--retina"@ {
        Token::FlagRetina
    } else if t == "--unique"@ {
        Token::FlagUnique
    } else if t == "--recursive"@ {
        Token::FlagRecursive
    } else if t == "--crop"@ {
        Token::FlagCrop
    } else if t == "--include-center"@ {
        Token::FlagIncludeCenter
    } else if t == "--spacing"@ {
        Token::OptSpacing
    } else if t == "--oxipng"@ {
        Token::OptOxipng
    } else if t == "--zopfli"@ {
        Token::OptZopfli
    } else if t == "-m"@ || t == "--minify-index-file"@ {
        Token::FlagMinifyIndexFile
    } else if t == "--simple-index-file"@ {
        Token::FlagSimpleIndexFile
    } else if t == "--sdf"@ {
        Token::FlagSdf
    } else if t.len() >= 2 && t[0] == '-' {
        Token::Unknown
    } else {
        Token::Positional
    }
}

/// Character-by-character string comparison.
pub fn str_eq(a: &str, b: &str) -> (r: bool)
    ensures
        r == (a@ == b@),
{
    let na: usize = a.unicode_len();
    let nb: usize = b.unicode_len();
    if na != nb {
        return false;
    }
    let mut i: usize = 0;
    while i < na
        invariant
            na == a@.len(),
            na == b@.len(),
            0 <= i <= na,
            forall|j: int| 0 <= j < i ==> a@[j] == b@[j],
        decreases na - i,
    {
        if a.get_char(i) != b.get_char(i) {
            return false;
        }
        i = i + 1;
    }
    proof {
        assert(a@ =~= b@);
    }
    true
}

/// Classifies the token `t` per [`spec_classify`].
pub fn classify(t: &str) -> (k: Token)
    ensures
        k == spec_classify(t@),
{
    if str_eq(t, "-r") || str_eq(t, "--ratio") {
        Token::OptRatio
    } else if str_eq(t, "--retina") {
        Token::FlagRetina
    } else if str_eq(t, "--unique") {
        Token::FlagUnique
    } else if str_eq(t, "--recursive") {
        Token::FlagRecursive
    } else if str_eq(t, "--crop") {
        Token::FlagCrop
    } else if str_eq(t, "--include-center") {
        Token::FlagIncludeCenter
    } else if str_eq(t, "--spacing") {
        Token::OptSpacing
    } else if str_eq(t, "--oxipng") {
        Token::OptOxipng
    } else if str_eq(t, "--zopfli") {
        Token::OptZopfli
    } else if str_eq(t, "-m") || str_eq(t, "--minify-index-file") {
        Token::FlagMinifyIndexFile
    } else if str_eq(t, "--simple-index-file") {
        Token::FlagSimpleIndexFile
    } else if str_eq(t, "--sdf") {
        Token::FlagSdf
    } else {
        let n: usize = t.unicode_len();
        if n >= 2 && t.get_char(0) == '-' {
            Token::Unknown
        } else {
            Token::Positional
        }
    }
}

} // verus!
