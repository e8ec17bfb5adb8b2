//! The argument scanner and the cross-field constraint checks.
//!
//! [`spec_parse`] fixes what any argument vector means: a left-to-right
//! scan collects each option at most once ([`spec_scan`]), then the
//! cross-field rules run in a fixed order ([`spec_finish`]) — missing
//! positionals, the directory check, the two mutual-exclusion groups, and
//! the `include-center`/`crop` dependency. [`parse`] computes it, touching
//! the filesystem only for the single directory-existence check.

use vstd::prelude::*;
use crate::cli::{Cli, CliView, OptionName, ValidationFailure};
use crate::numbers::{parse_u8, spec_parse_u8};
use crate::tokens::{classify, spec_classify, Token};
use crate::validate::path_is_dir;

verus! {

/// The options collected so far by a scan of the argument vector.
pub struct RawOptions {
    pub input: Option<String>,
    pub output: Option<String>,
    pub ratio: Option<u8>,
    pub retina: bool,
    pub unique: bool,
    pub recursive: bool,
    pub crop: bool,
    pub include_center: bool,
    pub spacing: Option<u8>,
    pub oxipng: Option<u8>,
    pub zopfli: Option<u8>,
    pub minify_index_file: bool,
    pub simple_index_file: bool,
    pub sdf: bool,
}

/// The mathematical value of a [`RawOptions`].
pub ghost struct ScanState {
    pub input: Option<Seq<char>>,
    pub output: Option<Seq<char>>,
    pub ratio: Option<u8>,
    pub retina: bool,
    pub unique: bool,
    pub recursive: bool,
    pub crop: bool,
    pub include_center: bool,
    pub spacing: Option<u8>,
    pub oxipng: Option<u8>,
    pub zopfli: Option<u8>,
    pub minify_index_file: bool,
    pub simple_index_file: bool,
    pub sdf: bool,
}

impl View for RawOptions {
    type V = ScanState;

    open spec fn view(&self) -> ScanState {
        ScanState {
            input: match self.input {
                Some(s) => Some(s@),
                None => None,
            },
            output: match self.output {
                Some(s) => Some(s@),
                None => None,
            },
            ratio: self.ratio,
            retina: self.retina,
            unique: self.unique,
            recursive: self.recursive,
            crop: self.crop,
            include_center: self.include_center,
            spacing: self.spacing,
            oxipng: self.oxipng,
            zopfli: self.zopfli,
            minify_index_file: self.minify_index_file,
            simple_index_file: self.simple_index_file,
            sdf: self.sdf,
        }
    }
}

/// The state a scan starts from: nothing supplied.
pub open spec fn init_scan_state() -> ScanState {
    ScanState {
        input: None,
        output: None,
        ratio: None,
        retina: false,
        unique: false,
        recursive: false,
        crop: false,
        include_center: false,
        spacing: None,
        oxipng: None,
        zopfli: None,
        minify_index_file: false,
        simple_index_file: false,
        sdf: false,
    }
}

/// One left-to-right scan of `args` from position `i` onward, starting in
/// state `st`. Each option may be supplied at most once; an option that
/// takes a value consumes the following token verbatim and validates it at
/// once, so a bad value surfaces as its own error before any cross-field
/// rule runs.
pub open spec fn spec_scan(args: Seq<Seq<char>>, i: int, st: ScanState) -> Result<
    ScanState,
    ValidationFailure,
>
    decreases args.len() - i,
{
    if i < 0 || i >= args.len() {
        Ok(st)
    } else {
        let t = args[i];
        match spec_classify(t) {
            Token::Positional => {
                if st.input is None {
                    spec_scan(args, i + 1, ScanState { input: Some(t), ..st })
                } else if st.output is None {
                    spec_scan(args, i + 1, ScanState { output: Some(t), ..st })
                } else {
                    Err(ValidationFailure::ExtraPositionalError)
                }
            },
            Token::Unknown => Err(ValidationFailure::UnknownOptionError),
            Token::FlagRetina => {
                if st.retina {
                    Err(ValidationFailure::DuplicateOptionError(OptionName::Retina))
                } else {
                    spec_scan(args, i + 1, ScanState { retina: true, ..st })
                }
            },
            Token::FlagUnique => {
                if st.unique {
                    Err(ValidationFailure::DuplicateOptionError(OptionName::Unique))
                } else {
                    spec_scan(args, i + 1, ScanState { unique: true, ..st })
                }
            },
            Token::FlagRecursive => {
                if st.recursive {
                    Err(ValidationFailure::DuplicateOptionError(OptionName::Recursive))
                } else {
                    spec_scan(args, i + 1, ScanState { recursive: true, ..st })
                }
            },
            Token::FlagCrop => {
                if st.crop {
                    Err(ValidationFailure::DuplicateOptionError(OptionName::Crop))
                } else {
                    spec_scan(args, i + 1, ScanState { crop: true, ..st })
                }
            },
            Token::FlagIncludeCenter => {
                if st.include_center {
                    Err(ValidationFailure::DuplicateOptionError(OptionName::IncludeCenter))
                } else {
                    spec_scan(args, i + 1, ScanState { include_center: true, ..st })
                }
            },
            Token::FlagMinifyIndexFile => {
                if st.minify_index_file {
                    Err(ValidationFailure::DuplicateOptionError(OptionName::MinifyIndexFile))
                } else {
                    spec_scan(args, i + 1, ScanState { minify_index_file: true, ..st })
                }
            },
            Token::FlagSimpleIndexFile => {
                if st.simple_index_file {
                    Err(ValidationFailure::DuplicateOptionError(OptionName::SimpleIndexFile))
                } else {
                    spec_scan(args, i + 1, ScanState { simple_index_file: true, ..st })
                }
            },
            Token::FlagSdf => {
                if st.sdf {
                    Err(ValidationFailure::DuplicateOptionError(OptionName::Sdf))
                } else {
                    spec_scan(args, i + 1, ScanState { sdf: true, ..st })
                }
            },
            Token::OptRatio => {
                if st.ratio is Some {
                    Err(ValidationFailure::DuplicateOptionError(OptionName::Ratio))
                } else if i + 1 >= args.len() {
                    Err(ValidationFailure::MissingValueError(OptionName::Ratio))
                } else {
                    match spec_parse_u8(args[i + 1]) {
                        None => Err(ValidationFailure::ParseError(OptionName::Ratio)),
                        Some(v) => {
                            if v == 0 {
                                Err(ValidationFailure::RangeError(OptionName::Ratio))
                            } else {
                                spec_scan(args, i + 2, ScanState { ratio: Some(v), ..st })
                            }
                        },
                    }
                }
            },
            Token::OptSpacing => {
                if st.spacing is Some {
                    Err(ValidationFailure::DuplicateOptionError(OptionName::Spacing))
                } else if i + 1 >= args.len() {
                    Err(ValidationFailure::MissingValueError(OptionName::Spacing))
                } else {
                    match spec_parse_u8(args[i + 1]) {
                        None => Err(ValidationFailure::ParseError(OptionName::Spacing)),
                        Some(v) => spec_scan(args, i + 2, ScanState { spacing: Some(v), ..st }),
                    }
                }
            },
            Token::OptOxipng => {
                if st.oxipng is Some {
                    Err(ValidationFailure::DuplicateOptionError(OptionName::Oxipng))
                } else if i + 1 >= args.len() {
                    Err(ValidationFailure::MissingValueError(OptionName::Oxipng))
                } else {
                    match spec_parse_u8(args[i + 1]) {
                        None => Err(ValidationFailure::ParseError(OptionName::Oxipng)),
                        Some(v) => {
                            if v > 6 {
                                Err(ValidationFailure::RangeError(OptionName::Oxipng))
                            } else {
                                spec_scan(args, i + 2, ScanState { oxipng: Some(v), ..st })
                            }
                        },
                    }
                }
            },
            Token::OptZopfli => {
                if st.zopfli is Some {
                    Err(ValidationFailure::DuplicateOptionError(OptionName::Zopfli))
                } else if i + 1 >= args.len() {
                    Err(ValidationFailure::MissingValueError(OptionName::Zopfli))
                } else {
                    match spec_parse_u8(args[i + 1]) {
                        None => Err(ValidationFailure::ParseError(OptionName::Zopfli)),
                        Some(v) => {
                            if v == 0 {
                                Err(ValidationFailure::RangeError(OptionName::Zopfli))
                            } else {
                                spec_scan(args, i + 2, ScanState { zopfli: Some(v), ..st })
                            }
                        },
                    }
                }
            },
        }
    }
}

/// The cross-field rules, run on a completed scan in a fixed order: both
/// positionals must be present, the input must name an existing directory,
/// `ratio`/`retina` and `oxipng`/`zopfli` are mutually exclusive, and
/// `include-center` requires `crop`. On success the configuration is
/// assembled with its defaults (ratio 1, spacing 0).
pub open spec fn spec_finish(st: ScanState, input_is_dir: bool) -> Result<
    CliView,
    ValidationFailure,
> {
    if st.input is None {
        Err(ValidationFailure::MissingPositionalError(OptionName::Input))
    } else if st.output is None {
        Err(ValidationFailure::MissingPositionalError(OptionName::Output))
    } else if !input_is_dir {
        Err(ValidationFailure::PathError)
    } else if st.ratio is Some && st.retina {
        Err(ValidationFailure::GroupConflictError(OptionName::Ratio, OptionName::Retina))
    } else if st.oxipng is Some && st.zopfli is Some {
        Err(ValidationFailure::GroupConflictError(OptionName::Oxipng, OptionName::Zopfli))
    } else if st.include_center && !st.crop {
        Err(ValidationFailure::DependencyError(OptionName::IncludeCenter, OptionName::Crop))
    } else {
        Ok(
            CliView {
                input: st.input.unwrap(),
                output: st.output.unwrap(),
                ratio: if st.ratio is Some {
                    st.ratio.unwrap()
                } else {
                    1
                },
                retina: st.retina,
                unique: st.unique,
                recursive: st.recursive,
                crop: st.crop,
                include_center: st.include_center,
                spacing: if st.spacing is Some {
                    st.spacing.unwrap()
                } else {
                    0
                },
                oxipng: st.oxipng,
                zopfli: st.zopfli,
                minify_index_file: st.minify_index_file,
                simple_index_file: st.simple_index_file,
                sdf: st.sdf,
            },
        )
    }
}

/// What parsing an argument vector means, given the one filesystem
/// observation `input_is_dir`: the scan followed by the cross-field rules.
pub open spec fn spec_parse(args: Seq<Seq<char>>, input_is_dir: bool) -> Result<
    CliView,
    ValidationFailure,
> {
    match spec_scan(args, 0, init_scan_state()) {
        Ok(st) => spec_finish(st, input_is_dir),
        Err(e) => Err(e),
    }
}

/// The value of a scan result: the collected options, or the failure.
pub open spec fn scan_result_view(r: Result<RawOptions, ValidationFailure>) -> Result<
    ScanState,
    ValidationFailure,
> {
    match r {
        Ok(raw) => Ok(raw@),
        Err(e) => Err(e),
    }
}

/// The value of a parse result: the configuration, or the failure.
pub open spec fn cli_result_view(r: Result<Cli, ValidationFailure>) -> Result<
    CliView,
    ValidationFailure,
> {
    match r {
        Ok(c) => Ok(c@),
        Err(e) => Err(e),
    }
}

/// Scans the whole argument vector, collecting each option at most once,
/// per [`spec_scan`].
pub fn parse_tokens(args: &Vec<String>) -> (r: Result<RawOptions, ValidationFailure>)
    ensures
        scan_result_view(r) == spec_scan(args.deep_view(), 0, init_scan_state()),
{
    let ghost v: Seq<Seq<char>> = args.deep_view();
    let n: usize = args.len();
    let mut cur = RawOptions {
        input: None,
        output: None,
        ratio: None,
        retina: false,
        unique: false,
        recursive: false,
        crop: false,
        include_center: false,
        spacing: None,
        oxipng: None,
        zopfli: None,
        minify_index_file: false,
        simple_index_file: false,
        sdf: false,
    };
    let mut i: usize = 0;
    while i < n
        invariant
            n == args.len(),
            v == args.deep_view(),
            0 <= i <= n,
            spec_scan(v, i as int, cur@) == spec_scan(v, 0, init_scan_state()),
        decreases n - i,
    {
        let tok: &String = &args[i];
        proof {
            assert(tok@ == v[i as int]);
        }
        let kind = classify(tok.as_str());
        match kind {
            Token::Positional => {
                if cur.input.is_none() {
                    cur.input = Some(tok.clone());
                    i = i + 1;
                } else if cur.output.is_none() {
                    cur.output = Some(tok.clone());
                    i = i + 1;
                } else {
                    return Err(ValidationFailure::ExtraPositionalError);
                }
            },
            Token::Unknown => {
                return Err(ValidationFailure::UnknownOptionError);
            },
            Token::FlagRetina => {
                if cur.retina {
                    return Err(ValidationFailure::DuplicateOptionError(OptionName::Retina));
                }
                cur.retina = true;
                i = i + 1;
            },
            Token::FlagUnique => {
                if cur.unique {
                    return Err(ValidationFailure::DuplicateOptionError(OptionName::Unique));
                }
                cur.unique = true;
                i = i + 1;
            },
            Token::FlagRecursive => {
                if cur.recursive {
                    return Err(ValidationFailure::DuplicateOptionError(OptionName::Recursive));
                }
                cur.recursive = true;
                i = i + 1;
            },
            Token::FlagCrop => {
                if cur.crop {
                    return Err(ValidationFailure::DuplicateOptionError(OptionName::Crop));
                }
                cur.crop = true;
                i = i + 1;
            },
            Token::FlagIncludeCenter => {
                if cur.include_center {
                    return Err(ValidationFailure::DuplicateOptionError(OptionName::IncludeCenter));
                }
                cur.include_center = true;
                i = i + 1;
            },
            Token::FlagMinifyIndexFile => {
                if cur.minify_index_file {
                    return Err(
                        ValidationFailure::DuplicateOptionError(OptionName::MinifyIndexFile),
                    );
                }
                cur.minify_index_file = true;
                i = i + 1;
            },
            Token::FlagSimpleIndexFile => {
                if cur.simple_index_file {
                    return Err(
                        ValidationFailure::DuplicateOptionError(OptionName::SimpleIndexFile),
                    );
                }
                cur.simple_index_file = true;
                i = i + 1;
            },
            Token::FlagSdf => {
                if cur.sdf {
                    return Err(ValidationFailure::DuplicateOptionError(OptionName::Sdf));
                }
                cur.sdf = true;
                i = i + 1;
            },
            Token::OptRatio => {
                if cur.ratio.is_some() {
                    return Err(ValidationFailure::DuplicateOptionError(OptionName::Ratio));
                }
                if i + 1 >= n {
                    return Err(ValidationFailure::MissingValueError(OptionName::Ratio));
                }
                proof {
                    assert(args[i + 1 as int]@ == v[i + 1]);
                }
                match parse_u8(args[i + 1].as_str()) {
                    Option::None => {
                        return Err(ValidationFailure::ParseError(OptionName::Ratio));
                    },
                    Option::Some(value) => {
                        if value == 0 {
                            return Err(ValidationFailure::RangeError(OptionName::Ratio));
                        }
                        cur.ratio = Some(value);
                        i = i + 2;
                    },
                }
            },
            Token::OptSpacing => {
                if cur.spacing.is_some() {
                    return Err(ValidationFailure::DuplicateOptionError(OptionName::Spacing));
                }
                if i + 1 >= n {
                    return Err(ValidationFailure::MissingValueError(OptionName::Spacing));
                }
                proof {
                    assert(args[i + 1 as int]@ == v[i + 1]);
                }
                match parse_u8(args[i + 1].as_str()) {
                    Option::None => {
                        return Err(ValidationFailure::ParseError(OptionName::Spacing));
                    },
                    Option::Some(value) => {
                        cur.spacing = Some(value);
                        i = i + 2;
                    },
                }
            },
            Token::OptOxipng => {
                if cur.oxipng.is_some() {
                    return Err(ValidationFailure::DuplicateOptionError(OptionName::Oxipng));
                }
                if i + 1 >= n {
                    return Err(ValidationFailure::MissingValueError(OptionName::Oxipng));
                }
                proof {
                    assert(args[i + 1 as int]@ == v[i + 1]);
                }
                match parse_u8(args[i + 1].as_str()) {
                    Option::None => {
                        return Err(ValidationFailure::ParseError(OptionName::Oxipng));
                    },
                    Option::Some(value) => {
                        if value > 6 {
                            return Err(ValidationFailure::RangeError(OptionName::Oxipng));
                        }
                        cur.oxipng = Some(value);
                        i = i + 2;
                    },
                }
            },
            Token::OptZopfli => {
                if cur.zopfli.is_some() {
                    return Err(ValidationFailure::DuplicateOptionError(OptionName::Zopfli));
                }
                if i + 1 >= n {
                    return Err(ValidationFailure::MissingValueError(OptionName::Zopfli));
                }
                proof {
                    assert(args[i + 1 as int]@ == v[i + 1]);
                }
                match parse_u8(args[i + 1].as_str()) {
                    Option::None => {
                        return Err(ValidationFailure::ParseError(OptionName::Zopfli));
                    },
                    Option::Some(value) => {
                        if value == 0 {
                            return Err(ValidationFailure::RangeError(OptionName::Zopfli));
                        }
                        cur.zopfli = Some(value);
                        i = i + 2;
                    },
                }
            },
        }
    }
    Ok(cur)
}

/// Runs the cross-field rules on a completed scan, per [`spec_finish`].
pub fn finish_options(raw: RawOptions, input_is_dir: bool) -> (r: Result<Cli, ValidationFailure>)
    ensures
        cli_result_view(r) == spec_finish(raw@, input_is_dir),
{
    let RawOptions {
        input,
        output,
        ratio,
        retina,
        unique,
        recursive,
        crop,
        include_center,
        spacing,
        oxipng,
        zopfli,
        minify_index_file,
        simple_index_file,
        sdf,
    } = raw;
    if input.is_none() {
        return Err(ValidationFailure::MissingPositionalError(OptionName::Input));
    }
    if output.is_none() {
        return Err(ValidationFailure::MissingPositionalError(OptionName::Output));
    }
    if !input_is_dir {
        return Err(ValidationFailure::PathError);
    }
    if ratio.is_some() && retina {
        return Err(ValidationFailure::GroupConflictError(OptionName::Ratio, OptionName::Retina));
    }
    if oxipng.is_some() && zopfli.is_some() {
        return Err(ValidationFailure::GroupConflictError(OptionName::Oxipng, OptionName::Zopfli));
    }
    if include_center && !crop {
        return Err(
            ValidationFailure::DependencyError(OptionName::IncludeCenter, OptionName::Crop),
        );
    }
    let ratio_value: u8 = match ratio {
        Option::Some(v) => v,
        Option::None => 1,
    };
    let spacing_value: u8 = match spacing {
        Option::Some(v) => v,
        Option::None => 0,
    };
    Ok(
        Cli {
            input: input.unwrap(),
            output: output.unwrap(),
            ratio: ratio_value,
            retina,
            unique,
            recursive,
            crop,
            include_center,
            spacing: spacing_value,
            oxipng,
            zopfli,
            minify_index_file,
            simple_index_file,
            sdf,
        },
    )
}

/// Parses an argument vector given the one filesystem observation, per
/// [`spec_parse`]. A pure function: equal arguments and an equal
/// observation give an equal result.
pub fn parse_with(args: &Vec<String>, input_is_dir: bool) -> (r: Result<Cli, ValidationFailure>)
    ensures
        cli_result_view(r) == spec_parse(args.deep_view(), input_is_dir),
        r matches Ok(c) ==> c@.wf(),
{
    proof {
        crate::laws::lemma_parse_ok_wf(args.deep_view(), input_is_dir);
    }
    match parse_tokens(args) {
        Ok(raw) => finish_options(raw, input_is_dir),
        Err(e) => Err(e),
    }
}

/// Parses an argument vector (excluding the program name), checking the
/// input directory on the filesystem. Apart from the outcome of that one
/// read-only check, the result is fixed by [`spec_parse`].
pub fn parse(args: &Vec<String>) -> (r: Result<Cli, ValidationFailure>)
    ensures
        exists|b: bool| cli_result_view(r) == spec_parse(args.deep_view(), b),
        !(r matches Err(e) && e == ValidationFailure::PathError) ==> cli_result_view(r)
            == spec_parse(args.deep_view(), true),
        (r matches Err(e) && e == ValidationFailure::PathError) ==> spec_parse(
            args.deep_view(),
            false,
        ) == Err::<CliView, ValidationFailure>(ValidationFailure::PathError),
        r matches Ok(c) ==> c@.wf(),
{
    proof {
        crate::laws::lemma_parse_ok_wf(args.deep_view(), true);
        crate::laws::lemma_parse_ok_wf(args.deep_view(), false);
    }
    match parse_tokens(args) {
        Ok(raw) => {
            let input_is_dir: bool = match &raw.input {
                Option::Some(p) => path_is_dir(p.as_str()),
                Option::None => false,
            };
            let r = finish_options(raw, input_is_dir);
            proof {
                assert(cli_result_view(r) == spec_parse(args.deep_view(), input_is_dir));
            }
            r
        },
        Err(e) => {
            proof {
                assert(spec_parse(args.deep_view(), true) == Err::<CliView, ValidationFailure>(e));
                assert(spec_parse(args.deep_view(), false) == Err::<CliView, ValidationFailure>(e));
            }
            Err(e)
        },
    }
}

} // verus!
