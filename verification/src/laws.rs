//! The library's laws: properties of [`crate::parse::spec_parse`] that hold
//! of every argument vector, proved once and for all.

use vstd::prelude::*;
use crate::cli::{CliView, OptionName, ValidationFailure};
use crate::numbers::spec_parse_u8;
use crate::parse::{init_scan_state, spec_finish, spec_parse, spec_scan, ScanState};
use crate::tokens::{spec_classify, Token};

verus! {

/// The numeric bounds a scan enforces on the options it collects.
pub open spec fn scan_bounds(st: ScanState) -> bool {
    &&& (st.ratio matches Some(v) ==> v >= 1)
    &&& (st.oxipng matches Some(v) ==> v <= 6)
    &&& (st.zopfli matches Some(v) ==> v >= 1)
}

/// A scan only ever accepts option values within their declared bounds: a
/// positive ratio, an oxipng level of at most 6, at least one zopfli
/// iteration.
#[verifier::rlimit(50)]
pub proof fn lemma_scan_bounds(args: Seq<Seq<char>>, i: int, st: ScanState)
    requires
        scan_bounds(st),
    ensures
        spec_scan(args, i, st) matches Ok(st2) ==> scan_bounds(st2),
    decreases args.len() - i,
{
    if 0 <= i < args.len() {
        match spec_classify(args[i]) {
            Token::Positional => {
                if st.input is None {
                    lemma_scan_bounds(args, i + 1, ScanState { input: Some(args[i]), ..st });
                } else if st.output is None {
                    lemma_scan_bounds(args, i + 1, ScanState { output: Some(args[i]), ..st });
                }
            },
            Token::Unknown => {},
            Token::FlagRetina => {
                if !st.retina {
                    lemma_scan_bounds(args, i + 1, ScanState { retina: true, ..st });
                }
            },
            Token::FlagUnique => {
                if !st.unique {
                    lemma_scan_bounds(args, i + 1, ScanState { unique: true, ..st });
                }
            },
            Token::FlagRecursive => {
                if !st.recursive {
                    lemma_scan_bounds(args, i + 1, ScanState { recursive: true, ..st });
                }
            },
            Token::FlagCrop => {
                if !st.crop {
                    lemma_scan_bounds(args, i + 1, ScanState { crop: true, ..st });
                }
            },
            Token::FlagIncludeCenter => {
                if !st.include_center {
                    lemma_scan_bounds(args, i + 1, ScanState { include_center: true, ..st });
                }
            },
            Token::FlagMinifyIndexFile => {
                if !st.minify_index_file {
                    lemma_scan_bounds(args, i + 1, ScanState { minify_index_file: true, ..st });
                }
            },
            Token::FlagSimpleIndexFile => {
                if !st.simple_index_file {
                    lemma_scan_bounds(args, i + 1, ScanState { simple_index_file: true, ..st });
                }
            },
            Token::FlagSdf => {
                if !st.sdf {
                    lemma_scan_bounds(args, i + 1, ScanState { sdf: true, ..st });
                }
            },
            Token::OptRatio => {
                if st.ratio is None && i + 1 < args.len() && spec_parse_u8(args[i + 1]) is Some {
                    let v = spec_parse_u8(args[i + 1]).unwrap();
                    if v != 0 {
                        lemma_scan_bounds(args, i + 2, ScanState { ratio: Some(v), ..st });
                    }
                }
            },
            Token::OptSpacing => {
                if st.spacing is None && i + 1 < args.len() && spec_parse_u8(args[i + 1]) is Some {
                    let v = spec_parse_u8(args[i + 1]).unwrap();
                    lemma_scan_bounds(args, i + 2, ScanState { spacing: Some(v), ..st });
                }
            },
            Token::OptOxipng => {
                if st.oxipng is None && i + 1 < args.len() && spec_parse_u8(args[i + 1]) is Some {
                    let v = spec_parse_u8(args[i + 1]).unwrap();
                    if v <= 6 {
                        lemma_scan_bounds(args, i + 2, ScanState { oxipng: Some(v), ..st });
                    }
                }
            },
            Token::OptZopfli => {
                if st.zopfli is None && i + 1 < args.len() && spec_parse_u8(args[i + 1]) is Some {
                    let v = spec_parse_u8(args[i + 1]).unwrap();
                    if v != 0 {
                        lemma_scan_bounds(args, i + 2, ScanState { zopfli: Some(v), ..st });
                    }
                }
            },
        }
    }
}

/// Every successfully parsed configuration satisfies the configuration
/// invariants [`CliView::wf`]: positive ratio that stays at its default
/// under `retina`, `include-center` only with `crop`, at most one
/// optimization level, and every numeric field within its bound.
pub proof fn lemma_parse_ok_wf(args: Seq<Seq<char>>, input_is_dir: bool)
    ensures
        spec_parse(args, input_is_dir) matches Ok(c) ==> c.wf(),
{
    lemma_scan_bounds(args, 0, init_scan_state());
}

/// Whatever order the options were given in: a scan that collected both an
/// explicit ratio and `--retina` fails with the group conflict naming the
/// two of them, never with anything else.
pub proof fn lemma_ratio_retina_conflict(st: ScanState)
    requires
        st.input is Some,
        st.output is Some,
        st.ratio is Some,
        st.retina,
    ensures
        spec_finish(st, true) == Err::<CliView, ValidationFailure>(
            ValidationFailure::GroupConflictError(OptionName::Ratio, OptionName::Retina),
        ),
{
}

/// Whatever order the options were given in: a scan that collected both an
/// oxipng level and a zopfli iteration count fails with the group conflict
/// naming the two of them (the pixel-ratio group, checked first, being
/// satisfied).
pub proof fn lemma_optimization_conflict(st: ScanState)
    requires
        st.input is Some,
        st.output is Some,
        !(st.ratio is Some && st.retina),
        st.oxipng is Some,
        st.zopfli is Some,
    ensures
        spec_finish(st, true) == Err::<CliView, ValidationFailure>(
            ValidationFailure::GroupConflictError(OptionName::Oxipng, OptionName::Zopfli),
        ),
{
}

/// A scan that collected `--include-center` without `--crop` fails with
/// the dependency error naming the missing prerequisite (both groups,
/// checked first, being satisfied).
pub proof fn lemma_include_center_dependency(st: ScanState)
    requires
        st.input is Some,
        st.output is Some,
        !(st.ratio is Some && st.retina),
        !(st.oxipng is Some && st.zopfli is Some),
        st.include_center,
        !st.crop,
    ensures
        spec_finish(st, true) == Err::<CliView, ValidationFailure>(
            ValidationFailure::DependencyError(OptionName::IncludeCenter, OptionName::Crop),
        ),
{
}

/// Parsing is a pure function of the argument vector and the single
/// directory-existence observation: two runs of `parse` that see the same
/// arguments and the same filesystem answer yield results equal in every
/// field.
pub proof fn lemma_parse_idempotent(
    args: Seq<Seq<char>>,
    input_is_dir: bool,
    r1: Result<CliView, ValidationFailure>,
    r2: Result<CliView, ValidationFailure>,
)
    requires
        r1 == spec_parse(args, input_is_dir),
        r2 == spec_parse(args, input_is_dir),
    ensures
        r1 == r2,
{
}

/// The invocation `input output --ratio N`.
pub open spec fn ratio_invocation(inp: Seq<char>, outp: Seq<char>, s: Seq<char>) -> Seq<
    Seq<char>,
> {
    seq![inp, outp, "--ratio"@, s]
}

/// The pixel-ratio rule, for every value string: a non-numeric value fails
/// as a parse error, zero fails as a range error, and any positive value N
/// succeeds with effective ratio N.
pub proof fn lemma_ratio_rule(inp: Seq<char>, outp: Seq<char>, s: Seq<char>)
    requires
        spec_classify(inp) is Positional,
        spec_classify(outp) is Positional,
    ensures
        spec_parse_u8(s) is None ==> spec_parse(ratio_invocation(inp, outp, s), true)
            == Err::<CliView, ValidationFailure>(ValidationFailure::ParseError(OptionName::Ratio)),
        (spec_parse_u8(s) matches Some(v) && v == 0) ==> spec_parse(
            ratio_invocation(inp, outp, s),
            true,
        ) == Err::<CliView, ValidationFailure>(ValidationFailure::RangeError(OptionName::Ratio)),
        (spec_parse_u8(s) matches Some(v) && v > 0) ==> (spec_parse(
            ratio_invocation(inp, outp, s),
            true,
        ) matches Ok(c) && c.ratio == spec_parse_u8(s).unwrap() && c.spec_pixel_ratio()
            == spec_parse_u8(s).unwrap() && !c.retina),
{
    let args = ratio_invocation(inp, outp, s);
    let st0 = init_scan_state();
    let st1 = ScanState { input: Some(inp), ..st0 };
    let st2 = ScanState { output: Some(outp), ..st1 };
    assert(args.len() == 4);
    assert(args[0] == inp);
    assert(args[1] == outp);
    assert(args[2] == "--ratio"@);
    assert(args[3] == s);
    assert(spec_classify("--ratio"@) == Token::OptRatio);
    assert(spec_scan(args, 0, st0) == spec_scan(args, 1, st1));
    assert(spec_scan(args, 1, st1) == spec_scan(args, 2, st2));
    if spec_parse_u8(s) is None {
        assert(spec_scan(args, 2, st2) == Err::<ScanState, ValidationFailure>(
            ValidationFailure::ParseError(OptionName::Ratio),
        ));
    } else {
        let v = spec_parse_u8(s).unwrap();
        if v == 0 {
            assert(spec_scan(args, 2, st2) == Err::<ScanState, ValidationFailure>(
                ValidationFailure::RangeError(OptionName::Ratio),
            ));
        } else {
            let st3 = ScanState { ratio: Some(v), ..st2 };
            assert(spec_scan(args, 2, st2) == spec_scan(args, 4, st3));
            assert(spec_scan(args, 4, st3) == Ok::<ScanState, ValidationFailure>(st3));
        }
    }
}

/// The minimal invocation `input output`: it succeeds, and every option
/// takes its default — ratio 1, no retina, spacing 0, nothing cropped or
/// deduplicated, no optimization level, a plain full index file, no SDF.
pub proof fn lemma_minimal_defaults(inp: Seq<char>, outp: Seq<char>)
    requires
        spec_classify(inp) is Positional,
        spec_classify(outp) is Positional,
    ensures
        spec_parse(seq![inp, outp], true) matches Ok(c) && c == (CliView {
            input: inp,
            output: outp,
            ratio: 1,
            retina: false,
            unique: false,
            recursive: false,
            crop: false,
            include_center: false,
            spacing: 0,
            oxipng: None,
            zopfli: None,
            minify_index_file: false,
            simple_index_file: false,
            sdf: false,
        }),
{
    let args: Seq<Seq<char>> = seq![inp, outp];
    let st0 = init_scan_state();
    let st1 = ScanState { input: Some(inp), ..st0 };
    let st2 = ScanState { output: Some(outp), ..st1 };
    assert(args.len() == 2);
    assert(args[0] == inp);
    assert(args[1] == outp);
    assert(spec_scan(args, 0, st0) == spec_scan(args, 1, st1));
    assert(spec_scan(args, 1, st1) == spec_scan(args, 2, st2));
    assert(spec_scan(args, 2, st2) == Ok::<ScanState, ValidationFailure>(st2));
}

/// `--include-center` without `--crop` fails with the dependency error;
/// together with `--crop` it succeeds, and both are recorded.
pub proof fn lemma_include_center_rule(inp: Seq<char>, outp: Seq<char>)
    requires
        spec_classify(inp) is Positional,
        spec_classify(outp) is Positional,
    ensures
        spec_parse(seq![inp, outp, "--include-center"@], true) == Err::<
            CliView,
            ValidationFailure,
        >(ValidationFailure::DependencyError(OptionName::IncludeCenter, OptionName::Crop)),
        spec_parse(seq![inp, outp, "--include-center"@, "--crop"@], true) matches Ok(c)
            && c.include_center && c.crop,
{
    reveal_strlit("-r");
    reveal_strlit("--ratio");
    reveal_strlit("--retina");
    reveal_strlit("--unique");
    reveal_strlit("--recursive");
    reveal_strlit("--crop");
    reveal_strlit("--include-center");
    assert("-r"@.len() == 2);
    assert("--ratio"@.len() == 7);
    assert("--retina"@.len() == 8);
    assert("--unique"@.len() == 8);
    assert("--recursive"@.len() == 11);
    assert("--crop"@.len() == 6);
    assert("--include-center"@.len() == 16);
    assert(spec_classify("--include-center"@) == Token::FlagIncludeCenter);
    assert(spec_classify("--crop"@) == Token::FlagCrop);
    let st0 = init_scan_state();

    let args1: Seq<Seq<char>> = seq![inp, outp, "--include-center"@];
    let st1 = ScanState { input: Some(inp), ..st0 };
    let st2 = ScanState { output: Some(outp), ..st1 };
    let st3 = ScanState { include_center: true, ..st2 };
    assert(args1.len() == 3);
    assert(args1[0] == inp);
    assert(args1[1] == outp);
    assert(args1[2] == "--include-center"@);
    assert(spec_scan(args1, 0, st0) == spec_scan(args1, 1, st1));
    assert(spec_scan(args1, 1, st1) == spec_scan(args1, 2, st2));
    assert(spec_scan(args1, 2, st2) == spec_scan(args1, 3, st3));
    assert(spec_scan(args1, 3, st3) == Ok::<ScanState, ValidationFailure>(st3));

    let args2: Seq<Seq<char>> = seq![inp, outp, "--include-center"@, "--crop"@];
    let st4 = ScanState { input: Some(inp), ..st0 };
    let st5 = ScanState { output: Some(outp), ..st4 };
    let st6 = ScanState { include_center: true, ..st5 };
    let st7 = ScanState { crop: true, ..st6 };
    assert(args2.len() == 4);
    assert(args2[0] == inp);
    assert(args2[1] == outp);
    assert(args2[2] == "--include-center"@);
    assert(args2[3] == "--crop"@);
    assert(spec_scan(args2, 0, st0) == spec_scan(args2, 1, st4));
    assert(spec_scan(args2, 1, st4) == spec_scan(args2, 2, st5));
    assert(spec_scan(args2, 2, st5) == spec_scan(args2, 3, st6));
    assert(spec_scan(args2, 3, st6) == spec_scan(args2, 4, st7));
    assert(spec_scan(args2, 4, st7) == Ok::<ScanState, ValidationFailure>(st7));
}

/// `--ratio 3 --retina` fails with the pixel-ratio group conflict in either
/// order the two options are given.
pub proof fn lemma_ratio_retina_orders(inp: Seq<char>, outp: Seq<char>)
    requires
        spec_classify(inp) is Positional,
        spec_classify(outp) is Positional,
    ensures
        spec_parse(seq![inp, outp, "--ratio"@, "3"@, "--retina"@], true) == Err::<
            CliView,
            ValidationFailure,
        >(ValidationFailure::GroupConflictError(OptionName::Ratio, OptionName::Retina)),
        spec_parse(seq![inp, outp, "--retina"@, "--ratio"@, "3"@], true) == Err::<
            CliView,
            ValidationFailure,
        >(ValidationFailure::GroupConflictError(OptionName::Ratio, OptionName::Retina)),
{
    reveal_strlit("-r");
    reveal_strlit("--ratio");
    reveal_strlit("--retina");
    reveal_strlit("3");
    assert("-r"@.len() == 2);
    assert("--ratio"@.len() == 7);
    assert("--retina"@.len() == 8);
    assert(spec_classify("--ratio"@) == Token::OptRatio);
    assert(spec_classify("--retina"@) == Token::FlagRetina);
    assert("3"@.len() == 1);
    assert("3"@[0] == '3');
    assert(crate::numbers::all_digits("3"@));
    assert("3"@.drop_last() =~= Seq::<char>::empty());
    assert(crate::numbers::decimal_value("3"@.drop_last()) == 0);
    assert("3"@.last() == '3');
    assert(crate::numbers::digit_value('3') == 3);
    assert(crate::numbers::decimal_value("3"@) == 3);
    assert(spec_parse_u8("3"@) == Some(3u8));
    let st0 = init_scan_state();

    let args1: Seq<Seq<char>> = seq![inp, outp, "--ratio"@, "3"@, "--retina"@];
    let st1 = ScanState { input: Some(inp), ..st0 };
    let st2 = ScanState { output: Some(outp), ..st1 };
    let st3 = ScanState { ratio: Some(3u8), ..st2 };
    let st4 = ScanState { retina: true, ..st3 };
    assert(args1.len() == 5);
    assert(args1[0] == inp);
    assert(args1[1] == outp);
    assert(args1[2] == "--ratio"@);
    assert(args1[3] == "3"@);
    assert(args1[4] == "--retina"@);
    assert(spec_scan(args1, 0, st0) == spec_scan(args1, 1, st1));
    assert(spec_scan(args1, 1, st1) == spec_scan(args1, 2, st2));
    assert(spec_scan(args1, 2, st2) == spec_scan(args1, 4, st3));
    assert(spec_scan(args1, 4, st3) == spec_scan(args1, 5, st4));
    assert(spec_scan(args1, 5, st4) == Ok::<ScanState, ValidationFailure>(st4));

    let args2: Seq<Seq<char>> = seq![inp, outp, "--retina"@, "--ratio"@, "3"@];
    let st5 = ScanState { input: Some(inp), ..st0 };
    let st6 = ScanState { output: Some(outp), ..st5 };
    let st7 = ScanState { retina: true, ..st6 };
    let st8 = ScanState { ratio: Some(3u8), ..st7 };
    assert(args2.len() == 5);
    assert(args2[0] == inp);
    assert(args2[1] == outp);
    assert(args2[2] == "--retina"@);
    assert(args2[3] == "--ratio"@);
    assert(args2[4] == "3"@);
    assert(spec_scan(args2, 0, st0) == spec_scan(args2, 1, st5));
    assert(spec_scan(args2, 1, st5) == spec_scan(args2, 2, st6));
    assert(spec_scan(args2, 2, st6) == spec_scan(args2, 3, st7));
    assert(spec_scan(args2, 3, st7) == spec_scan(args2, 5, st8));
    assert(spec_scan(args2, 5, st8) == Ok::<ScanState, ValidationFailure>(st8));
}

} // verus!
