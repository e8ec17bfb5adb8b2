//! The configuration value and the validation failures.
//!
//! [`Cli`] is the single immutable configuration built from one argument
//! vector; [`ValidationFailure`] names the rule an invalid invocation broke
//! and the option(s) involved.

use vstd::prelude::*;

verus! {

/// A recognized option or positional, used to name the offender in a
/// [`ValidationFailure`].
#[derive(Clone, Copy, Debug, PartialEq, Eq, Structural)]
pub enum OptionName {
    Input,
    Output,
    Ratio,
    Retina,
    Unique,
    Recursive,
    Crop,
    IncludeCenter,
    Spacing,
    Oxipng,
    Zopfli,
    MinifyIndexFile,
    SimpleIndexFile,
    Sdf,
}

/// Why an argument vector was rejected. Every failure is terminal: no
/// partial configuration is ever produced.
#[derive(Clone, Copy, Debug, PartialEq, Eq, Structural)]
pub enum ValidationFailure {
    /// The value supplied for the named option is not a valid unsigned
    /// integer.
    ParseError(OptionName),
    /// The value supplied for the named option is an integer outside its
    /// declared bound.
    RangeError(OptionName),
    /// The input path does not name an existing directory.
    PathError,
    /// The two named mutually exclusive options were both supplied.
    GroupConflictError(OptionName, OptionName),
    /// The first named option was supplied without the second, which it
    /// requires.
    DependencyError(OptionName, OptionName),
    /// A token looked like an option but names none of the schema.
    UnknownOptionError,
    /// The named option takes a value and none followed it.
    MissingValueError(OptionName),
    /// The named option was supplied more than once.
    DuplicateOptionError(OptionName),
    /// The named positional (input or output) was not supplied.
    MissingPositionalError(OptionName),
    /// More than two positionals were supplied.
    ExtraPositionalError,
}

/// Container for the validated command-line arguments.
#[derive(Debug)]
pub struct Cli {
    /// A directory of SVGs to include in the spritesheet.
    pub input: String,
    /// Name of the file in which to save the spritesheet.
    pub output: String,
    /// The output pixel ratio; defaults to 1.
    pub ratio: u8,
    /// Sets the pixel ratio to 2; mutually exclusive with `ratio`.
    pub retina: bool,
    /// Store only unique images, mapped to multiple names.
    pub unique: bool,
    /// Include images in sub-directories.
    pub recursive: bool,
    /// Crop rendered images to remove transparent edges.
    pub crop: bool,
    /// Record each sprite's pre-crop center; requires `crop`.
    pub include_center: bool,
    /// Pixel spacing between sprites; defaults to 0.
    pub spacing: u8,
    /// PNG optimization level, 0 through 6; mutually exclusive with
    /// `zopfli`.
    pub oxipng: Option<u8>,
    /// Zopfli iterations, at least 1; mutually exclusive with `oxipng`.
    pub zopfli: Option<u8>,
    /// Remove whitespace from the JSON index file.
    pub minify_index_file: bool,
    /// Output only x, y, width and height to the JSON index file.
    pub simple_index_file: bool,
    /// Output a signed-distance-field spritesheet.
    pub sdf: bool,
}

/// The mathematical value of a [`Cli`]: the same fields with the two path
/// strings as character sequences.
pub ghost struct CliView {
    pub input: Seq<char>,
    pub output: Seq<char>,
    pub ratio: u8,
    pub retina: bool,
    pub unique: bool,
    pub recursive: bool,
    pub crop: bool,
    pub include_center: bool,
    pub spacing: u8,
    pub oxipng: Option<u8>,
    pub zopfli: Option<u8>,
    pub minify_index_file: bool,
    pub simple_index_file: bool,
    pub sdf: bool,
}

impl View for Cli {
    type V = CliView;

    open spec fn view(&self) -> CliView {
        CliView {
            input: self.input@,
            output: self.output@,
            ratio: self.ratio,
            retina: self.retina,
            unique: self.unique,
            recursive: self.recursive,
            crop: self.crop,
            include_center: self.include_center,
            spacing: self.spacing,
            oxipng: self.oxipng,
            zopfli: self.zopfli,
            minify_index_file: self.minify_index_file,
            simple_index_file: self.simple_index_file,
            sdf: self.sdf,
        }
    }
}

impl CliView {
    /// The invariants every successfully produced configuration satisfies:
    /// `ratio` is positive and stays at its default when `retina` is given,
    /// `include_center` only comes with `crop`, at most one optimization
    /// level is set, and every numeric field is within its declared bound.
    pub open spec fn wf(self) -> bool {
        &&& self.ratio >= 1
        &&& (self.retina ==> self.ratio == 1)
        &&& (self.include_center ==> self.crop)
        &&& !(self.oxipng is Some && self.zopfli is Some)
        &&& (self.oxipng matches Some(level) ==> level <= 6)
        &&& (self.zopfli matches Some(iterations) ==> iterations >= 1)
    }

    /// The effective pixel ratio: 2 when `retina` was given, else the
    /// supplied or defaulted `ratio`.
    pub open spec fn spec_pixel_ratio(self) -> u8 {
        if self.retina {
            2
        } else {
            self.ratio
        }
    }
}

impl Cli {
    /// The effective pixel ratio the spritesheet builder works with.
    pub fn pixel_ratio(&self) -> (r: u8)
        ensures
            r == self@.spec_pixel_ratio(),
    {
        if self.retina {
            2
        } else {
            self.ratio
        }
    }
}

impl PartialEq for Cli {
    fn eq(&self, other: &Self) -> (r: bool) {
        self.input == other.input && self.output == other.output && self.ratio == other.ratio
            && self.retina == other.retina && self.unique == other.unique && self.recursive
            == other.recursive && self.crop == other.crop && self.include_center
            == other.include_center && self.spacing == other.spacing && opt_u8_eq(
            &self.oxipng,
            &other.oxipng,
        ) && opt_u8_eq(&self.zopfli, &other.zopfli) && self.minify_index_file
            == other.minify_index_file && self.simple_index_file == other.simple_index_file
            && self.sdf == other.sdf
    }
}

impl vstd::std_specs::cmp::PartialEqSpecImpl for Cli {
    open spec fn obeys_eq_spec() -> bool {
        true
    }

    open spec fn eq_spec(&self, other: &Self) -> bool {
        self@ == other@
    }
}

/// Equality of two optional byte values.
fn opt_u8_eq(a: &Option<u8>, b: &Option<u8>) -> (r: bool)
    ensures
        r == (a == b),
{
    match (a, b) {
        (Option::None, Option::None) => true,
        (Option::Some(x), Option::Some(y)) => *x == *y,
        _ => false,
    }
}

} // verus!
