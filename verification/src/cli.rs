//! The command line of the program, as plain values: what was asked for, and
//! the output format that a format selector stands for.

use vstd::prelude::*;
use vstd::string::StringSliceAdditionalSpecFns;
use vstd::utf8::encode_utf8_decode_utf8;

verus! {

/// The year of which the scores are retrieved when none is given.
pub const DEFAULT_YEAR: u32 = 2024;

/// The selector of the JSON format.
pub const JSON_FORMAT: &'static str = "json";

/// The name of the default format.
pub const DEFAULT_FORMAT: &'static str = "default";

/// The command line as a whole.
#[derive(Debug)]
pub struct FbdbWebScrapeCli {
    /// The subcommand that was given.
    pub command: FbdbSubcommand,
}

/// The arguments that every subcommand accepts.
#[derive(Debug)]
pub struct FbdbSubcommandArgs {
    /// The selector of the output format.
    pub output_format: Option<String>,
    /// The file to write to; without it the output goes to standard output.
    pub output_file: Option<String>,
    /// The year of the scores to retrieve.
    pub year: u32,
}

/// The subcommands.
#[derive(Debug)]
pub enum FbdbSubcommand {
    /// Retrieve the box scores of one year.
    Boxscores(FbdbSubcommandArgs),
}

/// The format in which box scores are written out.
#[derive(Debug, Clone, Copy, PartialEq, Eq, Structural)]
pub enum OutputFormat {
    /// A JSON array with one object for each box score.
    Json,
    /// One line of text for each box score.
    Default,
}

/// The format that a selector stands for: JSON for exactly `json`, the
/// default format for every other text.
pub open spec fn format_of(selector: Seq<char>) -> OutputFormat {
    if selector == JSON_FORMAT@ {
        OutputFormat::Json
    } else {
        OutputFormat::Default
    }
}

/// The name of a format.
pub open spec fn format_name(format: OutputFormat) -> Seq<char> {
    match format {
        OutputFormat::Json => JSON_FORMAT@,
        OutputFormat::Default => DEFAULT_FORMAT@,
    }
}

/// The selector that the arguments give: the text of the output format, or
/// the empty text where there is none.
pub open spec fn selector_of(args: FbdbSubcommandArgs) -> Seq<char> {
    match args.output_format {
        Some(selector) => selector@,
        None => Seq::empty(),
    }
}

/// Whether two texts are the same, character by character.
pub fn same_text(a: &str, b: &str) -> (same: bool)
    ensures
        same == (a@ == b@),
{
    let left = a.as_bytes();
    let right = b.as_bytes();
    proof {
        encode_utf8_decode_utf8(a@);
        encode_utf8_decode_utf8(b@);
    }
    if left.len() != right.len() {
        return false;
    }
    let mut i: usize = 0;
    while i < left.len()
        invariant
            0 <= i <= left.len(),
            left.len() == right.len(),
            left@ == a.spec_bytes(),
            right@ == b.spec_bytes(),
            forall|j: int| 0 <= j < i ==> left@[j] == right@[j],
        decreases left.len() - i,
    {
        if left[i] != right[i] {
            return false;
        }
        i = i + 1;
    }
    assert(left@ =~= right@);
    true
}

/// A copy of an optional text.
fn copy_of(text: &Option<String>) -> (copy: Option<String>)
    ensures
        copy == *text,
{
    match text {
        Some(text) => Some(text.clone()),
        None => None,
    }
}

impl Clone for FbdbSubcommandArgs {
    fn clone(&self) -> (copy: FbdbSubcommandArgs)
        ensures
            copy == *self,
    {
        FbdbSubcommandArgs {
            output_format: copy_of(&self.output_format),
            output_file: copy_of(&self.output_file),
            year: self.year,
        }
    }
}

impl Clone for FbdbSubcommand {
    fn clone(&self) -> (copy: FbdbSubcommand)
        ensures
            copy == *self,
    {
        match self {
            FbdbSubcommand::Boxscores(args) => FbdbSubcommand::Boxscores(args.clone()),
        }
    }
}

impl FbdbWebScrapeCli {
    /// The subcommand that was given, copied.
    pub fn command(&self) -> (command: FbdbSubcommand)
        ensures
            command == self.command,
    {
        self.command.clone()
    }
}

impl FbdbSubcommandArgs {
    /// The output format that the arguments ask for. Without a selector the
    /// format is that of the empty selector, the default format.
    pub fn format(&self) -> (format: OutputFormat)
        ensures
            format == format_of(selector_of(*self)),
    {
        match &self.output_format {
            Some(selector) => OutputFormat::of(selector.as_str()),
            None => {
                proof {
                    reveal_strlit("");
                    assert(""@ =~= Seq::<char>::empty());
                }
                OutputFormat::of("")
            },
        }
    }
}

impl OutputFormat {
    /// The format that a selector stands for.
    pub fn of(input: &str) -> (format: OutputFormat)
        ensures
            format == format_of(input@),
    {
        if same_text(input, JSON_FORMAT) {
            OutputFormat::Json
        } else {
            OutputFormat::Default
        }
    }

    /// The format that a selector stands for. No selector is refused: every
    /// text but `json` selects the default format.
    pub fn from_str(input: &str) -> (format: Result<OutputFormat, ()>)
        ensures
            format == Ok::<OutputFormat, ()>(format_of(input@)),
    {
        Ok(OutputFormat::of(input))
    }

    /// The name of the format.
    pub fn to_string(&self) -> (name: String)
        ensures
            name@ == format_name(*self),
    {
        match self {
            OutputFormat::Json => JSON_FORMAT.to_owned(),
            OutputFormat::Default => DEFAULT_FORMAT.to_owned(),
        }
    }
}

} // verus!
