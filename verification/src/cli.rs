//! The command line's arguments, as plain values.

use vstd::prelude::*;
use vstd::string::StringExecFns;
use std::path::PathBuf;
use crate::utils::text::str_eq;

verus! {

#[verifier::external_type_specification]
#[verifier::external_body]
pub struct ExPathBuf(PathBuf);

/// What `PathBuf::from` makes of a string: the path with that text, a
/// function of the text alone.
pub uninterp spec fn path_of(s: Seq<char>) -> PathBuf;

/// Calls `PathBuf::from`; the contract names its result `path_of(s)`.
#[verifier::external_body]
fn path_from(s: &String) -> (res: PathBuf)
    ensures
        res == path_of(s@),
{
    PathBuf::from(s)
}

/// The output formats.
#[derive(Debug, Clone, Copy, PartialEq, Eq, Structural)]
pub enum OutputFormat {
    Clash,
    Singbox,
    Surge,
}

/// The `convert` command: subscription in, configuration out.
#[derive(Debug, Clone)]
pub struct ConvertArgs {
    /// Output format.
    pub format: OutputFormat,
    /// Input file, `-` for standard input.
    pub input: String,
    /// Output file, `-` for standard output.
    pub output: String,
    /// Template file, if one is given.
    pub template: Option<String>,
}

/// The `template` command: writes a default template.
#[derive(Debug, Clone)]
pub struct TemplateArgs {
    /// Output format.
    pub format: OutputFormat,
    /// Output file, `-` for standard output.
    pub output: String,
}

/// The commands.
#[derive(Debug, Clone)]
pub enum Commands {
    Convert(ConvertArgs),
    Template(TemplateArgs),
}

/// A file argument as a path: none for `-` (the standard stream).
pub open spec fn path_arg(s: Seq<char>) -> Option<PathBuf> {
    if s == "-"@ {
        None
    } else {
        Some(path_of(s))
    }
}

fn file_arg(s: &String) -> (res: Option<PathBuf>)
    ensures
        res == path_arg(s@),
{
    if str_eq(s.as_str(), "-") {
        None
    } else {
        Some(path_from(s))
    }
}

impl TemplateArgs {
    /// The output file; none for standard output.
    pub fn output_path(&self) -> (res: Option<PathBuf>)
        ensures
            res == path_arg(self.output@),
    {
        file_arg(&self.output)
    }
}

/// The template a conversion uses: the one given, else `template.json`
/// for Sing-Box, else none.
pub open spec fn spec_template_path(format: OutputFormat, template: Option<Seq<char>>) -> Option<
    Seq<char>,
> {
    match template {
        Some(t) => Some(t),
        None => if format == OutputFormat::Singbox {
            Some("template.json"@)
        } else {
            None
        },
    }
}

impl ConvertArgs {
    /// The input file; none for standard input.
    pub fn input_path(&self) -> (res: Option<PathBuf>)
        ensures
            res == path_arg(self.input@),
    {
        file_arg(&self.input)
    }

    /// The output file; none for standard output.
    pub fn output_path(&self) -> (res: Option<PathBuf>)
        ensures
            res == path_arg(self.output@),
    {
        file_arg(&self.output)
    }

    /// The template file this conversion looks for.
    pub fn template_path(&self) -> (res: Option<String>)
        ensures
            match spec_template_path(self.format, match self.template {
                Some(t) => Some(t@),
                None => None,
            }) {
                Some(p) => res matches Some(r) && r@ == p,
                None => res is None,
            },
    {
        match &self.template {
            Some(t) => Some(t.clone()),
            None => match self.format {
                OutputFormat::Singbox => Some(String::from_str("template.json")),
                _ => None,
            },
        }
    }
}

} // verus!
