//! Scanning the options that follow a command word.

use vstd::prelude::*;
use vstd::string::*;
use crate::decimal::{numeral_value, parse_decimal};
use crate::fail::{
    extra_argument, extra_argument_text, invalid_value, invalid_value_text, missing_value,
    needs_value_text, Fail, FailView,
};
use crate::text::same_text;

verus! {

/// The command whose options are being read.
#[derive(Debug, Clone, Copy, PartialEq, Eq)]
pub enum Kind {
    Head,
    Sample,
    Stats,
    Schema,
}

/// An option a command takes.
#[derive(Debug, Clone, Copy, PartialEq, Eq)]
pub enum Opt {
    /// `-n N` / `--lines N`
    Lines,
    /// `--seed S`
    Seed,
    /// `--field PATH` / `-f PATH`, repeatable
    Field,
    /// `--top N`
    Top,
    /// `--max-errors N`
    MaxErrors,
    /// `--min-count N`
    MinCount,
    /// `--json`
    Json,
    /// `--depth N`
    Depth,
    /// `--min-rate R`, checked by the caller
    MinRate,
}

/// The plain settings an option list determines.
#[derive(Debug, Clone, Copy, PartialEq, Eq)]
pub struct Settings {
    /// Lines to print or to sample.
    pub count: usize,
    /// Sampler seed, if one was given.
    pub seed: Option<u64>,
    /// Distinct values listed per field.
    pub top: usize,
    /// Broken lines listed.
    pub max_errors: usize,
    /// Field values seen fewer times than this are not listed.
    pub min_count: usize,
    /// Schema depth.
    pub depth: usize,
    /// Machine readable output.
    pub json: bool,
}

/// The settings before any option is read.
pub open spec fn default_settings() -> Settings {
    Settings { count: 10, seed: None, top: 10, max_errors: 10, min_count: 0, depth: 3, json: false }
}

/// The settings before any option is read.
pub fn initial_settings() -> (s: Settings)
    ensures
        s == default_settings(),
{
    Settings { count: 10, seed: None, top: 10, max_errors: 10, min_count: 0, depth: 3, json: false }
}

/// The option that `arg` names for the command `kind`, if any.
pub open spec fn option_named(kind: Kind, arg: Seq<char>) -> Option<Opt> {
    match kind {
        Kind::Head => if arg == "-n"@ || arg == "--lines"@ {
            Some(Opt::Lines)
        } else {
            None
        },
        Kind::Sample => if arg == "-n"@ || arg == "--lines"@ {
            Some(Opt::Lines)
        } else if arg == "--seed"@ {
            Some(Opt::Seed)
        } else {
            None
        },
        Kind::Stats => if arg == "--field"@ || arg == "-f"@ {
            Some(Opt::Field)
        } else if arg == "--top"@ {
            Some(Opt::Top)
        } else if arg == "--max-errors"@ {
            Some(Opt::MaxErrors)
        } else if arg == "--min-count"@ {
            Some(Opt::MinCount)
        } else if arg == "--json"@ {
            Some(Opt::Json)
        } else {
            None
        },
        Kind::Schema => if arg == "--depth"@ {
            Some(Opt::Depth)
        } else if arg == "--min-rate"@ {
            Some(Opt::MinRate)
        } else if arg == "--json"@ {
            Some(Opt::Json)
        } else {
            None
        },
    }
}

/// The name an option goes by in messages.
pub open spec fn option_label(o: Opt) -> Seq<char> {
    match o {
        Opt::Lines => "-n"@,
        Opt::Seed => "--seed"@,
        Opt::Field => "--field"@,
        Opt::Top => "--top"@,
        Opt::MaxErrors => "--max-errors"@,
        Opt::MinCount => "--min-count"@,
        Opt::Json => "--json"@,
        Opt::Depth => "--depth"@,
        Opt::MinRate => "--min-rate"@,
    }
}

/// Finds the option `arg` names for the command `kind`.
pub fn recognise(kind: Kind, arg: &str) -> (r: Option<Opt>)
    ensures
        r == option_named(kind, arg@),
{
    match kind {
        Kind::Head => {
            if same_text(arg, "-n") || same_text(arg, "--lines") {
                Some(Opt::Lines)
            } else {
                None
            }
        },
        Kind::Sample => {
            if same_text(arg, "-n") || same_text(arg, "--lines") {
                Some(Opt::Lines)
            } else if same_text(arg, "--seed") {
                Some(Opt::Seed)
            } else {
                None
            }
        },
        Kind::Stats => {
            if same_text(arg, "--field") || same_text(arg, "-f") {
                Some(Opt::Field)
            } else if same_text(arg, "--top") {
                Some(Opt::Top)
            } else if same_text(arg, "--max-errors") {
                Some(Opt::MaxErrors)
            } else if same_text(arg, "--min-count") {
                Some(Opt::MinCount)
            } else if same_text(arg, "--json") {
                Some(Opt::Json)
            } else {
                None
            }
        },
        Kind::Schema => {
            if same_text(arg, "--depth") {
                Some(Opt::Depth)
            } else if same_text(arg, "--min-rate") {
                Some(Opt::MinRate)
            } else if same_text(arg, "--json") {
                Some(Opt::Json)
            } else {
                None
            }
        },
    }
}

/// The name an option goes by in messages.
pub fn label(o: Opt) -> (r: &'static str)
    ensures
        r@ == option_label(o),
{
    match o {
        Opt::Lines => "-n",
        Opt::Seed => "--seed",
        Opt::Field => "--field",
        Opt::Top => "--top",
        Opt::MaxErrors => "--max-errors",
        Opt::MinCount => "--min-count",
        Opt::Json => "--json",
        Opt::Depth => "--depth",
        Opt::MinRate => "--min-rate",
    }
}

/// An argument that looks like an option: it starts with `-` and is not `-` alone,
/// which names standard input.
pub open spec fn is_flag_text(arg: Seq<char>) -> bool {
    arg.len() > 0 && arg[0] == '-' && arg != "-"@
}

/// Whether `arg` looks like an option.
pub fn is_flag(arg: &str) -> (r: bool)
    ensures
        r == is_flag_text(arg@),
{
    let n = arg.unicode_len();
    n > 0 && arg.get_char(0) == '-' && !same_text(arg, "-")
}

/// The value following an option, or the failure for its absence.
pub fn need_value<'a>(next: Option<&'a String>, flag: &str) -> (r: Result<&'a String, Fail>)
    ensures
        match next {
            Some(v) => r == Ok::<&String, Fail>(v),
            None => r matches Err(f) && f@ == FailView::Usage(needs_value_text(flag@)),
        },
{
    match next {
        Some(v) => Ok(v),
        None => Err(missing_value(flag)),
    }
}

/// Reads an option value as an unsigned 64-bit number.
pub fn parse_number(text: &str, flag: &str) -> (r: Result<u64, Fail>)
    ensures
        match numeral_value(text@, u64::MAX as nat) {
            Some(v) => r == Ok::<u64, Fail>(v as u64),
            None => r matches Err(f) && f@ == FailView::Usage(invalid_value_text(flag@, text@)),
        },
{
    match parse_decimal(text, u64::MAX) {
        Some(v) => Ok(v),
        None => Err(invalid_value(flag, text)),
    }
}

/// Reads an option value as a count.
pub fn parse_count(text: &str, flag: &str) -> (r: Result<usize, Fail>)
    ensures
        match numeral_value(text@, usize::MAX as nat) {
            Some(v) => r == Ok::<usize, Fail>(v as usize),
            None => r matches Err(f) && f@ == FailView::Usage(invalid_value_text(flag@, text@)),
        },
{
    match parse_decimal(text, usize::MAX as u64) {
        Some(v) => Ok(v as usize),
        None => Err(invalid_value(flag, text)),
    }
}

/// Records the file argument; there may be only one.
pub fn take_positional(current: &mut Option<String>, value: &str) -> (r: Result<(), Fail>)
    ensures
        match *old(current) {
            Some(_) => *final(current) == *old(current) && (r matches Err(f) && f@
                == FailView::Usage(extra_argument_text(value@))),
            None => r is Ok && (*final(current) matches Some(s) && s@ == value@),
        },
{
    if current.is_some() {
        return Err(extra_argument(value));
    }
    *current = Some(value.to_owned());
    Ok(())
}

} // verus!
