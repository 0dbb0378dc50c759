//! Choosing the command and gathering what it needs from the command line.

use vstd::prelude::*;
use vstd::string::*;
use crate::fail::{
    depth_too_small, depth_text, missing_command, missing_command_text, unknown_command,
    unknown_command_text, Fail, FailView,
};
use crate::options::{Kind, Settings};
use crate::scan::{initial_state, scan_from, scan_options, texts};
use crate::text::same_text;

verus! {

/// Everything a command needs from its option list.
pub struct Request {
    pub settings: Settings,
    /// The input: the file argument, or `-` for standard input.
    pub path: String,
    /// The `--field` values, in order, for the caller to parse.
    pub fields: Vec<String>,
    /// The `--min-rate` values, in order, for the caller to check.
    pub rates: Vec<String>,
    /// The failure the option list ends in, if any. `fields` and `rates` hold
    /// the values given before it, which are checked first.
    pub failure: Option<Fail>,
}

/// A request as plain values.
pub struct RequestView {
    pub settings: Settings,
    pub path: Seq<char>,
    pub fields: Seq<Seq<char>>,
    pub rates: Seq<Seq<char>>,
    pub failure: Option<FailView>,
}

impl View for Request {
    type V = RequestView;

    open spec fn view(&self) -> RequestView {
        RequestView {
            settings: self.settings,
            path: self.path@,
            fields: texts(self.fields@),
            rates: texts(self.rates@),
            failure: match self.failure {
                Some(f) => Some(f@),
                None => None,
            },
        }
    }
}

/// What the command `kind` makes of the arguments after the command word.
/// Without a file argument the input is `-`, standard input. A schema needs a
/// depth of at least 1; that is checked once all options have been read.
pub open spec fn request_for(kind: Kind, args: Seq<Seq<char>>) -> RequestView {
    let end = scan_from(kind, args, 1, initial_state());
    RequestView {
        settings: end.state.settings,
        path: match end.state.file {
            Some(f) => f,
            None => "-"@,
        },
        fields: end.state.fields,
        rates: end.state.rates,
        failure: if end.failure is Some {
            end.failure
        } else if kind is Schema && end.state.settings.depth == 0 {
            Some(FailView::Usage(depth_text()))
        } else {
            None
        },
    }
}

/// The command to run.
pub enum Command {
    /// Print the usage text.
    Help,
    /// Print the program name and version.
    Version,
    /// Print the first lines.
    Head(Request),
    /// Print a uniform random sample of the non-blank lines.
    Sample(Request),
    /// Summarise the file.
    Stats(Request),
    /// Infer the schema.
    Schema(Request),
}

/// What to do for a command line: whether to print the usage text first, and
/// the command or the failure.
pub struct Invocation {
    pub show_usage: bool,
    pub outcome: Result<Command, Fail>,
}

/// The command a command word names.
pub open spec fn command_kind(word: Seq<char>) -> Option<Kind> {
    if word == "head"@ {
        Some(Kind::Head)
    } else if word == "sample"@ {
        Some(Kind::Sample)
    } else if word == "stats"@ {
        Some(Kind::Stats)
    } else if word == "schema"@ {
        Some(Kind::Schema)
    } else {
        None
    }
}

pub open spec fn is_help_word(word: Seq<char>) -> bool {
    word == "-h"@ || word == "--help"@ || word == "help"@
}

pub open spec fn is_version_word(word: Seq<char>) -> bool {
    word == "-V"@ || word == "--version"@
}

/// Reads the options of the command `kind` from `args[1..]`.
pub fn request(kind: Kind, args: &Vec<String>) -> (r: Request)
    requires
        args.len() >= 1,
    ensures
        r@ == request_for(kind, texts(args@)),
{
    let scan = scan_options(kind, args, 1);
    let path = match scan.file {
        Some(f) => f,
        None => "-".to_owned(),
    };
    let failure = match scan.failure {
        Some(f) => Some(f),
        None => {
            if let Kind::Schema = kind {
                if scan.settings.depth == 0 {
                    Some(depth_too_small())
                } else {
                    None
                }
            } else {
                None
            }
        },
    };
    Request { settings: scan.settings, path, fields: scan.fields, rates: scan.rates, failure }
}

/// Decides what to do for the arguments that follow the program name.
pub fn parse_command(args: &Vec<String>) -> (inv: Invocation)
    ensures
        inv.show_usage == (args.len() == 0),
        args.len() == 0 ==> (inv.outcome matches Err(f) && f@ == FailView::Usage(
            missing_command_text(),
        )),
        args.len() > 0 ==> ({
            let word = args@[0]@;
            let t = texts(args@);
            if is_help_word(word) {
                inv.outcome matches Ok(Command::Help)
            } else if is_version_word(word) {
                inv.outcome matches Ok(Command::Version)
            } else {
                match command_kind(word) {
                    Some(Kind::Head) => inv.outcome matches Ok(Command::Head(r)) && r@
                        == request_for(Kind::Head, t),
                    Some(Kind::Sample) => inv.outcome matches Ok(Command::Sample(r)) && r@
                        == request_for(Kind::Sample, t),
                    Some(Kind::Stats) => inv.outcome matches Ok(Command::Stats(r)) && r@
                        == request_for(Kind::Stats, t),
                    Some(Kind::Schema) => inv.outcome matches Ok(Command::Schema(r)) && r@
                        == request_for(Kind::Schema, t),
                    None => inv.outcome matches Err(f) && f@ == FailView::Usage(
                        unknown_command_text(word),
                    ),
                }
            }
        }),
{
    if args.len() == 0 {
        return Invocation { show_usage: true, outcome: Err(missing_command()) };
    }
    let word = args[0].as_str();
    let outcome = if same_text(word, "-h") || same_text(word, "--help") || same_text(word, "help") {
        Ok(Command::Help)
    } else if same_text(word, "-V") || same_text(word, "--version") {
        Ok(Command::Version)
    } else if same_text(word, "head") {
        Ok(Command::Head(request(Kind::Head, args)))
    } else if same_text(word, "sample") {
        Ok(Command::Sample(request(Kind::Sample, args)))
    } else if same_text(word, "stats") {
        Ok(Command::Stats(request(Kind::Stats, args)))
    } else if same_text(word, "schema") {
        Ok(Command::Schema(request(Kind::Schema, args)))
    } else {
        Err(unknown_command(word))
    };
    Invocation { show_usage: false, outcome }
}

} // verus!
