//! Failures, their messages and the exit status they lead to.

use vstd::prelude::*;
use vstd::string::*;
use crate::text::{join3, join4};

verus! {

/// Program name as installed.
pub const PROG: &'static str = "jsonl-peek";

/// An input or output error, kept as the two things the program acts on.
#[derive(Debug, PartialEq, Eq)]
pub struct IoFailure {
    /// The other end of a pipe went away.
    pub broken_pipe: bool,
    /// The error's own description.
    pub text: String,
}

/// Why a run did not succeed.
#[derive(Debug, PartialEq, Eq)]
pub enum Fail {
    /// The command line was wrong.
    Usage(String),
    /// The command line was fine but the work could not be done.
    Message(String),
    /// Reading or writing failed.
    Io(IoFailure),
}

/// A failure as plain values.
pub enum FailView {
    Usage(Seq<char>),
    Message(Seq<char>),
    Io(bool, Seq<char>),
}

impl View for Fail {
    type V = FailView;

    open spec fn view(&self) -> FailView {
        match self {
            Fail::Usage(m) => FailView::Usage(m@),
            Fail::Message(m) => FailView::Message(m@),
            Fail::Io(e) => FailView::Io(e.broken_pipe, e.text@),
        }
    }
}

pub open spec fn missing_command_text() -> Seq<char> {
    "missing command"@
}

pub open spec fn unknown_command_text(command: Seq<char>) -> Seq<char> {
    "unknown command '"@ + command + "'"@
}

pub open spec fn needs_value_text(flag: Seq<char>) -> Seq<char> {
    flag + " needs a value"@
}

pub open spec fn invalid_value_text(flag: Seq<char>, text: Seq<char>) -> Seq<char> {
    "invalid value for "@ + flag + ": '"@ + text + "'"@
}

pub open spec fn extra_argument_text(value: Seq<char>) -> Seq<char> {
    "unexpected extra argument '"@ + value + "'"@
}

pub open spec fn unknown_option_text(flag: Seq<char>) -> Seq<char> {
    "unknown option '"@ + flag + "'"@
}

pub open spec fn bad_field_path_text(raw: Seq<char>, reason: Seq<char>) -> Seq<char> {
    "bad field path '"@ + raw + "': "@ + reason
}

pub open spec fn rate_range_text() -> Seq<char> {
    "--min-rate must be between 0 and 1"@
}

pub open spec fn depth_text() -> Seq<char> {
    "--depth must be at least 1"@
}

pub open spec fn cannot_open_text(path: Seq<char>, reason: Seq<char>) -> Seq<char> {
    "cannot open '"@ + path + "': "@ + reason
}

/// The usage failure for a run without a command.
pub fn missing_command() -> (f: Fail)
    ensures
        f@ == FailView::Usage(missing_command_text()),
{
    Fail::Usage("missing command".to_owned())
}

/// The usage failure for a command word that is not known.
pub fn unknown_command(command: &str) -> (f: Fail)
    ensures
        f@ == FailView::Usage(unknown_command_text(command@)),
{
    Fail::Usage(join3("unknown command '", command, "'"))
}

/// The usage failure for an option given as the last argument without its value.
pub fn missing_value(flag: &str) -> (f: Fail)
    ensures
        f@ == FailView::Usage(needs_value_text(flag@)),
{
    let mut m = flag.to_owned();
    m.append(" needs a value");
    Fail::Usage(m)
}

/// The usage failure for an option value that is not a number of the right kind.
pub fn invalid_value(flag: &str, text: &str) -> (f: Fail)
    ensures
        f@ == FailView::Usage(invalid_value_text(flag@, text@)),
{
    let mut m = join4("invalid value for ", flag, ": '", text);
    m.append("'");
    Fail::Usage(m)
}

/// The usage failure for a second file argument.
pub fn extra_argument(value: &str) -> (f: Fail)
    ensures
        f@ == FailView::Usage(extra_argument_text(value@)),
{
    Fail::Usage(join3("unexpected extra argument '", value, "'"))
}

/// The usage failure for an option the command does not take.
pub fn unknown_flag(flag: &str) -> (f: Fail)
    ensures
        f@ == FailView::Usage(unknown_option_text(flag@)),
{
    Fail::Usage(join3("unknown option '", flag, "'"))
}

/// The usage failure for a field path that does not parse, with the reason given for it.
pub fn bad_field_path(raw: &str, reason: &str) -> (f: Fail)
    ensures
        f@ == FailView::Usage(bad_field_path_text(raw@, reason@)),
{
    Fail::Usage(join4("bad field path '", raw, "': ", reason))
}

/// The usage failure for a `--min-rate` outside `[0, 1]`.
pub fn rate_out_of_range() -> (f: Fail)
    ensures
        f@ == FailView::Usage(rate_range_text()),
{
    Fail::Usage("--min-rate must be between 0 and 1".to_owned())
}

/// The usage failure for `--depth 0`.
pub fn depth_too_small() -> (f: Fail)
    ensures
        f@ == FailView::Usage(depth_text()),
{
    Fail::Usage("--depth must be at least 1".to_owned())
}

/// The runtime failure for an input file that cannot be opened, with the reason given for it.
pub fn cannot_open(path: &str, reason: &str) -> (f: Fail)
    ensures
        f@ == FailView::Message(cannot_open_text(path@, reason@)),
{
    Fail::Message(join4("cannot open '", path, "': ", reason))
}

/// The exit status: 0 for success and for a closed pipe, 1 for a runtime
/// failure, 2 for a usage failure.
pub open spec fn exit_status(outcome: Option<FailView>) -> i32 {
    match outcome {
        None => 0,
        Some(FailView::Usage(_)) => 2,
        Some(FailView::Message(_)) => 1,
        Some(FailView::Io(broken_pipe, _)) => if broken_pipe { 0 } else { 1 },
    }
}

/// The lines written to standard error for a failure.
pub open spec fn diagnostics(f: FailView) -> Seq<Seq<char>> {
    match f {
        FailView::Usage(m) => seq![PROG@ + ": "@ + m, "try '"@ + PROG@ + " --help'"@],
        FailView::Message(m) => seq![PROG@ + ": "@ + m],
        FailView::Io(broken_pipe, m) => if broken_pipe { seq![] } else { seq![PROG@ + ": "@ + m] },
    }
}

/// How a run ends: its exit status and what it reports on standard error.
pub struct ExitPlan {
    pub code: i32,
    pub lines: Vec<String>,
}

/// Decides the exit status and the diagnostics of a finished run.
pub fn exit_plan(outcome: &Result<(), Fail>) -> (p: ExitPlan)
    ensures
        p.code == exit_status(
            match outcome {
                Ok(_) => None,
                Err(f) => Some(f@),
            },
        ),
        p.lines@.map_values(|l: String| l@) == (match outcome {
            Ok(_) => Seq::<Seq<char>>::empty(),
            Err(f) => diagnostics(f@),
        }),
{
    let mut lines: Vec<String> = Vec::new();
    let code: i32 = match outcome {
        Ok(_) => 0,
        Err(Fail::Usage(m)) => {
            lines.push(join3(PROG, ": ", m.as_str()));
            lines.push(join3("try '", PROG, " --help'"));
            2
        },
        Err(Fail::Message(m)) => {
            lines.push(join3(PROG, ": ", m.as_str()));
            1
        },
        Err(Fail::Io(e)) => {
            if e.broken_pipe {
                0
            } else {
                lines.push(join3(PROG, ": ", e.text.as_str()));
                1
            }
        },
    };
    proof {
        let got = lines@.map_values(|l: String| l@);
        let want = match outcome {
            Ok(_) => Seq::<Seq<char>>::empty(),
            Err(f) => diagnostics(f@),
        };
        assert(got =~= want);
    }
    ExitPlan { code, lines }
}

} // verus!
