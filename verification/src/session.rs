//! Decisions taken while a command runs: where input comes from, how many
//! lines `head` still prints, which seed the sampler uses, and the texts
//! printed for `--help` and `--version`.

use vstd::prelude::*;
use vstd::string::*;
use crate::fail::PROG;
use crate::text::{join3, replace_text, replace_all, same_text};

verus! {

/// Where a command reads from.
#[derive(Debug, PartialEq, Eq)]
pub enum Input {
    /// Standard input, named `-`.
    Stdin,
    /// A file on disk.
    File(String),
}

/// `-` names standard input; any other path names a file.
pub fn source_of(path: &str) -> (r: Input)
    ensures
        path@ == "-"@ ==> r is Stdin,
        path@ != "-"@ ==> (r matches Input::File(p) && p@ == path@),
{
    if same_text(path, "-") {
        Input::Stdin
    } else {
        Input::File(path.to_owned())
    }
}

/// How many lines `head` has printed out of how many it may print.
pub struct LineBudget {
    limit: usize,
    taken: usize,
}

impl LineBudget {
    #[verifier::type_invariant]
    spec fn within_limit(&self) -> bool {
        self.taken <= self.limit
    }

    pub closed spec fn limit(&self) -> nat {
        self.limit as nat
    }

    pub closed spec fn taken(&self) -> nat {
        self.taken as nat
    }

    /// A budget of `limit` lines, none printed yet.
    pub fn new(limit: usize) -> (b: LineBudget)
        ensures
            b.limit() == limit,
            b.taken() == 0,
    {
        LineBudget { limit, taken: 0 }
    }

    /// Whether another line may be printed; only then is another line read.
    pub fn wants_more(&self) -> (r: bool)
        ensures
            r == (self.taken() < self.limit()),
            self.taken() <= self.limit(),
    {
        proof {
            use_type_invariant(self);
        }
        self.taken < self.limit
    }

    /// Counts one printed line.
    pub fn take(&mut self)
        requires
            old(self).taken() < old(self).limit(),
        ensures
            final(self).taken() == old(self).taken() + 1,
            final(self).limit() == old(self).limit(),
    {
        self.taken = self.taken + 1;
    }
}

/// The seed used when none is given and the clock cannot be read.
pub const FALLBACK_SEED: u64 = 0x5EED;

/// The seed the clock gives: the low 64 bits of the nanoseconds since the
/// epoch, or [`FALLBACK_SEED`] when the clock reads before the epoch.
pub open spec fn clock_seed(clock_nanos: Option<u128>) -> u64 {
    match clock_nanos {
        Some(n) => (n % 0x1_0000_0000_0000_0000) as u64,
        None => FALLBACK_SEED,
    }
}

/// The sampler's seed: the one given, else the one the clock gives.
pub open spec fn seed_for(given: Option<u64>, clock_nanos: Option<u128>) -> u64 {
    match given {
        Some(g) => g,
        None => clock_seed(clock_nanos),
    }
}

/// The sampler's seed: the one given, else the low 64 bits of the clock in
/// nanoseconds since the epoch, else [`FALLBACK_SEED`].
pub fn sample_seed(given: Option<u64>, clock_nanos: Option<u128>) -> (s: u64)
    ensures
        s == seed_for(given, clock_nanos),
        given matches Some(g) ==> s == g,
        given is None ==> (clock_nanos matches Some(n) ==> s as int == n as int
            % 0x1_0000_0000_0000_0000),
        given is None && clock_nanos is None ==> s == 0x5EED,
{
    match given {
        Some(g) => g,
        None => match clock_nanos {
            Some(n) => (n % 0x1_0000_0000_0000_0000u128) as u64,
            None => FALLBACK_SEED,
        },
    }
}

/// What a command does with one input line.
#[derive(Debug, Clone, Copy, PartialEq, Eq)]
pub enum LineUse {
    /// Pass over it.
    Skip,
    /// Use it.
    Take,
    /// Count it as unparseable.
    Reject,
}

/// `sample` passes over blank lines and offers every other line to the sampler.
pub fn sample_line_use(blank: bool) -> (u: LineUse)
    ensures
        u == (if blank { LineUse::Skip } else { LineUse::Take }),
{
    if blank {
        LineUse::Skip
    } else {
        LineUse::Take
    }
}

/// `schema` passes over blank lines, records a line that is UTF-8 text holding
/// one JSON document, and counts every other line as unparseable.
pub fn schema_line_use(blank: bool, parsed: bool) -> (u: LineUse)
    ensures
        u == (if blank {
            LineUse::Skip
        } else if parsed {
            LineUse::Take
        } else {
            LineUse::Reject
        }),
{
    if blank {
        LineUse::Skip
    } else if parsed {
        LineUse::Take
    } else {
        LineUse::Reject
    }
}

/// The line printed for `--version`.
pub fn version_line(version: &str) -> (r: String)
    ensures
        r@ == PROG@ + " "@ + version@,
{
    join3(PROG, " ", version)
}

/// The usage text; `{prog}` stands for the program name.
pub const USAGE_TEMPLATE: &'static str = "\
{prog} - quick health checks for JSONL datasets

usage:
  {prog} head   [-n N] [FILE]
  {prog} sample [-n N] [--seed S] [FILE]
  {prog} stats  [--field PATH]... [--top N] [--min-count N] [--max-errors N] [--json] [FILE]
  {prog} schema [--depth N] [--min-rate R] [--json] [FILE]

FILE defaults to '-', meaning standard input. Every command reads the input
exactly once and keeps a bounded amount of state, so it is safe to point at a
file that is far larger than memory.

commands:
  head     print the first N lines (default 10)
  sample   uniform random sample of N lines via reservoir sampling
  stats    line counts, byte counts, length percentiles, top level key and
           type frequencies, the position of every unparseable line, and
           optionally the value distribution of one or more fields
  schema   infer which dotted paths exist and which types they hold

options:
  -n N            number of lines (head, sample)
  --seed S        seed the sampler for a reproducible sample
  --field PATH    profile a field, e.g. 'meta.source' or 'messages[].role'
                  (repeatable)
  --top N         how many distinct values to list per field (default 10)
  --min-count N   hide field values seen fewer than N times (default 0)
  --max-errors N  how many broken lines to show (default 10)
  --depth N       how deep to infer the schema (default 3)
  --min-rate R    hide schema paths present in fewer than R of the records,
                  R between 0 and 1 (default 0)
  --json          machine readable output (stats, schema)
  -h, --help      this text
  -V, --version   version

exit status: 0 success, 1 runtime error, 2 usage error
";

/// The usage text with the program name filled in.
pub fn usage_text() -> (r: String)
    ensures
        r@ == replace_all(USAGE_TEMPLATE@, "{prog}"@, PROG@),
{
    replace_text(USAGE_TEMPLATE, "{prog}", PROG)
}

} // verus!
