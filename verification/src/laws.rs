//! Properties of the command line as a whole.

use vstd::prelude::*;
use crate::command::request_for;
use crate::decimal::{all_digits, digit_value, digits_value, is_digit, numeral_value};
use crate::fail::exit_status;
use crate::options::{is_flag_text, option_named, Kind, Opt, Settings};
use crate::scan::{initial_state, scan_from, with_value, ScanState};
use crate::session::{clock_seed, seed_for};

verus! {

/// The digit character for `d`.
pub open spec fn digit_char(d: nat) -> char {
    seq!['0', '1', '2', '3', '4', '5', '6', '7', '8', '9'][d as int]
}

/// `n` written in decimal without leading zeros.
pub open spec fn decimal_text(n: nat) -> Seq<char>
    decreases n,
{
    if n < 10 {
        seq![digit_char(n)]
    } else {
        decimal_text(n / 10).push(digit_char(n % 10))
    }
}

pub(crate) proof fn lemma_decimal_text(n: nat)
    ensures
        decimal_text(n).len() > 0,
        all_digits(decimal_text(n)),
        digits_value(decimal_text(n)) == n,
        decimal_text(n)[0] != '+',
    decreases n,
{
    let d = n % 10;
    assert(is_digit(digit_char(d)) && digit_value(digit_char(d)) == d) by {
        assert(d < 10);
    }
    let s = decimal_text(n);
    if n >= 10 {
        lemma_decimal_text(n / 10);
        assert(s.drop_last() =~= decimal_text(n / 10));
        assert(forall|i: int| 0 <= i < s.len() - 1 ==> s[i] == decimal_text(n / 10)[i]);
        assert(digits_value(s) == digits_value(s.drop_last()) * 10 + digit_value(s.last()));
    } else {
        assert(s.drop_last() =~= Seq::<char>::empty());
        assert(digits_value(s) == digits_value(s.drop_last()) * 10 + digit_value(s.last()));
    }
}

/// A number written out in decimal is read back as itself, whatever the limit,
/// as long as it is within the limit.
pub proof fn law_decimal_round_trip(n: nat, max: nat)
    requires
        n <= max,
    ensures
        numeral_value(decimal_text(n), max) == Some(n),
{
    lemma_decimal_text(n);
}

proof fn lemma_scan_failures_are_usage(kind: Kind, args: Seq<Seq<char>>, i: int, st: ScanState)
    ensures
        scan_from(kind, args, i, st).failure matches Some(f) ==> f is Usage,
    decreases args.len() - i,
{
    if 0 <= i < args.len() {
        let arg = args[i];
        match option_named(kind, arg) {
            Some(o) => {
                if o is Json {
                    lemma_scan_failures_are_usage(
                        kind,
                        args,
                        i + 1,
                        ScanState { settings: Settings { json: true, ..st.settings }, ..st },
                    );
                } else if i + 1 < args.len() {
                    if let Ok(next) = with_value(o, args[i + 1], st) {
                        lemma_scan_failures_are_usage(kind, args, i + 2, next);
                    }
                }
            },
            None => {
                if !is_flag_text(arg) && st.file is None {
                    lemma_scan_failures_are_usage(
                        kind,
                        args,
                        i + 1,
                        ScanState { file: Some(arg), ..st },
                    );
                }
            },
        }
    }
}

/// Whatever goes wrong while reading a command line is a usage error, and a
/// usage error ends the program with exit status 2.
pub proof fn law_command_line_failures_exit_with_two(kind: Kind, args: Seq<Seq<char>>)
    ensures
        request_for(kind, args).failure matches Some(f) ==> f is Usage && exit_status(Some(f))
            == 2,
{
    lemma_scan_failures_are_usage(kind, args, 1, initial_state());
}

proof fn lemma_scan_file(kind: Kind, args: Seq<Seq<char>>, i: int, st: ScanState)
    requires
        0 <= i,
    ensures
        ({
            let file = scan_from(kind, args, i, st).state.file;
            file == st.file || (st.file is None && exists|j: int|
                i <= j < args.len() && file == Some(args[j]) && !is_flag_text(
                    #[trigger] args[j],
                ))
        }),
    decreases args.len() - i,
{
    if i < args.len() {
        let arg = args[i];
        match option_named(kind, arg) {
            Some(o) => {
                if o is Json {
                    lemma_scan_file(
                        kind,
                        args,
                        i + 1,
                        ScanState { settings: Settings { json: true, ..st.settings }, ..st },
                    );
                } else if i + 1 < args.len() {
                    if let Ok(next) = with_value(o, args[i + 1], st) {
                        assert(next.file == st.file);
                        lemma_scan_file(kind, args, i + 2, next);
                    }
                }
            },
            None => {
                if !is_flag_text(arg) && st.file is None {
                    let next = ScanState { file: Some(arg), ..st };
                    lemma_scan_file(kind, args, i + 1, next);
                    assert(args[i] == arg);
                }
            },
        }
    }
}

/// The input is standard input (`-`) unless the command line names a file:
/// then it is that argument, one that does not look like an option.
pub proof fn law_input_is_stdin_or_the_file_argument(kind: Kind, args: Seq<Seq<char>>)
    ensures
        ({
            let path = request_for(kind, args).path;
            path == "-"@ || exists|j: int|
                1 <= j < args.len() && path == #[trigger] args[j] && !is_flag_text(args[j])
        }),
{
    lemma_scan_file(kind, args, 1, initial_state());
}

pub(crate) proof fn lemma_scan_append(
    kind: Kind,
    a: Seq<Seq<char>>,
    b: Seq<Seq<char>>,
    i: int,
    st: ScanState,
)
    requires
        0 <= i <= a.len(),
        scan_from(kind, a, i, st).failure is None,
    ensures
        scan_from(kind, a + b, i, st) == scan_from(
            kind,
            a + b,
            a.len() as int,
            scan_from(kind, a, i, st).state,
        ),
    decreases a.len() - i,
{
    if i < a.len() {
        let arg = a[i];
        assert((a + b)[i] == arg);
        match option_named(kind, arg) {
            Some(o) => {
                if o is Json {
                    lemma_scan_append(
                        kind,
                        a,
                        b,
                        i + 1,
                        ScanState { settings: Settings { json: true, ..st.settings }, ..st },
                    );
                } else if i + 1 < a.len() {
                    assert((a + b)[i + 1] == a[i + 1]);
                    if let Ok(next) = with_value(o, a[i + 1], st) {
                        lemma_scan_append(kind, a, b, i + 2, next);
                    }
                }
            },
            None => {
                if !is_flag_text(arg) && st.file is None {
                    lemma_scan_append(kind, a, b, i + 1, ScanState { file: Some(arg), ..st });
                }
            },
        }
    }
}

/// For `head` and `sample`, a later `-n` overrides an earlier one: appending
/// `-n N` to a command line that reads cleanly sets the count to `N` and leaves
/// everything else as it was.
pub proof fn law_last_count_wins(kind: Kind, args: Seq<Seq<char>>, value: Seq<char>)
    requires
        kind is Head || kind is Sample,
        args.len() >= 1,
        request_for(kind, args).failure is None,
        numeral_value(value, usize::MAX as nat) is Some,
    ensures
        ({
            let before = request_for(kind, args);
            let after = request_for(kind, args.push("-n"@).push(value));
            &&& after.failure is None
            &&& after.settings == Settings {
                count: numeral_value(value, usize::MAX as nat).unwrap() as usize,
                ..before.settings
            }
            &&& after.path == before.path
            &&& after.fields == before.fields
            &&& after.rates == before.rates
        }),
{
    let tail = seq!["-n"@, value];
    let whole = args.push("-n"@).push(value);
    assert(whole =~= args + tail);
    lemma_scan_append(kind, args, tail, 1, initial_state());
    let mid = scan_from(kind, args, 1, initial_state()).state;
    let n = args.len() as int;
    assert(whole[n] == "-n"@);
    assert(whole[n + 1] == value);
    assert(option_named(kind, "-n"@) == Some(Opt::Lines));
    let next = with_value(Opt::Lines, value, mid);
    assert(next is Ok);
    assert(scan_from(kind, whole, n + 2, next->Ok_0).failure is None);
}

/// For `sample`, a later `--seed` overrides an earlier one: appending
/// `--seed S` to a command line that reads cleanly sets the seed to `S` and
/// leaves everything else as it was.
pub proof fn law_last_seed_wins(args: Seq<Seq<char>>, value: Seq<char>)
    requires
        args.len() >= 1,
        request_for(Kind::Sample, args).failure is None,
        numeral_value(value, u64::MAX as nat) is Some,
    ensures
        ({
            let before = request_for(Kind::Sample, args);
            let after = request_for(Kind::Sample, args.push("--seed"@).push(value));
            &&& after.failure is None
            &&& after.settings == Settings {
                seed: Some(numeral_value(value, u64::MAX as nat).unwrap() as u64),
                ..before.settings
            }
            &&& after.path == before.path
            &&& after.fields == before.fields
            &&& after.rates == before.rates
        }),
{
    let tail = seq!["--seed"@, value];
    let whole = args.push("--seed"@).push(value);
    assert(whole =~= args + tail);
    lemma_scan_append(Kind::Sample, args, tail, 1, initial_state());
    let mid = scan_from(Kind::Sample, args, 1, initial_state()).state;
    let n = args.len() as int;
    assert(whole[n] == "--seed"@);
    assert(whole[n + 1] == value);
    reveal_strlit("--seed");
    reveal_strlit("-n");
    reveal_strlit("--lines");
    assert("--seed"@ != "-n"@ && "--seed"@ != "--lines"@);
    assert(option_named(Kind::Sample, "--seed"@) == Some(Opt::Seed));
    let next = with_value(Opt::Seed, value, mid);
    assert(next is Ok);
    assert(scan_from(Kind::Sample, whole, n + 2, next->Ok_0).failure is None);
}

/// Sampling without `--seed` is sampling with the seed the clock gives: for a
/// `sample` command line that reads cleanly and gives no seed, appending
/// `--seed S`, with `S` the clock's seed written in decimal, yields the same
/// request except for the seed, and the sampler then runs with the same seed
/// whatever the clock reads.
pub proof fn law_clock_seed_equals_given_seed(
    args: Seq<Seq<char>>,
    clock_nanos: Option<u128>,
    later_clock: Option<u128>,
)
    requires
        args.len() >= 1,
        request_for(Kind::Sample, args).failure is None,
        request_for(Kind::Sample, args).settings.seed is None,
    ensures
        ({
            let s = clock_seed(clock_nanos);
            let before = request_for(Kind::Sample, args);
            let after = request_for(Kind::Sample, args.push("--seed"@).push(decimal_text(s as nat)));
            &&& after.failure is None
            &&& after.settings == Settings { seed: Some(s), ..before.settings }
            &&& after.path == before.path
            &&& after.fields == before.fields
            &&& after.rates == before.rates
            &&& seed_for(after.settings.seed, later_clock) == seed_for(
                before.settings.seed,
                clock_nanos,
            )
        }),
{
    let s = clock_seed(clock_nanos);
    law_decimal_round_trip(s as nat, u64::MAX as nat);
    law_last_seed_wins(args, decimal_text(s as nat));
}

} // verus!
