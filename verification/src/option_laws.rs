//! What each option does to a command line, option by option.

use vstd::prelude::*;
use crate::command::request_for;
use crate::decimal::numeral_value;
use crate::fail::{depth_text, FailView};
use crate::laws::lemma_scan_append;
use crate::options::{default_settings, is_flag_text, option_named, Kind, Opt, Settings};
use crate::scan::{initial_state, scan_from, with_value, ScanEnd, ScanState};
use crate::session::seed_for;

verus! {

/// Appending an option that takes a value, and its value, to a command line
/// that scans cleanly continues the scan with that one option.
proof fn lemma_append_option(
    kind: Kind,
    args: Seq<Seq<char>>,
    flag: Seq<char>,
    value: Seq<char>,
    o: Opt,
)
    requires
        args.len() >= 1,
        scan_from(kind, args, 1, initial_state()).failure is None,
        option_named(kind, flag) == Some(o),
        !(o is Json),
    ensures
        ({
            let mid = scan_from(kind, args, 1, initial_state()).state;
            scan_from(kind, args.push(flag).push(value), 1, initial_state()) == match with_value(
                o,
                value,
                mid,
            ) {
                Ok(next) => ScanEnd { state: next, failure: None },
                Err(f) => ScanEnd { state: mid, failure: Some(f) },
            }
        }),
{
    let tail = seq![flag, value];
    let whole = args.push(flag).push(value);
    assert(whole =~= args + tail);
    lemma_scan_append(kind, args, tail, 1, initial_state());
    let n = args.len() as int;
    assert(whole[n] == flag);
    assert(whole[n + 1] == value);
    let mid = scan_from(kind, args, 1, initial_state()).state;
    if let Ok(next) = with_value(o, value, mid) {
        assert(scan_from(kind, whole, n + 2, next) == ScanEnd { state: next, failure: None });
    }
}

/// Appending a switch that takes no value.
proof fn lemma_append_switch(kind: Kind, args: Seq<Seq<char>>, flag: Seq<char>)
    requires
        args.len() >= 1,
        scan_from(kind, args, 1, initial_state()).failure is None,
        option_named(kind, flag) == Some(Opt::Json),
    ensures
        ({
            let mid = scan_from(kind, args, 1, initial_state()).state;
            scan_from(kind, args.push(flag), 1, initial_state()) == ScanEnd {
                state: ScanState { settings: Settings { json: true, ..mid.settings }, ..mid },
                failure: None,
            }
        }),
{
    let tail = seq![flag];
    let whole = args.push(flag);
    assert(whole =~= args + tail);
    lemma_scan_append(kind, args, tail, 1, initial_state());
    let n = args.len() as int;
    assert(whole[n] == flag);
    let mid = scan_from(kind, args, 1, initial_state()).state;
    let next = ScanState { settings: Settings { json: true, ..mid.settings }, ..mid };
    assert(scan_from(kind, whole, n + 1, next) == ScanEnd { state: next, failure: None });
}

/// For `head` and `sample`, `--lines V` means exactly what `-n V` means,
/// whatever `V` is, after any command line that reads cleanly.
pub proof fn law_lines_is_n(kind: Kind, args: Seq<Seq<char>>, value: Seq<char>)
    requires
        kind is Head || kind is Sample,
        args.len() >= 1,
        request_for(kind, args).failure is None,
    ensures
        request_for(kind, args.push("--lines"@).push(value)) == request_for(
            kind,
            args.push("-n"@).push(value),
        ),
{
    reveal_strlit("-");
    reveal_strlit("-n");
    reveal_strlit("--lines");
    reveal_strlit("--seed");
    reveal_strlit("--field");
    reveal_strlit("-f");
    reveal_strlit("--top");
    reveal_strlit("--max-errors");
    reveal_strlit("--min-count");
    reveal_strlit("--json");
    reveal_strlit("--depth");
    reveal_strlit("--min-rate");
    assert("-"@.len() == 1 && "-"@[0] == '-');
    assert("-n"@.len() == 2 && "-n"@[0] == '-');
    assert("--lines"@.len() == 7 && "--lines"@[0] == '-');
    assert("--seed"@.len() == 6 && "--seed"@[0] == '-');
    assert("--field"@.len() == 7 && "--field"@[0] == '-');
    assert("-f"@.len() == 2 && "-f"@[0] == '-');
    assert("--top"@.len() == 5 && "--top"@[0] == '-');
    assert("--max-errors"@.len() == 12 && "--max-errors"@[0] == '-');
    assert("--min-count"@.len() == 11 && "--min-count"@[0] == '-');
    assert("--json"@.len() == 6 && "--json"@[0] == '-');
    assert("--depth"@.len() == 7 && "--depth"@[0] == '-');
    assert("--min-rate"@.len() == 10 && "--min-rate"@[0] == '-');
    assert(option_named(kind, "--lines"@) == Some(Opt::Lines));
    assert(option_named(kind, "-n"@) == Some(Opt::Lines));
    lemma_append_option(kind, args, "--lines"@, value, Opt::Lines);
    lemma_append_option(kind, args, "-n"@, value, Opt::Lines);
}

/// For `stats`, `-f P` means exactly what `--field P` means.
pub proof fn law_f_is_field(args: Seq<Seq<char>>, value: Seq<char>)
    requires
        args.len() >= 1,
        request_for(Kind::Stats, args).failure is None,
    ensures
        request_for(Kind::Stats, args.push("-f"@).push(value)) == request_for(
            Kind::Stats,
            args.push("--field"@).push(value),
        ),
{
    reveal_strlit("-");
    reveal_strlit("-n");
    reveal_strlit("--lines");
    reveal_strlit("--seed");
    reveal_strlit("--field");
    reveal_strlit("-f");
    reveal_strlit("--top");
    reveal_strlit("--max-errors");
    reveal_strlit("--min-count");
    reveal_strlit("--json");
    reveal_strlit("--depth");
    reveal_strlit("--min-rate");
    assert("-"@.len() == 1 && "-"@[0] == '-');
    assert("-n"@.len() == 2 && "-n"@[0] == '-');
    assert("--lines"@.len() == 7 && "--lines"@[0] == '-');
    assert("--seed"@.len() == 6 && "--seed"@[0] == '-');
    assert("--field"@.len() == 7 && "--field"@[0] == '-');
    assert("-f"@.len() == 2 && "-f"@[0] == '-');
    assert("--top"@.len() == 5 && "--top"@[0] == '-');
    assert("--max-errors"@.len() == 12 && "--max-errors"@[0] == '-');
    assert("--min-count"@.len() == 11 && "--min-count"@[0] == '-');
    assert("--json"@.len() == 6 && "--json"@[0] == '-');
    assert("--depth"@.len() == 7 && "--depth"@[0] == '-');
    assert("--min-rate"@.len() == 10 && "--min-rate"@[0] == '-');
    assert(option_named(Kind::Stats, "-f"@) == Some(Opt::Field));
    lemma_append_option(Kind::Stats, args, "-f"@, value, Opt::Field);
    lemma_append_option(Kind::Stats, args, "--field"@, value, Opt::Field);
}

/// The effect of appending `flag value` to a clean command line whose value is
/// a count `n`: the request is the one before with only `settings` changed.
pub open spec fn only_settings_changed(
    before: crate::command::RequestView,
    after: crate::command::RequestView,
    settings: Settings,
) -> bool {
    &&& after.settings == settings
    &&& after.path == before.path
    &&& after.fields == before.fields
    &&& after.rates == before.rates
}

/// `--top N` sets how many values are listed per field, and nothing else.
pub proof fn law_top_sets_only_top(args: Seq<Seq<char>>, value: Seq<char>)
    requires
        args.len() >= 1,
        request_for(Kind::Stats, args).failure is None,
        numeral_value(value, usize::MAX as nat) is Some,
    ensures
        ({
            let before = request_for(Kind::Stats, args);
            let after = request_for(Kind::Stats, args.push("--top"@).push(value));
            let n = numeral_value(value, usize::MAX as nat).unwrap() as usize;
            &&& after.failure is None
            &&& only_settings_changed(before, after, Settings { top: n, ..before.settings })
        }),
{
    reveal_strlit("-");
    reveal_strlit("-n");
    reveal_strlit("--lines");
    reveal_strlit("--seed");
    reveal_strlit("--field");
    reveal_strlit("-f");
    reveal_strlit("--top");
    reveal_strlit("--max-errors");
    reveal_strlit("--min-count");
    reveal_strlit("--json");
    reveal_strlit("--depth");
    reveal_strlit("--min-rate");
    assert("-"@.len() == 1 && "-"@[0] == '-');
    assert("-n"@.len() == 2 && "-n"@[0] == '-');
    assert("--lines"@.len() == 7 && "--lines"@[0] == '-');
    assert("--seed"@.len() == 6 && "--seed"@[0] == '-');
    assert("--field"@.len() == 7 && "--field"@[0] == '-');
    assert("-f"@.len() == 2 && "-f"@[0] == '-');
    assert("--top"@.len() == 5 && "--top"@[0] == '-');
    assert("--max-errors"@.len() == 12 && "--max-errors"@[0] == '-');
    assert("--min-count"@.len() == 11 && "--min-count"@[0] == '-');
    assert("--json"@.len() == 6 && "--json"@[0] == '-');
    assert("--depth"@.len() == 7 && "--depth"@[0] == '-');
    assert("--min-rate"@.len() == 10 && "--min-rate"@[0] == '-');
    assert(option_named(Kind::Stats, "--top"@) == Some(Opt::Top));
    lemma_append_option(Kind::Stats, args, "--top"@, value, Opt::Top);
}

/// `--max-errors N` sets how many broken lines are listed, and nothing else.
pub proof fn law_max_errors_sets_only_max_errors(args: Seq<Seq<char>>, value: Seq<char>)
    requires
        args.len() >= 1,
        request_for(Kind::Stats, args).failure is None,
        numeral_value(value, usize::MAX as nat) is Some,
    ensures
        ({
            let before = request_for(Kind::Stats, args);
            let after = request_for(Kind::Stats, args.push("--max-errors"@).push(value));
            let n = numeral_value(value, usize::MAX as nat).unwrap() as usize;
            &&& after.failure is None
            &&& only_settings_changed(before, after, Settings { max_errors: n, ..before.settings })
        }),
{
    reveal_strlit("-");
    reveal_strlit("-n");
    reveal_strlit("--lines");
    reveal_strlit("--seed");
    reveal_strlit("--field");
    reveal_strlit("-f");
    reveal_strlit("--top");
    reveal_strlit("--max-errors");
    reveal_strlit("--min-count");
    reveal_strlit("--json");
    reveal_strlit("--depth");
    reveal_strlit("--min-rate");
    assert("-"@.len() == 1 && "-"@[0] == '-');
    assert("-n"@.len() == 2 && "-n"@[0] == '-');
    assert("--lines"@.len() == 7 && "--lines"@[0] == '-');
    assert("--seed"@.len() == 6 && "--seed"@[0] == '-');
    assert("--field"@.len() == 7 && "--field"@[0] == '-');
    assert("-f"@.len() == 2 && "-f"@[0] == '-');
    assert("--top"@.len() == 5 && "--top"@[0] == '-');
    assert("--max-errors"@.len() == 12 && "--max-errors"@[0] == '-');
    assert("--min-count"@.len() == 11 && "--min-count"@[0] == '-');
    assert("--json"@.len() == 6 && "--json"@[0] == '-');
    assert("--depth"@.len() == 7 && "--depth"@[0] == '-');
    assert("--min-rate"@.len() == 10 && "--min-rate"@[0] == '-');
    assert(option_named(Kind::Stats, "--max-errors"@) == Some(Opt::MaxErrors));
    lemma_append_option(Kind::Stats, args, "--max-errors"@, value, Opt::MaxErrors);
}

/// `--min-count N` sets the least count of a listed field value, and nothing else.
pub proof fn law_min_count_sets_only_min_count(args: Seq<Seq<char>>, value: Seq<char>)
    requires
        args.len() >= 1,
        request_for(Kind::Stats, args).failure is None,
        numeral_value(value, usize::MAX as nat) is Some,
    ensures
        ({
            let before = request_for(Kind::Stats, args);
            let after = request_for(Kind::Stats, args.push("--min-count"@).push(value));
            let n = numeral_value(value, usize::MAX as nat).unwrap() as usize;
            &&& after.failure is None
            &&& only_settings_changed(before, after, Settings { min_count: n, ..before.settings })
        }),
{
    reveal_strlit("-");
    reveal_strlit("-n");
    reveal_strlit("--lines");
    reveal_strlit("--seed");
    reveal_strlit("--field");
    reveal_strlit("-f");
    reveal_strlit("--top");
    reveal_strlit("--max-errors");
    reveal_strlit("--min-count");
    reveal_strlit("--json");
    reveal_strlit("--depth");
    reveal_strlit("--min-rate");
    assert("-"@.len() == 1 && "-"@[0] == '-');
    assert("-n"@.len() == 2 && "-n"@[0] == '-');
    assert("--lines"@.len() == 7 && "--lines"@[0] == '-');
    assert("--seed"@.len() == 6 && "--seed"@[0] == '-');
    assert("--field"@.len() == 7 && "--field"@[0] == '-');
    assert("-f"@.len() == 2 && "-f"@[0] == '-');
    assert("--top"@.len() == 5 && "--top"@[0] == '-');
    assert("--max-errors"@.len() == 12 && "--max-errors"@[0] == '-');
    assert("--min-count"@.len() == 11 && "--min-count"@[0] == '-');
    assert("--json"@.len() == 6 && "--json"@[0] == '-');
    assert("--depth"@.len() == 7 && "--depth"@[0] == '-');
    assert("--min-rate"@.len() == 10 && "--min-rate"@[0] == '-');
    assert(option_named(Kind::Stats, "--min-count"@) == Some(Opt::MinCount));
    lemma_append_option(Kind::Stats, args, "--min-count"@, value, Opt::MinCount);
}

/// `--field P` adds `P` after the fields already given, and changes nothing else.
pub proof fn law_field_is_added_last(args: Seq<Seq<char>>, value: Seq<char>)
    requires
        args.len() >= 1,
        request_for(Kind::Stats, args).failure is None,
    ensures
        ({
            let before = request_for(Kind::Stats, args);
            let after = request_for(Kind::Stats, args.push("--field"@).push(value));
            &&& after.failure is None
            &&& after.fields == before.fields.push(value)
            &&& after.settings == before.settings
            &&& after.path == before.path
            &&& after.rates == before.rates
        }),
{
    reveal_strlit("-");
    reveal_strlit("-n");
    reveal_strlit("--lines");
    reveal_strlit("--seed");
    reveal_strlit("--field");
    reveal_strlit("-f");
    reveal_strlit("--top");
    reveal_strlit("--max-errors");
    reveal_strlit("--min-count");
    reveal_strlit("--json");
    reveal_strlit("--depth");
    reveal_strlit("--min-rate");
    assert("-"@.len() == 1 && "-"@[0] == '-');
    assert("-n"@.len() == 2 && "-n"@[0] == '-');
    assert("--lines"@.len() == 7 && "--lines"@[0] == '-');
    assert("--seed"@.len() == 6 && "--seed"@[0] == '-');
    assert("--field"@.len() == 7 && "--field"@[0] == '-');
    assert("-f"@.len() == 2 && "-f"@[0] == '-');
    assert("--top"@.len() == 5 && "--top"@[0] == '-');
    assert("--max-errors"@.len() == 12 && "--max-errors"@[0] == '-');
    assert("--min-count"@.len() == 11 && "--min-count"@[0] == '-');
    assert("--json"@.len() == 6 && "--json"@[0] == '-');
    assert("--depth"@.len() == 7 && "--depth"@[0] == '-');
    assert("--min-rate"@.len() == 10 && "--min-rate"@[0] == '-');
    assert(option_named(Kind::Stats, "--field"@) == Some(Opt::Field));
    lemma_append_option(Kind::Stats, args, "--field"@, value, Opt::Field);
}

/// `--min-rate R` adds `R` after the rates already given, and changes nothing else.
pub proof fn law_rate_is_added_last(args: Seq<Seq<char>>, value: Seq<char>)
    requires
        args.len() >= 1,
        request_for(Kind::Schema, args).failure is None,
    ensures
        ({
            let before = request_for(Kind::Schema, args);
            let after = request_for(Kind::Schema, args.push("--min-rate"@).push(value));
            &&& after.failure is None
            &&& after.rates == before.rates.push(value)
            &&& after.settings == before.settings
            &&& after.path == before.path
            &&& after.fields == before.fields
        }),
{
    reveal_strlit("-");
    reveal_strlit("-n");
    reveal_strlit("--lines");
    reveal_strlit("--seed");
    reveal_strlit("--field");
    reveal_strlit("-f");
    reveal_strlit("--top");
    reveal_strlit("--max-errors");
    reveal_strlit("--min-count");
    reveal_strlit("--json");
    reveal_strlit("--depth");
    reveal_strlit("--min-rate");
    assert("-"@.len() == 1 && "-"@[0] == '-');
    assert("-n"@.len() == 2 && "-n"@[0] == '-');
    assert("--lines"@.len() == 7 && "--lines"@[0] == '-');
    assert("--seed"@.len() == 6 && "--seed"@[0] == '-');
    assert("--field"@.len() == 7 && "--field"@[0] == '-');
    assert("-f"@.len() == 2 && "-f"@[0] == '-');
    assert("--top"@.len() == 5 && "--top"@[0] == '-');
    assert("--max-errors"@.len() == 12 && "--max-errors"@[0] == '-');
    assert("--min-count"@.len() == 11 && "--min-count"@[0] == '-');
    assert("--json"@.len() == 6 && "--json"@[0] == '-');
    assert("--depth"@.len() == 7 && "--depth"@[0] == '-');
    assert("--min-rate"@.len() == 10 && "--min-rate"@[0] == '-');
    assert(option_named(Kind::Schema, "--min-rate"@) == Some(Opt::MinRate));
    lemma_append_option(Kind::Schema, args, "--min-rate"@, value, Opt::MinRate);
}

/// `--json` switches to machine readable output, and changes nothing else.
pub proof fn law_json_sets_only_json(kind: Kind, args: Seq<Seq<char>>)
    requires
        kind is Stats || kind is Schema,
        args.len() >= 1,
        request_for(kind, args).failure is None,
    ensures
        ({
            let before = request_for(kind, args);
            let after = request_for(kind, args.push("--json"@));
            &&& after.failure is None
            &&& only_settings_changed(before, after, Settings { json: true, ..before.settings })
        }),
{
    reveal_strlit("-");
    reveal_strlit("-n");
    reveal_strlit("--lines");
    reveal_strlit("--seed");
    reveal_strlit("--field");
    reveal_strlit("-f");
    reveal_strlit("--top");
    reveal_strlit("--max-errors");
    reveal_strlit("--min-count");
    reveal_strlit("--json");
    reveal_strlit("--depth");
    reveal_strlit("--min-rate");
    assert("-"@.len() == 1 && "-"@[0] == '-');
    assert("-n"@.len() == 2 && "-n"@[0] == '-');
    assert("--lines"@.len() == 7 && "--lines"@[0] == '-');
    assert("--seed"@.len() == 6 && "--seed"@[0] == '-');
    assert("--field"@.len() == 7 && "--field"@[0] == '-');
    assert("-f"@.len() == 2 && "-f"@[0] == '-');
    assert("--top"@.len() == 5 && "--top"@[0] == '-');
    assert("--max-errors"@.len() == 12 && "--max-errors"@[0] == '-');
    assert("--min-count"@.len() == 11 && "--min-count"@[0] == '-');
    assert("--json"@.len() == 6 && "--json"@[0] == '-');
    assert("--depth"@.len() == 7 && "--depth"@[0] == '-');
    assert("--min-rate"@.len() == 10 && "--min-rate"@[0] == '-');
    assert(option_named(kind, "--json"@) == Some(Opt::Json));
    lemma_append_switch(kind, args, "--json"@);
}

/// `--depth N` sets the schema depth, and nothing else; the command line is
/// refused exactly when `N` is 0, with the message that the depth must be at least 1.
pub proof fn law_depth_sets_only_depth(args: Seq<Seq<char>>, value: Seq<char>)
    requires
        args.len() >= 1,
        request_for(Kind::Schema, args).failure is None,
        numeral_value(value, usize::MAX as nat) is Some,
    ensures
        ({
            let before = request_for(Kind::Schema, args);
            let after = request_for(Kind::Schema, args.push("--depth"@).push(value));
            let n = numeral_value(value, usize::MAX as nat).unwrap() as usize;
            &&& only_settings_changed(before, after, Settings { depth: n, ..before.settings })
            &&& (after.failure is None <==> n >= 1)
            &&& (n == 0 ==> after.failure == Some(FailView::Usage(depth_text())))
        }),
{
    reveal_strlit("-");
    reveal_strlit("-n");
    reveal_strlit("--lines");
    reveal_strlit("--seed");
    reveal_strlit("--field");
    reveal_strlit("-f");
    reveal_strlit("--top");
    reveal_strlit("--max-errors");
    reveal_strlit("--min-count");
    reveal_strlit("--json");
    reveal_strlit("--depth");
    reveal_strlit("--min-rate");
    assert("-"@.len() == 1 && "-"@[0] == '-');
    assert("-n"@.len() == 2 && "-n"@[0] == '-');
    assert("--lines"@.len() == 7 && "--lines"@[0] == '-');
    assert("--seed"@.len() == 6 && "--seed"@[0] == '-');
    assert("--field"@.len() == 7 && "--field"@[0] == '-');
    assert("-f"@.len() == 2 && "-f"@[0] == '-');
    assert("--top"@.len() == 5 && "--top"@[0] == '-');
    assert("--max-errors"@.len() == 12 && "--max-errors"@[0] == '-');
    assert("--min-count"@.len() == 11 && "--min-count"@[0] == '-');
    assert("--json"@.len() == 6 && "--json"@[0] == '-');
    assert("--depth"@.len() == 7 && "--depth"@[0] == '-');
    assert("--min-rate"@.len() == 10 && "--min-rate"@[0] == '-');
    assert(option_named(Kind::Schema, "--depth"@) == Some(Opt::Depth));
    lemma_append_option(Kind::Schema, args, "--depth"@, value, Opt::Depth);
}

/// A schema command line whose options all read cleanly is refused only for
/// a depth of 0: any depth of 1 or more is accepted.
pub proof fn law_schema_refuses_only_depth_zero(args: Seq<Seq<char>>)
    requires
        args.len() >= 1,
        scan_from(Kind::Schema, args, 1, initial_state()).failure is None,
    ensures
        request_for(Kind::Schema, args).failure is None <==> request_for(
            Kind::Schema,
            args,
        ).settings.depth >= 1,
        request_for(Kind::Schema, args).settings.depth == 0 ==> request_for(
            Kind::Schema,
            args,
        ).failure == Some(FailView::Usage(depth_text())),
{
}

/// An argument that does not start with `-`, and `-` itself, is the file
/// argument: the command word followed by it alone reads cleanly, with that
/// argument as the input and every setting at its default.
pub proof fn law_plain_argument_is_the_file(kind: Kind, word: Seq<char>, file: Seq<char>)
    requires
        file.len() == 0 || file[0] != '-' || file == "-"@,
    ensures
        ({
            let r = request_for(kind, seq![word, file]);
            &&& r.failure is None
            &&& r.path == file
            &&& r.settings == default_settings()
            &&& r.fields.len() == 0
            &&& r.rates.len() == 0
        }),
{
    reveal_strlit("-");
    reveal_strlit("-n");
    reveal_strlit("--lines");
    reveal_strlit("--seed");
    reveal_strlit("--field");
    reveal_strlit("-f");
    reveal_strlit("--top");
    reveal_strlit("--max-errors");
    reveal_strlit("--min-count");
    reveal_strlit("--json");
    reveal_strlit("--depth");
    reveal_strlit("--min-rate");
    assert("-"@.len() == 1 && "-"@[0] == '-');
    assert("-n"@.len() == 2 && "-n"@[0] == '-');
    assert("--lines"@.len() == 7 && "--lines"@[0] == '-');
    assert("--seed"@.len() == 6 && "--seed"@[0] == '-');
    assert("--field"@.len() == 7 && "--field"@[0] == '-');
    assert("-f"@.len() == 2 && "-f"@[0] == '-');
    assert("--top"@.len() == 5 && "--top"@[0] == '-');
    assert("--max-errors"@.len() == 12 && "--max-errors"@[0] == '-');
    assert("--min-count"@.len() == 11 && "--min-count"@[0] == '-');
    assert("--json"@.len() == 6 && "--json"@[0] == '-');
    assert("--depth"@.len() == 7 && "--depth"@[0] == '-');
    assert("--min-rate"@.len() == 10 && "--min-rate"@[0] == '-');
    assert(!is_flag_text(file));
    assert(option_named(kind, file) is None);
    let args = seq![word, file];
    assert(args[1] == file);
    let next = ScanState { file: Some(file), ..initial_state() };
    assert(scan_from(kind, args, 2, next) == ScanEnd { state: next, failure: None });
}

/// Only an argument that starts with `-`, and is not `-` alone, is taken for an option.
pub proof fn law_only_dashed_arguments_are_options(arg: Seq<char>)
    ensures
        is_flag_text(arg) <==> (arg.len() > 0 && arg[0] == '-' && arg != seq!['-']),
{
    reveal_strlit("-");
    assert("-"@ =~= seq!['-']);
}

/// A seed given with `--seed` is the seed the sampler uses, whatever the clock reads.
pub proof fn law_given_seed_is_used(given: u64, clock_nanos: Option<u128>)
    ensures
        seed_for(Some(given), clock_nanos) == given,
{
}

/// Without `--seed`, the seed is the low 64 bits of the clock's nanoseconds since
/// the epoch, and `0x5EED` when the clock reads before the epoch.
pub proof fn law_clock_seed(nanos: u128)
    ensures
        seed_for(None, Some(nanos)) as int == nanos as int % 0x1_0000_0000_0000_0000,
        seed_for(None, None) == 0x5EED,
{
}

/// Appending `--seed S` to a clean sample command line makes `S` the seed used,
/// whatever the clock reads.
pub proof fn law_appended_seed_is_used(
    args: Seq<Seq<char>>,
    value: Seq<char>,
    clock_nanos: Option<u128>,
)
    requires
        args.len() >= 1,
        request_for(Kind::Sample, args).failure is None,
        numeral_value(value, u64::MAX as nat) is Some,
    ensures
        ({
            let after = request_for(Kind::Sample, args.push("--seed"@).push(value));
            &&& after.failure is None
            &&& seed_for(after.settings.seed, clock_nanos) as nat == numeral_value(
                value,
                u64::MAX as nat,
            ).unwrap()
        }),
{
    reveal_strlit("-");
    reveal_strlit("-n");
    reveal_strlit("--lines");
    reveal_strlit("--seed");
    reveal_strlit("--field");
    reveal_strlit("-f");
    reveal_strlit("--top");
    reveal_strlit("--max-errors");
    reveal_strlit("--min-count");
    reveal_strlit("--json");
    reveal_strlit("--depth");
    reveal_strlit("--min-rate");
    assert("-"@.len() == 1 && "-"@[0] == '-');
    assert("-n"@.len() == 2 && "-n"@[0] == '-');
    assert("--lines"@.len() == 7 && "--lines"@[0] == '-');
    assert("--seed"@.len() == 6 && "--seed"@[0] == '-');
    assert("--field"@.len() == 7 && "--field"@[0] == '-');
    assert("-f"@.len() == 2 && "-f"@[0] == '-');
    assert("--top"@.len() == 5 && "--top"@[0] == '-');
    assert("--max-errors"@.len() == 12 && "--max-errors"@[0] == '-');
    assert("--min-count"@.len() == 11 && "--min-count"@[0] == '-');
    assert("--json"@.len() == 6 && "--json"@[0] == '-');
    assert("--depth"@.len() == 7 && "--depth"@[0] == '-');
    assert("--min-rate"@.len() == 10 && "--min-rate"@[0] == '-');
    assert(option_named(Kind::Sample, "--seed"@) == Some(Opt::Seed));
    lemma_append_option(Kind::Sample, args, "--seed"@, value, Opt::Seed);
}

} // verus!
