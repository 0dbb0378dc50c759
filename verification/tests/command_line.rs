//! Reading command lines.

use lib::command::{parse_command, Command, Request};
use lib::fail::{Fail, IoFailure};
use lib::fail::exit_plan;
use lib::session::sample_seed;

fn args(words: &[&str]) -> Vec<String> {
    words.iter().map(|w| w.to_string()).collect()
}

fn request_of(words: &[&str]) -> Request {
    match parse_command(&args(words)).outcome {
        Ok(Command::Head(r)) | Ok(Command::Sample(r)) | Ok(Command::Stats(r))
        | Ok(Command::Schema(r)) => r,
        _ => panic!("not a command with options: {:?}", words),
    }
}

fn usage(text: &str) -> Option<Fail> {
    Some(Fail::Usage(text.to_string()))
}

#[test]
fn no_command_shows_usage_and_fails() {
    let inv = parse_command(&args(&[]));
    assert!(inv.show_usage);
    let outcome = inv.outcome.map(|_| ());
    assert_eq!(outcome, Err(Fail::Usage("missing command".to_string())));
    assert_eq!(exit_plan(&outcome).code, 2);
}

#[test]
fn unknown_command_is_a_usage_error() {
    let inv = parse_command(&args(&["frobnicate"]));
    assert!(!inv.show_usage);
    let outcome = inv.outcome.map(|_| ());
    assert_eq!(outcome, Err(Fail::Usage("unknown command 'frobnicate'".to_string())));
    let plan = exit_plan(&outcome);
    assert_eq!(plan.code, 2);
    assert!(plan.lines[0].contains("unknown command"));
}

#[test]
fn help_and_version_words() {
    for word in ["-h", "--help", "help"] {
        assert!(matches!(parse_command(&args(&[word, "ignored"])).outcome, Ok(Command::Help)));
    }
    for word in ["-V", "--version"] {
        assert!(matches!(parse_command(&args(&[word])).outcome, Ok(Command::Version)));
    }
    assert!(matches!(parse_command(&args(&["-v"])).outcome, Err(Fail::Usage(_))));
}

#[test]
fn head_reads_count_and_file() {
    let r = request_of(&["head", "-n", "2", "data.jsonl"]);
    assert_eq!(r.failure, None);
    assert_eq!(r.settings.count, 2);
    assert_eq!(r.path, "data.jsonl");
    let r = request_of(&["head", "data.jsonl", "--lines", "7"]);
    assert_eq!(r.settings.count, 7);
    assert_eq!(r.path, "data.jsonl");
}

#[test]
fn file_defaults_to_standard_input() {
    let r = request_of(&["head"]);
    assert_eq!(r.failure, None);
    assert_eq!(r.settings.count, 10);
    assert_eq!(r.path, "-");
    let r = request_of(&["stats", "-"]);
    assert_eq!(r.failure, None);
    assert_eq!(r.path, "-");
}

#[test]
fn option_without_value_exits_with_two() {
    let r = request_of(&["head", "-n"]);
    assert_eq!(r.failure, usage("-n needs a value"));
    let outcome: Result<(), Fail> = Err(r.failure.unwrap());
    assert_eq!(exit_plan(&outcome).code, 2);
    let r = request_of(&["stats", "-f"]);
    assert_eq!(r.failure, usage("--field needs a value"));
}

#[test]
fn bad_numbers_are_refused() {
    let r = request_of(&["head", "-n", "ten"]);
    assert_eq!(r.failure, usage("invalid value for -n: 'ten'"));
    let r = request_of(&["sample", "--seed", "-3"]);
    assert_eq!(r.failure, usage("invalid value for --seed: '-3'"));
    let r = request_of(&["stats", "--top", "18446744073709551616"]);
    assert_eq!(r.failure, usage("invalid value for --top: '18446744073709551616'"));
}

#[test]
fn the_last_value_wins() {
    let r = request_of(&["sample", "-n", "3", "--seed", "42", "-n", "5", "f"]);
    assert_eq!(r.failure, None);
    assert_eq!(r.settings.count, 5);
    assert_eq!(r.settings.seed, Some(42));
    assert_eq!(r.path, "f");
}

#[test]
fn a_second_file_is_refused() {
    let r = request_of(&["head", "a.jsonl", "b.jsonl"]);
    assert_eq!(r.failure, usage("unexpected extra argument 'b.jsonl'"));
    assert_eq!(r.path, "a.jsonl");
}

#[test]
fn options_of_other_commands_are_unknown() {
    let r = request_of(&["head", "--seed", "1"]);
    assert_eq!(r.failure, usage("unknown option '--seed'"));
    let r = request_of(&["schema", "--field", "a"]);
    assert_eq!(r.failure, usage("unknown option '--field'"));
    let r = request_of(&["stats", "--depth", "2"]);
    assert_eq!(r.failure, usage("unknown option '--depth'"));
}

#[test]
fn stats_collects_every_field_in_order() {
    let r = request_of(&[
        "stats", "--field", "meta.src", "-f", "role", "--top", "3", "--min-count", "2",
        "--max-errors", "4", "--json", "in.jsonl",
    ]);
    assert_eq!(r.failure, None);
    assert_eq!(r.fields, vec!["meta.src".to_string(), "role".to_string()]);
    assert_eq!(r.settings.top, 3);
    assert_eq!(r.settings.min_count, 2);
    assert_eq!(r.settings.max_errors, 4);
    assert!(r.settings.json);
    assert_eq!(r.path, "in.jsonl");
}

#[test]
fn stats_defaults() {
    let r = request_of(&["stats"]);
    assert_eq!(r.failure, None);
    assert_eq!(r.settings.top, 10);
    assert_eq!(r.settings.max_errors, 10);
    assert_eq!(r.settings.min_count, 0);
    assert!(!r.settings.json);
    assert!(r.fields.is_empty());
}

#[test]
fn fields_before_a_failure_are_kept() {
    let r = request_of(&["stats", "--field", "a..b", "--bogus"]);
    assert_eq!(r.fields, vec!["a..b".to_string()]);
    assert_eq!(r.failure, usage("unknown option '--bogus'"));
}

#[test]
fn schema_depth_and_rates() {
    let r = request_of(&["schema", "--depth", "2", "--min-rate", "0.9", "x.jsonl"]);
    assert_eq!(r.failure, None);
    assert_eq!(r.settings.depth, 2);
    assert_eq!(r.rates, vec!["0.9".to_string()]);
    let r = request_of(&["schema"]);
    assert_eq!(r.settings.depth, 3);
    assert!(r.rates.is_empty());
    let r = request_of(&["schema", "--depth", "0"]);
    assert_eq!(r.failure, usage("--depth must be at least 1"));
    let r = request_of(&["schema", "--depth", "0", "--nope"]);
    assert_eq!(r.failure, usage("unknown option '--nope'"));
}

#[test]
fn exit_statuses() {
    let ok: Result<(), Fail> = Ok(());
    let plan = exit_plan(&ok);
    assert_eq!(plan.code, 0);
    assert!(plan.lines.is_empty());

    let usage_fail: Result<(), Fail> = Err(Fail::Usage("bad".to_string()));
    let plan = exit_plan(&usage_fail);
    assert_eq!(plan.code, 2);
    assert_eq!(plan.lines, vec!["jsonl-peek: bad".to_string(), "try 'jsonl-peek --help'".to_string()]);

    let runtime: Result<(), Fail> = Err(Fail::Message("cannot open 'x': gone".to_string()));
    let plan = exit_plan(&runtime);
    assert_eq!(plan.code, 1);
    assert_eq!(plan.lines, vec!["jsonl-peek: cannot open 'x': gone".to_string()]);

    let pipe: Result<(), Fail> =
        Err(Fail::Io(IoFailure { broken_pipe: true, text: "Broken pipe".to_string() }));
    let plan = exit_plan(&pipe);
    assert_eq!(plan.code, 0);
    assert!(plan.lines.is_empty());

    let disk: Result<(), Fail> =
        Err(Fail::Io(IoFailure { broken_pipe: false, text: "disk full".to_string() }));
    let plan = exit_plan(&disk);
    assert_eq!(plan.code, 1);
    assert_eq!(plan.lines, vec!["jsonl-peek: disk full".to_string()]);
}

#[test]
fn a_clock_seed_is_the_same_as_giving_it() {
    let clock = Some((3u128 << 64) + 987654321);
    let without = request_of(&["sample", "-n", "3", "f.jsonl"]);
    assert_eq!(without.settings.seed, None);
    let seed = sample_seed(without.settings.seed, clock);
    assert_eq!(seed, 987654321);
    let text = seed.to_string();
    let with = request_of(&["sample", "-n", "3", "f.jsonl", "--seed", text.as_str()]);
    assert_eq!(with.failure, None);
    assert_eq!(with.settings.seed, Some(seed));
    assert_eq!(with.settings.count, without.settings.count);
    assert_eq!(with.path, without.path);
    assert_eq!(sample_seed(with.settings.seed, None), seed);

    let before_epoch = sample_seed(without.settings.seed, None);
    let with = request_of(&["sample", "--seed", "24301"]);
    assert_eq!(sample_seed(with.settings.seed, clock), before_epoch);
}
