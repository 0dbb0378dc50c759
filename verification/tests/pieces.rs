//! Numbers, messages, option helpers and run-time decisions.

use lib::decimal::parse_decimal;
use lib::fail::{
    bad_field_path, cannot_open, depth_too_small, invalid_value, missing_command,
    rate_out_of_range, unknown_command, unknown_flag, Fail,
};
use lib::options::{
    is_flag, label, need_value, parse_count, parse_number, recognise, take_positional, Kind, Opt,
};
use lib::session::{
    sample_line_use, sample_seed, schema_line_use, source_of, usage_text, version_line, Input,
    LineBudget, LineUse,
};
use lib::text::{replace_text, same_text};

#[test]
fn decimal_numerals() {
    assert_eq!(parse_decimal("0", u64::MAX), Some(0));
    assert_eq!(parse_decimal("42", u64::MAX), Some(42));
    assert_eq!(parse_decimal("+42", u64::MAX), Some(42));
    assert_eq!(parse_decimal("007", u64::MAX), Some(7));
    assert_eq!(parse_decimal("18446744073709551615", u64::MAX), Some(u64::MAX));
    assert_eq!(parse_decimal("18446744073709551616", u64::MAX), None);
    assert_eq!(parse_decimal("256", 255), None);
    assert_eq!(parse_decimal("255", 255), Some(255));
    assert_eq!(parse_decimal("", u64::MAX), None);
    assert_eq!(parse_decimal("+", u64::MAX), None);
    assert_eq!(parse_decimal("-1", u64::MAX), None);
    assert_eq!(parse_decimal("++1", u64::MAX), None);
    assert_eq!(parse_decimal("1 ", u64::MAX), None);
    assert_eq!(parse_decimal("12a", u64::MAX), None);
    assert_eq!(parse_decimal("99999999999999999999x", u64::MAX), None);
}

#[test]
fn numbers_agree_with_std() {
    for text in ["0", "7", "+7", "0010", "", "+", "-0", " 1", "1e3", "4294967296", "18446744073709551615", "18446744073709551616"] {
        assert_eq!(parse_decimal(text, u64::MAX), text.parse::<u64>().ok(), "{:?}", text);
        assert_eq!(parse_count(text, "-n").ok(), text.parse::<usize>().ok(), "{:?}", text);
    }
}

#[test]
fn option_values() {
    assert_eq!(parse_number("99", "--seed"), Ok(99));
    assert_eq!(
        parse_number("x", "--seed"),
        Err(Fail::Usage("invalid value for --seed: 'x'".to_string()))
    );
    assert_eq!(parse_count("3", "-n"), Ok(3));
    let value = "v".to_string();
    assert_eq!(need_value(Some(&value), "--top"), Ok(&value));
    assert_eq!(need_value(None, "--top"), Err(Fail::Usage("--top needs a value".to_string())));
}

#[test]
fn flags() {
    assert!(is_flag("-n"));
    assert!(is_flag("--json"));
    assert!(is_flag("-".repeat(2).as_str()));
    assert!(!is_flag("-"));
    assert!(!is_flag("file.jsonl"));
    assert!(!is_flag(""));
    assert_eq!(recognise(Kind::Head, "--lines"), Some(Opt::Lines));
    assert_eq!(recognise(Kind::Sample, "--seed"), Some(Opt::Seed));
    assert_eq!(recognise(Kind::Stats, "-f"), Some(Opt::Field));
    assert_eq!(recognise(Kind::Schema, "--json"), Some(Opt::Json));
    assert_eq!(recognise(Kind::Head, "--json"), None);
    assert_eq!(label(Opt::MaxErrors), "--max-errors");
    assert_eq!(unknown_flag("--x"), Fail::Usage("unknown option '--x'".to_string()));
}

#[test]
fn one_file_argument_only() {
    let mut file: Option<String> = None;
    assert_eq!(take_positional(&mut file, "a"), Ok(()));
    assert_eq!(file, Some("a".to_string()));
    assert_eq!(
        take_positional(&mut file, "b"),
        Err(Fail::Usage("unexpected extra argument 'b'".to_string()))
    );
    assert_eq!(file, Some("a".to_string()));
}

#[test]
fn messages() {
    assert_eq!(missing_command(), Fail::Usage("missing command".to_string()));
    assert_eq!(unknown_command("x"), Fail::Usage("unknown command 'x'".to_string()));
    assert_eq!(
        invalid_value("--depth", "deep"),
        Fail::Usage("invalid value for --depth: 'deep'".to_string())
    );
    assert_eq!(
        bad_field_path("a..b", "empty segment"),
        Fail::Usage("bad field path 'a..b': empty segment".to_string())
    );
    assert_eq!(
        rate_out_of_range(),
        Fail::Usage("--min-rate must be between 0 and 1".to_string())
    );
    assert_eq!(depth_too_small(), Fail::Usage("--depth must be at least 1".to_string()));
    assert_eq!(
        cannot_open("/definitely/not/here.jsonl", "No such file"),
        Fail::Message("cannot open '/definitely/not/here.jsonl': No such file".to_string())
    );
}

#[test]
fn help_text_names_the_program() {
    let text = usage_text();
    assert!(text.contains("usage:"));
    assert!(!text.contains("{prog}"), "the program name was not substituted");
    assert!(text.starts_with("jsonl-peek - quick health checks for JSONL datasets\n"));
    assert!(text.contains("  jsonl-peek head   [-n N] [FILE]\n"));
    assert!(text.contains("--min-count N"));
    assert!(text.ends_with("exit status: 0 success, 1 runtime error, 2 usage error\n"));
}

#[test]
fn version_line_ends_with_the_version() {
    assert_eq!(version_line("1.2.3"), "jsonl-peek 1.2.3");
}

#[test]
fn text_helpers() {
    assert_eq!(replace_text("{p} and {p}", "{p}", "x"), "x and x");
    assert_eq!(replace_text("aaa", "aa", "b"), "ba");
    assert_eq!(replace_text("abc", "", "z"), "abc");
    assert_eq!(replace_text("é{p}世", "{p}", "→"), "é→世");
    assert!(same_text("abc", "abc"));
    assert!(!same_text("abc", "abd"));
    assert!(!same_text("ab", "abc"));
}

#[test]
fn seed_choice() {
    assert_eq!(sample_seed(Some(42), Some(7)), 42);
    assert_eq!(sample_seed(None, Some(7)), 7);
    assert_eq!(sample_seed(None, Some((1u128 << 64) + 5)), 5);
    assert_eq!(sample_seed(None, None), 0x5EED);
}

#[test]
fn input_sources() {
    assert_eq!(source_of("-"), Input::Stdin);
    assert_eq!(source_of("data.jsonl"), Input::File("data.jsonl".to_string()));
}

#[test]
fn head_budget() {
    let mut budget = LineBudget::new(2);
    let mut printed = 0;
    while budget.wants_more() {
        budget.take();
        printed += 1;
    }
    assert_eq!(printed, 2);
    let empty = LineBudget::new(0);
    assert!(!empty.wants_more());
}

#[test]
fn line_uses() {
    assert_eq!(sample_line_use(true), LineUse::Skip);
    assert_eq!(sample_line_use(false), LineUse::Take);
    assert_eq!(schema_line_use(true, false), LineUse::Skip);
    assert_eq!(schema_line_use(false, true), LineUse::Take);
    assert_eq!(schema_line_use(false, false), LineUse::Reject);
}
