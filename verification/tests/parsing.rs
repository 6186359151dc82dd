use monoff::channel::{dialog_style, resolve, route, OutputChannel, Severity, Sink};
use monoff::cli::{parse_arguments, parse_delay, ParseOutcome, DEFAULT_DELAY_MS};

fn args(list: &[&str]) -> Vec<String> {
    list.iter().map(|s| s.to_string()).collect()
}

const USAGE: &str = "Usage: monoff [OPTIONS]\n\nOptions:\n  -d, --delay <MILLIS>  Milliseconds to wait before turning off the monitors [default: 100]\n  -h, --help            Print help\n  -V, --version         Print version";

#[test]
fn resolve_attached_is_textual() {
    assert_eq!(resolve(true), OutputChannel::Textual);
}

#[test]
fn resolve_detached_is_graphical() {
    assert_eq!(resolve(false), OutputChannel::Graphical);
}

#[test]
fn routing_covers_all_cases() {
    assert_eq!(route(OutputChannel::Textual, Severity::Info), Sink::StandardOut);
    assert_eq!(route(OutputChannel::Textual, Severity::Error), Sink::StandardError);
    assert_eq!(route(OutputChannel::Graphical, Severity::Info), Sink::DialogInfo);
    assert_eq!(route(OutputChannel::Graphical, Severity::Error), Sink::DialogError);
}

#[test]
fn dialog_styles_carry_the_icons() {
    assert_eq!(dialog_style(Sink::StandardOut), None);
    assert_eq!(dialog_style(Sink::StandardError), None);
    assert_eq!(dialog_style(Sink::DialogInfo), Some(0x40));
    assert_eq!(dialog_style(Sink::DialogError), Some(0x10));
}

#[test]
fn delay_zero_parses() {
    assert_eq!(parse_delay("0"), Some(0));
}

#[test]
fn delay_largest_parses() {
    assert_eq!(parse_delay("65535"), Some(65535));
}

#[test]
fn delay_just_over_range_rejected() {
    assert_eq!(parse_delay("65536"), None);
}

#[test]
fn delay_empty_rejected() {
    assert_eq!(parse_delay(""), None);
}

#[test]
fn delay_non_numeric_rejected() {
    assert_eq!(parse_delay("12a"), None);
    assert_eq!(parse_delay("abc"), None);
    assert_eq!(parse_delay("-1"), None);
    assert_eq!(parse_delay("+5"), None);
    assert_eq!(parse_delay("1 0"), None);
}

#[test]
fn delay_leading_zeros_accepted() {
    assert_eq!(parse_delay("00100"), Some(100));
}

#[test]
fn delay_far_over_range_rejected() {
    assert_eq!(parse_delay("99999999999999999999"), None);
}

#[test]
fn no_arguments_gives_default_delay() {
    assert_eq!(DEFAULT_DELAY_MS, 100);
    match parse_arguments(&args(&[])) {
        ParseOutcome::Parsed(cfg) => assert_eq!(cfg.millis, DEFAULT_DELAY_MS),
        _ => panic!("expected the default delay"),
    }
}

#[test]
fn short_delay_flag_parses() {
    match parse_arguments(&args(&["-d", "250"])) {
        ParseOutcome::Parsed(cfg) => assert_eq!(cfg.millis, 250),
        _ => panic!("expected a parsed delay"),
    }
}

#[test]
fn long_delay_flag_parses() {
    match parse_arguments(&args(&["--delay", "500"])) {
        ParseOutcome::Parsed(cfg) => assert_eq!(cfg.millis, 500),
        _ => panic!("expected a parsed delay"),
    }
}

#[test]
fn help_flag_informs_with_usage() {
    match parse_arguments(&args(&["--help"])) {
        ParseOutcome::Informational(t) => assert_eq!(t, USAGE),
        _ => panic!("expected the usage text"),
    }
    match parse_arguments(&args(&["-h"])) {
        ParseOutcome::Informational(t) => assert_eq!(t, USAGE),
        _ => panic!("expected the usage text"),
    }
}

#[test]
fn version_flag_informs_with_version() {
    match parse_arguments(&args(&["-V"])) {
        ParseOutcome::Informational(t) => assert_eq!(t, "monoff 0.1.0"),
        _ => panic!("expected the version text"),
    }
    match parse_arguments(&args(&["--version"])) {
        ParseOutcome::Informational(t) => assert_eq!(t, "monoff 0.1.0"),
        _ => panic!("expected the version text"),
    }
}

#[test]
fn help_beats_other_arguments() {
    match parse_arguments(&args(&["-d", "5", "--help"])) {
        ParseOutcome::Informational(t) => assert_eq!(t, USAGE),
        _ => panic!("help should take precedence"),
    }
}

#[test]
fn help_beats_version() {
    match parse_arguments(&args(&["--version", "--help"])) {
        ParseOutcome::Informational(t) => assert_eq!(t, USAGE),
        _ => panic!("help should take precedence over version"),
    }
}

#[test]
fn delay_flag_without_value_is_an_error() {
    match parse_arguments(&args(&["--delay"])) {
        ParseOutcome::ArgumentError(t) => assert_eq!(
            t,
            "error: a value is required for '--delay <MILLIS>' but none was supplied\n\nUsage: monoff [OPTIONS]"
        ),
        _ => panic!("expected an argument error"),
    }
}

#[test]
fn negative_delay_is_an_error() {
    match parse_arguments(&args(&["--delay", "-1"])) {
        ParseOutcome::ArgumentError(t) => assert_eq!(
            t,
            "error: invalid value '-1' for '--delay <MILLIS>': expected an integer in 0..=65535"
        ),
        _ => panic!("expected an argument error"),
    }
}

#[test]
fn oversized_delay_is_an_error() {
    match parse_arguments(&args(&["--delay", "99999"])) {
        ParseOutcome::ArgumentError(t) => assert_eq!(
            t,
            "error: invalid value '99999' for '--delay <MILLIS>': expected an integer in 0..=65535"
        ),
        _ => panic!("expected an argument error"),
    }
}

#[test]
fn unknown_argument_is_an_error() {
    match parse_arguments(&args(&["--frobnicate"])) {
        ParseOutcome::ArgumentError(t) => {
            assert_eq!(t, "error: unexpected argument\n\nUsage: monoff [OPTIONS]")
        }
        _ => panic!("expected an argument error"),
    }
}

#[test]
fn extra_arguments_are_an_error() {
    match parse_arguments(&args(&["-d", "5", "-d", "6"])) {
        ParseOutcome::ArgumentError(_) => {}
        _ => panic!("expected an argument error"),
    }
}
