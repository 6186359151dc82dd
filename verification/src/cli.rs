//! The command-line surface.
//!
//! The grammar is deliberately tiny: an optional delay flag (`-d` /
//! `--delay`) taking a decimal number of milliseconds in `0..=65535`,
//! plus the usual help and version flags.  Parsing works on the
//! arguments that follow the program name, already collected into plain
//! strings, and yields either a [`DelayConfiguration`], an informational
//! text (help or version, a successful exit), or an argument error (a
//! failing exit).  Help takes precedence over version, and both over
//! everything else.

use vstd::prelude::*;
use vstd::string::StringExecFns;
use vstd::string::StrSliceExecFns;

verus! {

/// Milliseconds waited when no delay flag is given.
pub const DEFAULT_DELAY_MS: u16 = 100;

/// Largest accepted delay, in milliseconds.
pub const MAX_DELAY_MS: u16 = 65535;

/// The delay to apply before requesting the power-off, in milliseconds.
///
/// Bounded to a 16-bit range, so it always fits the sleep duration
/// without overflow.
#[derive(Clone, Copy, Debug, PartialEq, Eq, Structural)]
pub struct DelayConfiguration {
    pub millis: u16,
}

/// A decimal digit.
pub open spec fn is_digit(c: char) -> bool {
    48 <= c as int && c as int <= 57
}

/// Numeric value of a decimal digit.
pub open spec fn digit_value(c: char) -> int {
    c as int - 48
}

/// Every character of `s` is a decimal digit.
pub open spec fn all_digits(s: Seq<char>) -> bool {
    forall|i: int| 0 <= i < s.len() ==> is_digit(s[i])
}

/// The value of `s` read as a decimal numeral (0 for the empty text).
pub open spec fn decimal_value(s: Seq<char>) -> int
    decreases s.len(),
{
    if s.len() == 0 {
        0
    } else {
        decimal_value(s.drop_last()) * 10 + digit_value(s.last())
    }
}

/// Texts accepted as a delay value: at least one character, digits
/// only, and a value within the 16-bit range.
pub open spec fn is_valid_delay_text(s: Seq<char>) -> bool {
    s.len() > 0 && all_digits(s) && decimal_value(s) <= MAX_DELAY_MS
}

/// A decimal numeral only grows as digits are appended: once a prefix
/// already exceeds the delay bound, the whole text does too.
proof fn lemma_decimal_prefix_exceeds(s: Seq<char>, i: int)
    requires
        0 <= i <= s.len(),
        decimal_value(s.take(i)) > MAX_DELAY_MS,
    ensures
        all_digits(s) ==> decimal_value(s) > MAX_DELAY_MS,
    decreases s.len() - i,
{
    if i == s.len() {
        assert(s.take(i) =~= s);
    } else if all_digits(s) {
        assert(s.take(i + 1).drop_last() =~= s.take(i));
        assert(s.take(i + 1).last() == s[i]);
        assert(is_digit(s[i]));
        assert(decimal_value(s.take(i + 1)) == decimal_value(s.take(i)) * 10 + digit_value(s[i]));
        lemma_decimal_prefix_exceeds(s, i + 1);
    }
}

/// Read a delay value: `Some` exactly on texts that
/// [`is_valid_delay_text`] accepts, returning the decimal value.
pub fn parse_delay(text: &str) -> (r: Option<u16>)
    ensures
        r is Some <==> is_valid_delay_text(text@),
        r matches Some(v) ==> v == decimal_value(text@),
{
    let n: usize = text.unicode_len();
    if n == 0 {
        return None;
    }
    let mut i: usize = 0;
    let mut acc: u32 = 0;
    while i < n
        invariant
            0 <= i <= n,
            n == text@.len(),
            all_digits(text@.take(i as int)),
            acc == decimal_value(text@.take(i as int)),
            acc <= MAX_DELAY_MS,
        decreases n - i,
    {
        let c: char = text.get_char(i);
        let cu: u32 = c as u32;
        proof {
            assert(text@.take(i as int + 1).drop_last() =~= text@.take(i as int));
            assert(text@.take(i as int + 1).last() == text@[i as int]);
        }
        if cu < 48 || cu > 57 {
            proof {
                assert(!is_digit(text@[i as int]));
            }
            return None;
        }
        let d: u32 = cu - 48;
        let next: u32 = acc * 10 + d;
        if next > MAX_DELAY_MS as u32 {
            proof {
                assert(decimal_value(text@.take(i as int + 1)) > MAX_DELAY_MS);
                lemma_decimal_prefix_exceeds(text@, i as int + 1);
            }
            return None;
        }
        acc = next;
        i += 1;
    }
    proof {
        assert(text@.take(n as int) =~= text@);
    }
    Some(acc as u16)
}

/// The help flag, short or long form.
pub open spec fn is_help_flag(s: Seq<char>) -> bool {
    s == "-h"@ || s == "--help"@
}

/// The version flag, short or long form.
pub open spec fn is_version_flag(s: Seq<char>) -> bool {
    s == "-V"@ || s == "--version"@
}

/// The delay flag, short or long form.
pub open spec fn is_delay_flag(s: Seq<char>) -> bool {
    s == "-d"@ || s == "--delay"@
}

/// Some argument asks for help.
pub open spec fn has_help(a: Seq<Seq<char>>) -> bool {
    exists|i: int| 0 <= i < a.len() && is_help_flag(a[i])
}

/// Some argument asks for the version.
pub open spec fn has_version(a: Seq<Seq<char>>) -> bool {
    exists|i: int| 0 <= i < a.len() && is_version_flag(a[i])
}

/// The usage text shown for `--help`.
pub open spec fn usage_text() -> Seq<char> {
    "Usage: monoff [OPTIONS]\n\nOptions:\n  -d, --delay <MILLIS>  Milliseconds to wait before turning off the monitors [default: 100]\n  -h, --help            Print help\n  -V, --version         Print version"@
}

/// The text shown for `--version`.
pub open spec fn version_text() -> Seq<char> {
    "monoff 0.1.0"@
}

/// The error text for a delay flag without a value.
pub open spec fn missing_value_text() -> Seq<char> {
    "error: a value is required for '--delay <MILLIS>' but none was supplied\n\nUsage: monoff [OPTIONS]"@
}

/// The error text for a delay value that is not a number in range.
pub open spec fn invalid_delay_text(v: Seq<char>) -> Seq<char> {
    ("error: invalid value '"@ + v) + "' for '--delay <MILLIS>': expected an integer in 0..=65535"@
}

/// The error text for anything else the grammar does not know.
pub open spec fn unexpected_text() -> Seq<char> {
    "error: unexpected argument\n\nUsage: monoff [OPTIONS]"@
}

/// What parsing one command line yields, as a mathematical value: run
/// with a delay, inform and exit well, or reject and exit badly.
pub enum OutcomeModel {
    Run(int),
    Inform(Seq<char>),
    Reject(Seq<char>),
}

/// Result of parsing the command line (the arguments after the program
/// name).
pub enum ParseOutcome {
    /// Arguments accepted: wait this long, then request the power-off.
    Parsed(DelayConfiguration),
    /// Help or version was asked for: show this text and exit well.
    Informational(String),
    /// The arguments are malformed: show this text and exit badly.
    ArgumentError(String),
}

impl View for ParseOutcome {
    type V = OutcomeModel;

    open spec fn view(&self) -> OutcomeModel {
        match self {
            ParseOutcome::Parsed(cfg) => OutcomeModel::Run(cfg.millis as int),
            ParseOutcome::Informational(t) => OutcomeModel::Inform(t@),
            ParseOutcome::ArgumentError(t) => OutcomeModel::Reject(t@),
        }
    }
}

/// The whole grammar: what any argument list yields.
pub open spec fn spec_parse(a: Seq<Seq<char>>) -> OutcomeModel {
    if has_help(a) {
        OutcomeModel::Inform(usage_text())
    } else if has_version(a) {
        OutcomeModel::Inform(version_text())
    } else if a.len() == 0 {
        OutcomeModel::Run(DEFAULT_DELAY_MS as int)
    } else if a.len() == 1 && is_delay_flag(a[0]) {
        OutcomeModel::Reject(missing_value_text())
    } else if a.len() == 2 && is_delay_flag(a[0]) {
        if is_valid_delay_text(a[1]) {
            OutcomeModel::Run(decimal_value(a[1]))
        } else {
            OutcomeModel::Reject(invalid_delay_text(a[1]))
        }
    } else {
        OutcomeModel::Reject(unexpected_text())
    }
}

/// Whether a string equals a given literal, by contents.
fn string_is(s: &String, lit: &str) -> (r: bool)
    ensures
        r == (s@ == lit@),
{
    let l: String = lit.to_owned();
    *s == l
}

/// Scan for a help flag anywhere among the arguments.
fn find_help(args: &Vec<String>) -> (r: bool)
    ensures
        r == has_help(args.deep_view()),
{
    let ghost a = args.deep_view();
    let mut i: usize = 0;
    while i < args.len()
        invariant
            0 <= i <= args.len(),
            a == args.deep_view(),
            a.len() == args@.len(),
            forall|j: int| 0 <= j < i ==> !is_help_flag(a[j]),
        decreases args.len() - i,
    {
        if string_is(&args[i], "-h") || string_is(&args[i], "--help") {
            proof {
                assert(is_help_flag(a[i as int]));
            }
            return true;
        }
        i += 1;
    }
    false
}

/// Scan for a version flag anywhere among the arguments.
fn find_version(args: &Vec<String>) -> (r: bool)
    ensures
        r == has_version(args.deep_view()),
{
    let ghost a = args.deep_view();
    let mut i: usize = 0;
    while i < args.len()
        invariant
            0 <= i <= args.len(),
            a == args.deep_view(),
            a.len() == args@.len(),
            forall|j: int| 0 <= j < i ==> !is_version_flag(a[j]),
        decreases args.len() - i,
    {
        if string_is(&args[i], "-V") || string_is(&args[i], "--version") {
            proof {
                assert(is_version_flag(a[i as int]));
            }
            return true;
        }
        i += 1;
    }
    false
}

/// Whether this argument is the delay flag.
fn is_delay_argument(s: &String) -> (r: bool)
    ensures
        r == is_delay_flag(s@),
{
    string_is(s, "-d") || string_is(s, "--delay")
}

/// Parse the command line: exactly the outcome that [`spec_parse`]
/// gives for these arguments.
pub fn parse_arguments(args: &Vec<String>) -> (r: ParseOutcome)
    ensures
        r@ == spec_parse(args.deep_view()),
{
    let ghost a = args.deep_view();
    if find_help(args) {
        return ParseOutcome::Informational(
            "Usage: monoff [OPTIONS]\n\nOptions:\n  -d, --delay <MILLIS>  Milliseconds to wait before turning off the monitors [default: 100]\n  -h, --help            Print help\n  -V, --version         Print version".to_owned(),
        );
    }
    if find_version(args) {
        return ParseOutcome::Informational("monoff 0.1.0".to_owned());
    }
    if args.len() == 0 {
        return ParseOutcome::Parsed(DelayConfiguration { millis: DEFAULT_DELAY_MS });
    }
    if args.len() == 1 && is_delay_argument(&args[0]) {
        return ParseOutcome::ArgumentError(
            "error: a value is required for '--delay <MILLIS>' but none was supplied\n\nUsage: monoff [OPTIONS]".to_owned(),
        );
    }
    if args.len() == 2 && is_delay_argument(&args[0]) {
        let value = &args[1];
        match parse_delay(value.as_str()) {
            Some(ms) => {
                return ParseOutcome::Parsed(DelayConfiguration { millis: ms });
            },
            None => {
                let mut text: String = "error: invalid value '".to_owned();
                text.append(value.as_str());
                text.append("' for '--delay <MILLIS>': expected an integer in 0..=65535");
                return ParseOutcome::ArgumentError(text);
            },
        }
    }
    ParseOutcome::ArgumentError(
        "error: unexpected argument\n\nUsage: monoff [OPTIONS]".to_owned(),
    )
}

} // verus!
