//! How a failed command is reported: a protocol error response in JSON mode,
//! the error chain as text otherwise; and the codes of command-line parse
//! errors.

use vstd::prelude::*;
use crate::cli::step::{CommandError, Outcome, Response};
use crate::protocol::{ErrorResponse, ERROR_SCHEMA};
use crate::text::{nat_text, pad_left_seq, repeat_seq, views};

verus! {

/// The kinds of error the command-line parser reports.
#[derive(Debug, Clone, Copy, PartialEq, Eq, Structural)]
pub enum ParseErrorKind {
    InvalidValue,
    UnknownArgument,
    InvalidSubcommand,
    NoEquals,
    ValueValidation,
    TooManyValues,
    TooFewValues,
    WrongNumberOfValues,
    ArgumentConflict,
    MissingRequiredArgument,
    MissingSubcommand,
    InvalidUtf8,
    DisplayHelp,
    DisplayHelpOnMissingArgumentOrSubcommand,
    DisplayVersion,
    Io,
    Format,
    /// A kind this library does not distinguish.
    Other,
}

/// The protocol code of a parse error.
pub open spec fn parse_error_code(kind: ParseErrorKind) -> Seq<char> {
    match kind {
        ParseErrorKind::InvalidValue | ParseErrorKind::ValueValidation | ParseErrorKind::InvalidUtf8
            | ParseErrorKind::NoEquals => "invalid_argument"@,
        ParseErrorKind::UnknownArgument => "unknown_argument"@,
        ParseErrorKind::InvalidSubcommand => "invalid_subcommand"@,
        ParseErrorKind::ArgumentConflict => "argument_conflict"@,
        ParseErrorKind::MissingRequiredArgument | ParseErrorKind::MissingSubcommand
            | ParseErrorKind::TooFewValues => "missing_required_argument"@,
        ParseErrorKind::TooManyValues | ParseErrorKind::WrongNumberOfValues => "wrong_number_of_values"@,
        ParseErrorKind::DisplayHelp | ParseErrorKind::DisplayHelpOnMissingArgumentOrSubcommand
            | ParseErrorKind::DisplayVersion => "display_requested"@,
        ParseErrorKind::Io | ParseErrorKind::Format | ParseErrorKind::Other => "cli_parse_error"@,
    }
}

/// The protocol code of a parse error.
pub fn clap_error_code(kind: ParseErrorKind) -> (s: &'static str)
    ensures
        s@ == parse_error_code(kind),
{
    match kind {
        ParseErrorKind::InvalidValue | ParseErrorKind::ValueValidation | ParseErrorKind::InvalidUtf8
            | ParseErrorKind::NoEquals => "invalid_argument",
        ParseErrorKind::UnknownArgument => "unknown_argument",
        ParseErrorKind::InvalidSubcommand => "invalid_subcommand",
        ParseErrorKind::ArgumentConflict => "argument_conflict",
        ParseErrorKind::MissingRequiredArgument | ParseErrorKind::MissingSubcommand
            | ParseErrorKind::TooFewValues => "missing_required_argument",
        ParseErrorKind::TooManyValues | ParseErrorKind::WrongNumberOfValues => "wrong_number_of_values",
        ParseErrorKind::DisplayHelp | ParseErrorKind::DisplayHelpOnMissingArgumentOrSubcommand
            | ParseErrorKind::DisplayVersion => "display_requested",
        ParseErrorKind::Io | ParseErrorKind::Format | ParseErrorKind::Other => "cli_parse_error",
    }
}

/// A request for help or the version, which is never reported as an error.
pub open spec fn is_display_kind(kind: ParseErrorKind) -> bool {
    kind == ParseErrorKind::DisplayHelp || kind == ParseErrorKind::DisplayHelpOnMissingArgumentOrSubcommand
        || kind == ParseErrorKind::DisplayVersion
}

pub fn is_display_request(kind: ParseErrorKind) -> (r: bool)
    ensures
        r == is_display_kind(kind),
{
    match kind {
        ParseErrorKind::DisplayHelp | ParseErrorKind::DisplayHelpOnMissingArgumentOrSubcommand
            | ParseErrorKind::DisplayVersion => true,
        _ => false,
    }
}

/// The JSON response of a failed command: its protocol error, or
/// `internal_error` with the outermost message.
pub open spec fn error_response_spec(err: CommandError, r: ErrorResponse) -> bool {
    &&& r.schema@ == ERROR_SCHEMA@
    &&& match err.protocol {
        Some(p) => r.error.code@ == p.code@ && r.error.message@ == p.message@,
        None => r.error.code@ == "internal_error"@
            && r.error.message@ == (if err.chain@.len() > 0 { err.chain@[0]@ } else { Seq::empty() }),
    }
}

pub fn error_response(err: &CommandError) -> (r: ErrorResponse)
    ensures
        error_response_spec(*err, r),
{
    match &err.protocol {
        Some(p) => ErrorResponse::new(p.code.as_str(), p.message.as_str()),
        None => {
            if err.chain.len() > 0 {
                ErrorResponse::new("internal_error", err.chain[0].as_str())
            } else {
                let empty = String::new();
                ErrorResponse::new("internal_error", empty.as_str())
            }
        },
    }
}

/// A line break in a cause message continues at the cause's indentation.
pub open spec fn indented(s: Seq<char>, pad: Seq<char>) -> Seq<char>
    decreases s.len(),
{
    if s.len() == 0 {
        Seq::empty()
    } else {
        indented(s.drop_last(), pad) + if s.last() == '\n' { seq!['\n'] + pad } else { seq![s.last()] }
    }
}

/// The lines of the causes `cs[n..]`: numbered when there are several.
pub open spec fn causes_from(cs: Seq<Seq<char>>, n: int) -> Seq<char>
    decreases cs.len() - n,
{
    if n < 0 || n >= cs.len() {
        Seq::empty()
    } else {
        let numbered = cs.len() > 1;
        let lead = if numbered { pad_left_seq(nat_text(n as nat), 5) + ": "@ } else { "    "@ };
        let pad = if numbered { repeat_seq(' ', 7) } else { repeat_seq(' ', 4) };
        "\n"@ + lead + indented(cs[n], pad) + causes_from(cs, n + 1)
    }
}

/// How anyhow's `Debug` shows an error chain: the outermost message, then
/// the causes.
pub open spec fn chain_debug(chain: Seq<Seq<char>>) -> Seq<char> {
    if chain.len() <= 1 {
        if chain.len() == 1 { chain[0] } else { Seq::empty() }
    } else {
        chain[0] + "\n\nCaused by:"@ + causes_from(chain.drop_first(), 0)
    }
}

/// The text of a failed command: `Error: `, the outermost message, then
/// the causes.
pub open spec fn report_text(chain: Seq<Seq<char>>) -> Seq<char> {
    "Error: "@ + chain_debug(chain)
}

/// What anyhow may add after the chain: nothing, or a backtrace section
/// that starts on a new paragraph (when the environment asks for
/// backtraces).
pub open spec fn backtrace_tail(extra: Seq<char>) -> bool {
    extra.len() == 0 || (extra.len() >= 2 && extra[0] == '\n' && extra[1] == '\n')
}

/// `s` is anyhow's `Debug` text of an error whose chain holds `chain`.
pub open spec fn debug_shows(chain: Seq<Seq<char>>, s: Seq<char>) -> bool {
    exists|extra: Seq<char>| #[trigger] backtrace_tail(extra) && s == chain_debug(chain) + extra
}

/// Builds an `anyhow::Error` from the innermost message with
/// `anyhow::Error::msg`, wraps it with `Error::context` for each outer
/// message, and writes it with `{:?}`. anyhow writes the outermost message,
/// then `\n\nCaused by:` and each cause on its own line (four spaces in,
/// or numbered `{: >5}: ` when there are several, continuation lines at the
/// same indentation); when a backtrace was captured it adds `\n\n` and the
/// backtrace, which depends on the environment and is not stated.
#[verifier::external_body]
fn anyhow_debug(chain: &Vec<String>) -> (s: String)
    requires
        chain@.len() > 0,
    ensures
        debug_shows(views(chain@), s@),
{
    let (last, outer) = chain.split_last().unwrap();
    let err = outer.iter().rev().fold(anyhow::Error::msg(last.clone()), |e, m| e.context(m.clone()));
    format!("{err:?}")
}

/// `s` reports a failed command with error chain `chain`.
pub open spec fn reported(chain: Seq<Seq<char>>, s: Seq<char>) -> bool {
    &&& chain.len() == 0 ==> s == report_text(chain)
    &&& chain.len() > 0 ==> exists|extra: Seq<char>| #[trigger] backtrace_tail(extra) && s == report_text(chain) + extra
}

/// The text reporting a failed command, as `Error: {err:?}` shows its error
/// chain.
pub fn error_report(err: &CommandError) -> (s: String)
    ensures
        reported(views(err.chain@), s@),
{
    if err.chain.len() == 0 {
        let s = String::from_str("Error: ");
        proof {
            assert(chain_debug(views(err.chain@)) =~= Seq::<char>::empty());
            assert(s@ =~= report_text(views(err.chain@)));
        }
        return s;
    }
    let d = anyhow_debug(&err.chain);
    let s = crate::text::cat("Error: ", d.as_str());
    proof {
        let extra = choose|extra: Seq<char>| #[trigger] backtrace_tail(extra)
            && d@ == chain_debug(views(err.chain@)) + extra;
        assert(s@ =~= report_text(views(err.chain@)) + extra);
    }
    s
}

/// One thing written to standard output, on a line of its own.
#[derive(Debug)]
pub enum Output {
    Line(String),
    Json(Response),
    Error(ErrorResponse),
}

/// What the program writes and the status it exits with.
#[derive(Debug)]
pub struct Exit {
    pub stdout: Vec<Output>,
    pub stderr: Vec<String>,
    pub code: i32,
}

/// How a failed command ends: in JSON mode one error response on standard
/// output and nothing on standard error, otherwise the report on standard
/// error; the status is 1 either way.
pub open spec fn error_exit(json: bool, err: CommandError, e: Exit) -> bool {
    &&& e.code == 1
    &&& json ==> e.stderr@.len() == 0 && e.stdout@.len() == 1
        && (e.stdout@[0] matches Output::Error(r) && error_response_spec(err, r))
    &&& !json ==> e.stdout@.len() == 0 && e.stderr@.len() == 1 && reported(views(err.chain@), e.stderr@[0]@)
}

/// Ends a failed command.
pub fn render_cli_error(json: bool, err: &CommandError) -> (e: Exit)
    ensures
        error_exit(json, *err, e),
{
    let mut stdout: Vec<Output> = Vec::new();
    let mut stderr: Vec<String> = Vec::new();
    if json {
        stdout.push(Output::Error(error_response(err)));
    } else {
        stderr.push(error_report(err));
    }
    Exit { stdout, stderr, code: 1 }
}

/// How a command ends: printed lines or a response on standard output with
/// status 0, or the failure as [`render_cli_error`] ends it.
pub open spec fn outcome_exit(outcome: Outcome, json: bool, e: Exit) -> bool {
    match outcome {
        Outcome::Print(lines) => {
            &&& e.code == 0
            &&& e.stderr@.len() == 0
            &&& e.stdout@.len() == lines@.len()
            &&& forall|i: int| 0 <= i < lines@.len() ==> (#[trigger] e.stdout@[i] matches Output::Line(l) && l@ == lines@[i]@)
        },
        Outcome::Json(r) => e.code == 0 && e.stderr@.len() == 0 && e.stdout@ == seq![Output::Json(r)],
        Outcome::Fail(err) => error_exit(json, err, e),
    }
}

/// Ends a command with its outcome.
pub fn render_outcome(outcome: Outcome, json: bool) -> (e: Exit)
    ensures
        outcome_exit(outcome, json, e),
{
    match outcome {
        Outcome::Print(lines) => {
            let mut stdout: Vec<Output> = Vec::new();
            let mut i: usize = 0;
            while i < lines.len()
                invariant
                    i <= lines.len(),
                    stdout@.len() == i,
                    forall|j: int| 0 <= j < i ==> (#[trigger] stdout@[j] matches Output::Line(l) && l@ == lines@[j]@),
                decreases lines.len() - i,
            {
                stdout.push(Output::Line(lines[i].clone()));
                i = i + 1;
            }
            Exit { stdout, stderr: Vec::new(), code: 0 }
        },
        Outcome::Json(r) => {
            let mut stdout: Vec<Output> = Vec::new();
            stdout.push(Output::Json(r));
            proof {
                assert(stdout@ =~= seq![Output::Json(r)]);
            }
            Exit { stdout, stderr: Vec::new(), code: 0 }
        },
        Outcome::Fail(err) => render_cli_error(json, &err),
    }
}

} // verus!
