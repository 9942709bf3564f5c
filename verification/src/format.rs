//! How command output is formatted.
//!
//! When stdout is a terminal, output defaults to a human-readable form; when
//! it is piped, output defaults to JSON so that other tools can parse it.
//! `--json` forces JSON whatever stdout is; `--quiet` suppresses normal output.
use vstd::prelude::*;

use std::io::IsTerminal;

verus! {

/// Output settings derived from the terminal and the command-line flags.
#[derive(Debug, Clone, PartialEq, Eq, Structural)]
pub struct FormatContext {
    pub is_tty: bool,
    pub json: bool,
    pub quiet: bool,
}

/// Whether standard output is attached to a terminal.
///
/// Calls `std::io::IsTerminal::is_terminal` on `std::io::stdout()`. The answer
/// depends on how the process was started, so nothing is stated of it.
#[verifier::external_body]
fn stdout_is_terminal() -> bool {
    std::io::stdout().is_terminal()
}

impl FormatContext {
    /// The settings for a given terminal state and flags: JSON output is used
    /// when it is asked for or when stdout is not a terminal.
    pub fn from_flags(is_tty: bool, json_flag: bool, quiet: bool) -> (ctx: Self)
        ensures
            ctx.is_tty == is_tty,
            ctx.json == (json_flag || !is_tty),
            ctx.quiet == quiet,
    {
        FormatContext { is_tty, json: json_flag || !is_tty, quiet }
    }

    /// Detect the terminal state of stdout and combine it with the flags.
    pub fn detect(json_flag: bool, quiet: bool) -> (ctx: Self)
        ensures
            ctx.json == (json_flag || !ctx.is_tty),
            ctx.quiet == quiet,
    {
        let is_tty = stdout_is_terminal();
        Self::from_flags(is_tty, json_flag, quiet)
    }

    /// Build from explicit values.
    pub fn new(is_tty: bool, json: bool, quiet: bool) -> (ctx: Self)
        ensures
            ctx.is_tty == is_tty,
            ctx.json == json,
            ctx.quiet == quiet,
    {
        FormatContext { is_tty, json, quiet }
    }

    /// Whether output should be JSON-formatted.
    pub fn use_json(&self) -> (b: bool)
        ensures
            b == self.json,
    {
        self.json
    }

    /// Whether normal output should be suppressed.
    pub fn is_quiet(&self) -> (b: bool)
        ensures
            b == self.quiet,
    {
        self.quiet
    }
}

/// Detected settings never choose the human-readable form on a pipe, and the
/// `--json` flag always yields JSON.
pub proof fn lemma_json_when_piped_or_forced(is_tty: bool, json_flag: bool, quiet: bool, ctx: FormatContext)
    requires
        ctx.is_tty == is_tty,
        ctx.json == (json_flag || !is_tty),
        ctx.quiet == quiet,
    ensures
        !is_tty ==> ctx.json,
        json_flag ==> ctx.json,
        (is_tty && !json_flag) ==> !ctx.json,
{
}

} // verus!
