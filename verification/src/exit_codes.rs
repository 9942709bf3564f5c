//! Semantic exit codes for the `sm` command line.
//!
//! They let callers (scripts, agents, CI) tell error categories apart
//! without parsing stderr.
use vstd::prelude::*;

verus! {

/// Command completed successfully.
pub const SUCCESS: i32 = 0;

/// A requested resource was not found.
pub const NOT_FOUND: i32 = 1;

/// Invalid user input or arguments.
pub const INVALID_INPUT: i32 = 2;

/// Invalid arguments or usage error (same category as invalid input).
pub const INVALID_ARGS: i32 = 2;

/// Database error.
pub const DB_ERROR: i32 = 3;

/// I/O error (file system, network, etc.).
pub const IO_ERROR: i32 = 4;

/// Parse error (malformed JSON and the like).
pub const PARSE_ERROR: i32 = 5;

/// Configuration or environment error.
pub const CONFIG_ERROR: i32 = 5;

/// Internal error.
pub const INTERNAL: i32 = 127;

/// Unspecified / general error (reported as an internal error).
pub const GENERAL_ERROR: i32 = 127;

} // verus!
