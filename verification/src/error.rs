//! The library's error type: what went wrong, how it is reported to
//! scripts (exit code, machine-readable code) and what a caller might try next.
use vstd::prelude::*;

use crate::exit_codes;

verus! {

#[verifier::external_type_specification]
#[verifier::external_body]
pub struct ExSqliteError(rusqlite::Error);

#[verifier::external_type_specification]
#[verifier::external_body]
pub struct ExJsonError(serde_json::Error);

#[verifier::external_type_specification]
#[verifier::external_body]
pub struct ExIoError(std::io::Error);

/// Unified error type.
#[derive(Debug)]
pub enum AppError {
    /// A requested resource was not found.
    NotFound(String),
    /// Invalid user input or arguments.
    InvalidInput(String),
    /// Database errors from SQLite.
    Database(rusqlite::Error),
    /// JSON serialization/deserialization errors.
    Json(serde_json::Error),
    /// I/O errors.
    Io(std::io::Error),
    /// General-purpose error with a message.
    Other(String),
}

/// Result type whose error is [`AppError`].
pub type Result<T> = std::result::Result<T, AppError>;

/// The exit code that the command line reports for `e`.
pub open spec fn spec_exit_code(e: AppError) -> i32 {
    match e {
        AppError::NotFound(_) => exit_codes::NOT_FOUND,
        AppError::InvalidInput(_) => exit_codes::INVALID_INPUT,
        AppError::Database(_) => exit_codes::DB_ERROR,
        AppError::Json(_) => exit_codes::PARSE_ERROR,
        AppError::Io(_) => exit_codes::IO_ERROR,
        AppError::Other(_) => exit_codes::INTERNAL,
    }
}

/// The machine-readable code of `e` in structured output.
pub open spec fn spec_error_code(e: AppError) -> Seq<char> {
    match e {
        AppError::NotFound(_) => "NOT_FOUND"@,
        AppError::InvalidInput(_) => "INVALID_INPUT"@,
        AppError::Database(_) => "DB_ERROR"@,
        AppError::Json(_) => "PARSE_ERROR"@,
        AppError::Io(_) => "IO_ERROR"@,
        AppError::Other(_) => "INTERNAL"@,
    }
}

/// The next-step hints offered for `e`.
pub open spec fn spec_suggestions(e: AppError) -> Seq<Seq<char>> {
    match e {
        AppError::NotFound(_) => seq![
            "Check that the resource ID exists"@,
            "Run: sm rules list to see all known IDs"@,
        ],
        AppError::InvalidInput(_) => seq![
            "Check the command syntax with: sm --help"@,
            "Verify all required arguments are provided"@,
        ],
        AppError::Database(_) => seq![
            "Ensure the memory database is accessible"@,
            "Check disk space and file permissions"@,
        ],
        AppError::Json(_) => seq![
            "Verify the input is valid JSON"@,
            "Check for encoding issues or truncated data"@,
        ],
        AppError::Io(_) => seq![
            "Check file paths and permissions"@,
            "Ensure the target file or directory exists"@,
        ],
        AppError::Other(_) => seq![
            "An unexpected error occurred"@,
            "Check the error message for details"@,
        ],
    }
}

/// The prefix that the rendered message of `e` starts with.
pub open spec fn spec_message_prefix(e: AppError) -> Seq<char> {
    match e {
        AppError::NotFound(_) => "not found: "@,
        AppError::InvalidInput(_) => "invalid input: "@,
        AppError::Database(_) => "database error: "@,
        AppError::Json(_) => "json error: "@,
        AppError::Io(_) => "io error: "@,
        AppError::Other(_) => ""@,
    }
}

/// Whether `m` is the one-line message of `e`: the variant's prefix followed
/// by the carried text, or by the text the wrapped error renders itself as
/// (its `Display`, as `to_string` gives it).
pub open spec fn spec_message_is(e: AppError, m: Seq<char>) -> bool {
    match e {
        AppError::NotFound(s) => m == "not found: "@ + s@,
        AppError::InvalidInput(s) => m == "invalid input: "@ + s@,
        AppError::Database(d) => exists|s: String|
            #[trigger] vstd::string::to_string_from_display_ensures::<rusqlite::Error>(&d, s)
            && m == "database error: "@ + s@,
        AppError::Json(j) => exists|s: String|
            #[trigger] vstd::string::to_string_from_display_ensures::<serde_json::Error>(&j, s)
            && m == "json error: "@ + s@,
        AppError::Io(i) => exists|s: String|
            #[trigger] vstd::string::to_string_from_display_ensures::<std::io::Error>(&i, s)
            && m == "io error: "@ + s@,
        AppError::Other(s) => m == s@,
    }
}

/// Whether `e` wraps an underlying error of another library.
pub open spec fn spec_has_source(e: AppError) -> bool {
    e is Database || e is Json || e is Io
}

impl AppError {
    /// Return the semantic exit code for this error.
    pub fn exit_code(&self) -> (code: i32)
        ensures
            code == spec_exit_code(*self),
    {
        match self {
            AppError::NotFound(_) => exit_codes::NOT_FOUND,
            AppError::InvalidInput(_) => exit_codes::INVALID_INPUT,
            AppError::Database(_) => exit_codes::DB_ERROR,
            AppError::Json(_) => exit_codes::PARSE_ERROR,
            AppError::Io(_) => exit_codes::IO_ERROR,
            AppError::Other(_) => exit_codes::INTERNAL,
        }
    }

    /// Return a machine-readable error code string for structured output.
    pub fn error_code(&self) -> (code: &'static str)
        ensures
            code@ == spec_error_code(*self),
    {
        match self {
            AppError::NotFound(_) => "NOT_FOUND",
            AppError::InvalidInput(_) => "INVALID_INPUT",
            AppError::Database(_) => "DB_ERROR",
            AppError::Json(_) => "PARSE_ERROR",
            AppError::Io(_) => "IO_ERROR",
            AppError::Other(_) => "INTERNAL",
        }
    }

    /// Return contextual next-step hints for agents and other callers.
    pub fn suggestions(&self) -> (hints: Vec<&'static str>)
        ensures
            hints@.map_values(|h: &'static str| h@) == spec_suggestions(*self),
    {
        let pair: (&'static str, &'static str) = match self {
            AppError::NotFound(_) => (
                "Check that the resource ID exists",
                "Run: sm rules list to see all known IDs",
            ),
            AppError::InvalidInput(_) => (
                "Check the command syntax with: sm --help",
                "Verify all required arguments are provided",
            ),
            AppError::Database(_) => (
                "Ensure the memory database is accessible",
                "Check disk space and file permissions",
            ),
            AppError::Json(_) => (
                "Verify the input is valid JSON",
                "Check for encoding issues or truncated data",
            ),
            AppError::Io(_) => (
                "Check file paths and permissions",
                "Ensure the target file or directory exists",
            ),
            AppError::Other(_) => (
                "An unexpected error occurred",
                "Check the error message for details",
            ),
        };
        let mut hints: Vec<&'static str> = Vec::new();
        hints.push(pair.0);
        hints.push(pair.1);
        assert(hints@.map_values(|h: &'static str| h@) =~= spec_suggestions(*self));
        hints
    }

    /// Render the error as the one-line message shown to people.
    ///
    /// The message is the variant's prefix followed by the carried text, or
    /// by the text that the wrapped error renders itself as.
    pub fn message(&self) -> (m: String)
        ensures
            spec_message_prefix(*self).is_prefix_of(m@),
            spec_message_is(*self, m@),
    {
        proof {
            reveal_strlit("");
        }
        let m = match self {
            AppError::NotFound(s) => String::from_str("not found: ").concat(s.as_str()),
            AppError::InvalidInput(s) => String::from_str("invalid input: ").concat(s.as_str()),
            AppError::Database(e) => {
                let text = e.to_string();
                String::from_str("database error: ").concat(text.as_str())
            },
            AppError::Json(e) => {
                let text = e.to_string();
                String::from_str("json error: ").concat(text.as_str())
            },
            AppError::Io(e) => {
                let text = e.to_string();
                String::from_str("io error: ").concat(text.as_str())
            },
            AppError::Other(s) => s.clone(),
        };
        assert(spec_message_prefix(*self).is_prefix_of(m@));
        m
    }

    /// Whether this error wraps an underlying error of another library
    /// (what `std::error::Error::source` reports as present).
    pub fn has_source(&self) -> (b: bool)
        ensures
            b == spec_has_source(*self),
    {
        match self {
            AppError::Database(_) | AppError::Json(_) | AppError::Io(_) => true,
            _ => false,
        }
    }
}

impl From<rusqlite::Error> for AppError {
    fn from(e: rusqlite::Error) -> (r: Self) {
        AppError::Database(e)
    }
}

impl vstd::std_specs::convert::FromSpecImpl<rusqlite::Error> for AppError {
    open spec fn obeys_from_spec() -> bool {
        true
    }

    open spec fn from_spec(e: rusqlite::Error) -> AppError {
        AppError::Database(e)
    }
}

impl From<serde_json::Error> for AppError {
    fn from(e: serde_json::Error) -> (r: Self) {
        AppError::Json(e)
    }
}

impl vstd::std_specs::convert::FromSpecImpl<serde_json::Error> for AppError {
    open spec fn obeys_from_spec() -> bool {
        true
    }

    open spec fn from_spec(e: serde_json::Error) -> AppError {
        AppError::Json(e)
    }
}

impl From<std::io::Error> for AppError {
    fn from(e: std::io::Error) -> (r: Self) {
        AppError::Io(e)
    }
}

impl vstd::std_specs::convert::FromSpecImpl<std::io::Error> for AppError {
    open spec fn obeys_from_spec() -> bool {
        true
    }

    open spec fn from_spec(e: std::io::Error) -> AppError {
        AppError::Io(e)
    }
}

/// Two errors report the same exit code exactly when they report the same
/// machine-readable code: the two classifications agree.
pub proof fn lemma_exit_code_matches_error_code(a: AppError, b: AppError)
    ensures
        (spec_exit_code(a) == spec_exit_code(b)) <==> (spec_error_code(a) == spec_error_code(b)),
{
    reveal_strlit("NOT_FOUND");
    reveal_strlit("INVALID_INPUT");
    reveal_strlit("DB_ERROR");
    reveal_strlit("PARSE_ERROR");
    reveal_strlit("IO_ERROR");
    reveal_strlit("INTERNAL");
    if spec_error_code(a) == spec_error_code(b) {
        assert(spec_error_code(a).len() == spec_error_code(b).len());
        assert(spec_error_code(a)[0] == spec_error_code(b)[0]);
        assert(spec_error_code(a)[1] == spec_error_code(b)[1]);
    }
}

/// Every error offers at least one next-step hint, and no hint is empty.
pub proof fn lemma_suggestions_nonempty(e: AppError)
    ensures
        spec_suggestions(e).len() > 0,
        forall|i: int| 0 <= i < spec_suggestions(e).len() ==> #[trigger] spec_suggestions(e)[i].len() > 0,
{
    reveal_strlit("Check that the resource ID exists");
    reveal_strlit("Run: sm rules list to see all known IDs");
    reveal_strlit("Check the command syntax with: sm --help");
    reveal_strlit("Verify all required arguments are provided");
    reveal_strlit("Ensure the memory database is accessible");
    reveal_strlit("Check disk space and file permissions");
    reveal_strlit("Verify the input is valid JSON");
    reveal_strlit("Check for encoding issues or truncated data");
    reveal_strlit("Check file paths and permissions");
    reveal_strlit("Ensure the target file or directory exists");
    reveal_strlit("An unexpected error occurred");
    reveal_strlit("Check the error message for details");
}

} // verus!
