use slashmem::error::{AppError, Result};
use slashmem::exit_codes;

#[test]
fn app_error_from_rusqlite() {
    let sqlite_err = rusqlite::Error::InvalidColumnName("test".into());
    let err: AppError = sqlite_err.into();
    assert!(matches!(err, AppError::Database(_)));
    assert!(err.message().contains("database error"));
}

#[test]
fn app_error_from_serde_json() {
    let json_err = serde_json::from_str::<String>("not json").unwrap_err();
    let err: AppError = json_err.into();
    assert!(matches!(err, AppError::Json(_)));
    assert!(err.message().contains("json error"));
}

#[test]
fn app_error_from_io() {
    let io_err = std::io::Error::new(std::io::ErrorKind::NotFound, "gone");
    let err: AppError = io_err.into();
    assert!(matches!(err, AppError::Io(_)));
    assert!(err.message().contains("io error"));
}

#[test]
fn app_error_other() {
    let err = AppError::Other("something went wrong".into());
    assert_eq!(err.message(), "something went wrong");
}

#[test]
fn app_error_not_found_display() {
    let err = AppError::NotFound("rule-42".into());
    assert_eq!(err.message(), "not found: rule-42");
}

#[test]
fn app_error_invalid_input_display() {
    let err = AppError::InvalidInput("missing argument".into());
    assert_eq!(err.message(), "invalid input: missing argument");
}

#[test]
fn app_error_source() {
    let err = AppError::Other("no source".into());
    assert!(!err.has_source());

    let err = AppError::NotFound("x".into());
    assert!(!err.has_source());

    let db_err: AppError = rusqlite::Error::InvalidColumnName("x".into()).into();
    assert!(db_err.has_source());
}

#[test]
fn result_alias_works() {
    fn ok_fn() -> Result<i32> {
        Ok(42)
    }
    fn err_fn() -> Result<i32> {
        Err(AppError::Other("fail".into()))
    }
    assert_eq!(ok_fn().unwrap(), 42);
    assert!(err_fn().is_err());
}

#[test]
fn exit_code_not_found() {
    let err = AppError::NotFound("x".into());
    assert_eq!(err.exit_code(), exit_codes::NOT_FOUND);
    assert_eq!(err.exit_code(), 1);
}

#[test]
fn exit_code_invalid_input() {
    let err = AppError::InvalidInput("bad arg".into());
    assert_eq!(err.exit_code(), exit_codes::INVALID_INPUT);
    assert_eq!(err.exit_code(), 2);
}

#[test]
fn exit_code_database() {
    let err: AppError = rusqlite::Error::InvalidColumnName("x".into()).into();
    assert_eq!(err.exit_code(), exit_codes::DB_ERROR);
    assert_eq!(err.exit_code(), 3);
}

#[test]
fn exit_code_json() {
    let err: AppError = serde_json::from_str::<String>("bad").unwrap_err().into();
    assert_eq!(err.exit_code(), exit_codes::PARSE_ERROR);
    assert_eq!(err.exit_code(), 5);
}

#[test]
fn exit_code_io() {
    let err: AppError = std::io::Error::new(std::io::ErrorKind::PermissionDenied, "denied").into();
    assert_eq!(err.exit_code(), exit_codes::IO_ERROR);
    assert_eq!(err.exit_code(), 4);
}

#[test]
fn exit_code_other() {
    let err = AppError::Other("something".into());
    assert_eq!(err.exit_code(), exit_codes::INTERNAL);
    assert_eq!(err.exit_code(), 127);
}

#[test]
fn error_code_variants() {
    assert_eq!(AppError::NotFound("x".into()).error_code(), "NOT_FOUND");
    assert_eq!(AppError::InvalidInput("x".into()).error_code(), "INVALID_INPUT");
    assert_eq!(
        AppError::Database(rusqlite::Error::InvalidColumnName("x".into())).error_code(),
        "DB_ERROR"
    );
    assert_eq!(
        AppError::Io(std::io::Error::new(std::io::ErrorKind::Other, "x")).error_code(),
        "IO_ERROR"
    );
    assert_eq!(AppError::Other("x".into()).error_code(), "INTERNAL");
}

#[test]
fn error_code_parse_error() {
    let err: AppError = serde_json::from_str::<String>("bad").unwrap_err().into();
    assert_eq!(err.error_code(), "PARSE_ERROR");
}

#[test]
fn suggestions_not_found_non_empty() {
    let hints = AppError::NotFound("x".into()).suggestions();
    assert!(!hints.is_empty());
}

#[test]
fn suggestions_invalid_input_non_empty() {
    let hints = AppError::InvalidInput("x".into()).suggestions();
    assert!(!hints.is_empty());
}

fn one_of_each() -> Vec<AppError> {
    vec![
        AppError::NotFound("x".into()),
        AppError::InvalidInput("x".into()),
        AppError::Database(rusqlite::Error::InvalidColumnName("x".into())),
        AppError::Json(serde_json::from_str::<String>("bad").unwrap_err()),
        AppError::Io(std::io::Error::new(std::io::ErrorKind::Other, "x")),
        AppError::Other("x".into()),
    ]
}

#[test]
fn suggestions_all_variants_non_empty() {
    for err in &one_of_each() {
        assert!(!err.suggestions().is_empty(), "suggestions() must not be empty for {:?}", err);
    }
}

#[test]
fn exit_code_and_error_code_agree() {
    let errors = one_of_each();
    for a in &errors {
        for b in &errors {
            assert_eq!(a.exit_code() == b.exit_code(), a.error_code() == b.error_code());
        }
    }
}

#[test]
fn not_found_suggestions_exact() {
    assert_eq!(
        AppError::NotFound("x".into()).suggestions(),
        vec!["Check that the resource ID exists", "Run: sm rules list to see all known IDs"]
    );
}

#[test]
fn database_message_carries_sqlite_text() {
    let inner = rusqlite::Error::InvalidColumnName("colx".into());
    let expected = format!("database error: {}", inner);
    let err: AppError = inner.into();
    assert_eq!(err.message(), expected);
}
