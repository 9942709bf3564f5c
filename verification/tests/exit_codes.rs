use slashmem::exit_codes::{
    CONFIG_ERROR, DB_ERROR, GENERAL_ERROR, INTERNAL, INVALID_ARGS, INVALID_INPUT, IO_ERROR,
    NOT_FOUND, PARSE_ERROR, SUCCESS,
};

#[test]
fn codes_are_distinct() {
    let codes = [SUCCESS, GENERAL_ERROR, INVALID_ARGS, NOT_FOUND, IO_ERROR, CONFIG_ERROR];
    for (i, a) in codes.iter().enumerate() {
        for (j, b) in codes.iter().enumerate() {
            if i != j {
                assert_ne!(a, b, "exit codes at index {i} and {j} must differ");
            }
        }
    }
}

#[test]
fn codes_are_non_negative() {
    for code in [SUCCESS, GENERAL_ERROR, INVALID_ARGS, NOT_FOUND, IO_ERROR, CONFIG_ERROR] {
        assert!(code >= 0, "exit code {code} must be non-negative");
    }
}

#[test]
fn success_is_zero() {
    assert_eq!(SUCCESS, 0);
}

#[test]
fn documented_exit_codes() {
    assert_eq!(NOT_FOUND, 1);
    assert_eq!(INVALID_INPUT, 2);
    assert_eq!(DB_ERROR, 3);
    assert_eq!(IO_ERROR, 4);
    assert_eq!(PARSE_ERROR, 5);
    assert_eq!(INTERNAL, 127);
}

#[test]
fn error_category_codes_are_distinct() {
    let codes = [SUCCESS, NOT_FOUND, INVALID_INPUT, DB_ERROR, IO_ERROR, PARSE_ERROR, INTERNAL];
    for (i, a) in codes.iter().enumerate() {
        for (j, b) in codes.iter().enumerate() {
            if i != j {
                assert_ne!(a, b);
            }
        }
    }
}
