use slashmem::format::FormatContext;

#[test]
fn non_tty_defaults_to_json() {
    // The test harness runs with captured (non-TTY) stdout.
    let ctx = FormatContext::detect(false, false);
    assert!(!ctx.is_tty);
    assert!(ctx.use_json());
}

#[test]
fn tty_defaults_to_non_json() {
    let ctx = FormatContext::new(true, false, false);
    assert!(!ctx.use_json());
}

#[test]
fn json_flag_forces_json_even_on_tty() {
    let ctx = FormatContext::new(true, true, false);
    assert!(ctx.use_json());
}

#[test]
fn quiet_flag() {
    let ctx = FormatContext::new(true, false, true);
    assert!(ctx.is_quiet());
    assert!(!ctx.use_json());
}

#[test]
fn quiet_and_json_together() {
    let ctx = FormatContext::new(false, true, true);
    assert!(ctx.is_quiet());
    assert!(ctx.use_json());
}

#[test]
fn detect_in_test_harness() {
    let ctx = FormatContext::detect(false, false);
    assert!(!ctx.is_tty);
    assert!(ctx.use_json());
    assert!(!ctx.is_quiet());
}

#[test]
fn detect_with_json_flag() {
    let ctx = FormatContext::detect(true, false);
    assert!(ctx.use_json());
}

#[test]
fn detect_with_quiet_flag() {
    let ctx = FormatContext::detect(false, true);
    assert!(ctx.is_quiet());
}

#[test]
fn new_preserves_all_fields() {
    let ctx = FormatContext::new(true, true, true);
    assert!(ctx.is_tty);
    assert!(ctx.json);
    assert!(ctx.quiet);

    let ctx = FormatContext::new(false, false, false);
    assert!(!ctx.is_tty);
    assert!(!ctx.json);
    assert!(!ctx.quiet);
}

#[test]
fn clone_and_eq() {
    let a = FormatContext::new(true, false, true);
    let b = a.clone();
    assert_eq!(a, b);
}

#[test]
fn from_flags_pipe_is_json_and_tty_is_human() {
    assert!(FormatContext::from_flags(false, false, false).use_json());
    assert!(!FormatContext::from_flags(true, false, false).use_json());
    assert!(FormatContext::from_flags(true, true, false).use_json());
    let ctx = FormatContext::from_flags(true, false, true);
    assert!(ctx.is_tty);
    assert!(ctx.is_quiet());
}
