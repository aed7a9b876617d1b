use pg_query::binding::{check_query, Error, ErrorKind, InitGate};

#[test]
fn accepts_query_without_nul() {
    assert!(check_query("SELECT foo FROM bar WHERE baz = $1").is_ok());
    assert!(check_query("").is_ok());
}

#[test]
fn rejects_interior_nul() {
    let err = check_query("SELECT\0 1\0").unwrap_err();
    assert_eq!(err.kind, ErrorKind::InteriorNul);
    assert_eq!(err.index, 6);
    assert_eq!(err.message, "query contains a nul character");
    assert_eq!(err.file, "");
    assert_eq!(err.line, 0);
}

#[test]
fn nul_position_counts_characters() {
    let err = check_query("é\0").unwrap_err();
    assert_eq!(err.index, 1);
    let err = check_query("\0").unwrap_err();
    assert_eq!(err.index, 0);
}

#[test]
fn native_error_is_a_syntax_error() {
    let err = Error::from_raw(
        "syntax error at or near \"bar\"".to_string(),
        "scan.l".to_string(),
        1074,
        16,
    );
    assert_eq!(err.kind, ErrorKind::Syntax);
    assert_eq!(err.message, "syntax error at or near \"bar\"");
    assert_eq!(err.file, "scan.l");
    assert_eq!(err.line, 1074);
    assert_eq!(err.index, 16);
    assert_ne!(err.kind, check_query("a\0").unwrap_err().kind);
}

#[test]
fn native_error_negative_numbers_wrap() {
    let err = Error::from_raw(String::new(), String::new(), -1, 0);
    assert_eq!(err.line, u32::MAX);
    assert_eq!(err.index, 0);
}

#[test]
fn setup_runs_on_first_call_only() {
    let mut gate = InitGate::new();
    assert!(gate.enter());
    for _ in 0..1000 {
        assert!(!gate.enter());
    }
}
