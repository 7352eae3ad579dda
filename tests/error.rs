use lldb_remote::error::{ErrorType, SBError};

fn failure() -> SBError {
    SBError::wrap(true, true, 2, ErrorType::Posix, "No such file or directory".to_string())
}

#[test]
fn fresh_error_is_success() {
    let e = SBError::new();
    assert!(e.is_valid());
    assert!(e.is_success());
    assert!(!e.is_failure());
    assert_eq!(e.error(), 0);
    assert_eq!(e.error_type(), ErrorType::Invalid);
    assert_eq!(e.error_string(), "");
}

#[test]
fn default_error_is_success() {
    let e = SBError::default();
    assert!(e.is_success());
    assert!(!e.is_failure());
}

#[test]
fn success_into_ok() {
    assert!(SBError::new().into_result().is_ok());
    let e = SBError::wrap(true, false, 0, ErrorType::Generic, String::new());
    assert!(e.into_result().is_ok());
}

#[test]
fn failure_into_err_with_message() {
    let err = failure().into_result().unwrap_err();
    assert!(err.is_failure());
    assert_eq!(err.error(), 2);
    assert_eq!(err.error_type(), ErrorType::Posix);
    assert_eq!(err.error_string(), "No such file or directory");
    assert!(!err.error_string().is_empty());
}

#[test]
fn invalid_error_is_neither() {
    let e = SBError::wrap(false, true, 0, ErrorType::Invalid, String::new());
    assert!(!e.is_valid());
    assert!(!e.is_success());
    assert!(!e.is_failure());
    assert!(e.into_result().is_err());
}

#[test]
fn maybe_wrap_drops_invalid() {
    assert!(SBError::maybe_wrap(false, false, 0, ErrorType::Invalid, String::new()).is_none());
    let e = SBError::maybe_wrap(true, true, 5, ErrorType::Win32, "denied".to_string()).unwrap();
    assert!(e.is_failure());
    assert_eq!(e.error(), 5);
}

#[test]
fn clone_reports_the_same() {
    let e = failure();
    let c = e.clone();
    drop(e);
    assert!(c.is_valid());
    assert!(c.is_failure());
    assert_eq!(c.error(), 2);
    assert_eq!(c.error_type(), ErrorType::Posix);
    assert_eq!(c.error_string(), "No such file or directory");
}

#[test]
fn summary_text() {
    let invalid = SBError::wrap(false, false, 0, ErrorType::Invalid, String::new());
    assert_eq!(invalid.summary(), "Invalid SBError");
    assert_eq!(SBError::new().summary(), "SBError representing success");
    assert_eq!(failure().summary(), "SBError: No such file or directory");
}
