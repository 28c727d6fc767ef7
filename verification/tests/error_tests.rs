use pjsua_rust::error::{check_status, make_pj_error, PjError};

/// The text that PJSIP's `pj_strerror` gives for status 70018 (`PJ_ERESOLVE`).
const ERESOLVE_TEXT: &str = "gethostbyname() has returned error (PJ_ERESOLVE)";

#[test]
fn check_status_success() {
    assert!(check_status(0, String::new()).is_ok());
}

#[test]
fn check_status_failure() {
    let err = check_status(70018, ERESOLVE_TEXT.to_string()).unwrap_err();
    match &err {
        PjError::Pjsip { status, message } => {
            assert_eq!(*status, 70018);
            assert!(!message.is_empty(), "Error message should not be empty");
            assert_eq!(message, ERESOLVE_TEXT);
        }
        other => panic!("Expected PjError::Pjsip, got: {:?}", other),
    }
    // The display text should be non-empty
    let display = err.to_string();
    assert!(!display.is_empty());
    assert_eq!(display, format!("PJSIP error 70018: {ERESOLVE_TEXT}"));
}

#[test]
fn make_pj_error_produces_pjsip_variant() {
    let err = make_pj_error(70018, ERESOLVE_TEXT.to_string());
    match &err {
        PjError::Pjsip { status, message } => {
            assert_eq!(*status, 70018);
            assert!(!message.is_empty());
        }
        other => panic!("Expected Pjsip, got: {:?}", other),
    }
}

#[test]
fn error_display_already_in_use() {
    let err = PjError::AlreadyInUse("conference port".into());
    assert_eq!(err.to_string(), "Already in use: conference port");
}

#[test]
fn error_display() {
    let err = PjError::InvalidArg("bad value".into());
    assert_eq!(err.to_string(), "Invalid argument: bad value");

    let err = PjError::NotFound("account 99".into());
    assert_eq!(err.to_string(), "Not found: account 99");

    let err = PjError::AlreadyInitialized;
    assert_eq!(err.to_string(), "PJSUA already initialized");

    let err = PjError::NotInitialized;
    assert_eq!(err.to_string(), "PJSUA not initialized");

    let err = PjError::Config("missing field".into());
    assert_eq!(err.to_string(), "Config error: missing field");
}

#[test]
fn pjsip_error_display_includes_status() {
    let err = PjError::Pjsip { status: 70018, message: "oops".into() };
    assert_eq!(err.to_string(), "PJSIP error 70018: oops");
    let err = PjError::Pjsip { status: -1, message: "no pool".into() };
    assert_eq!(err.to_string(), "PJSIP error -1: no pool");
}

#[test]
fn check_status_keeps_status_and_message() {
    match check_status(-5, "bad".to_string()) {
        Err(PjError::Pjsip { status, message }) => {
            assert_eq!(status, -5);
            assert_eq!(message, "bad");
        }
        other => panic!("unexpected: {:?}", other),
    }
}
