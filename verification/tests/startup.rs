use process_monitor::startup::{validate_startup, StartupError};

#[test]
fn missing_target_is_fatal_with_nonzero_status() {
    let r = validate_startup(false, true);
    assert_eq!(r, Err(StartupError::MissingTarget));
    assert_eq!(r.unwrap_err().exit_code(), 1);
}

#[test]
fn missing_target_is_reported_before_handler_failure() {
    let r = validate_startup(false, false);
    assert_eq!(r, Err(StartupError::MissingTarget));
}

#[test]
fn handler_registration_failure_is_fatal() {
    let r = validate_startup(true, false);
    assert_eq!(r, Err(StartupError::HandlerRegistrationFailed));
    assert_eq!(r.unwrap_err().exit_code(), 1);
}

#[test]
fn startup_proceeds_when_target_exists_and_handler_installed() {
    assert_eq!(validate_startup(true, true), Ok(()));
}
