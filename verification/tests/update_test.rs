use gdom::commands::update_status::{
    busy_error, require_confirmation, update_error, UpdateConfirmation, UpdateFailure, UpdatePhase, UpdateStatus,
};
use gdom::commands::error::CommandError;

#[test]
fn download_and_install_require_explicit_confirmation() {
    assert!(require_confirmation(&UpdateConfirmation { confirmed: false }).is_err());
    assert!(require_confirmation(&UpdateConfirmation { confirmed: true }).is_ok());
}

#[test]
fn a_new_status_is_idle() {
    let status = UpdateStatus::new("0.1.0".into());
    assert_eq!(status.phase, UpdatePhase::Idle);
    assert_eq!(status.installed_version, "0.1.0");
    assert_eq!(status.downloaded_bytes, 0);
    assert!(status.target_version.is_none() && status.error.is_none());
}

#[test]
fn update_messages_tell_the_user_what_to_do() {
    assert_eq!(busy_error(), CommandError::Internal("Another update action is in progress. Please wait.".into()));
    assert!(update_error(UpdateFailure::Network).starts_with("Could not reach the update service"));
    assert!(update_error(UpdateFailure::Signature).contains("signature verification failed"));
}
