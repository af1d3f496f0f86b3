use gdom::commands::error::CommandError;
use gdom::commands::update_status::{UpdateConfirmation, UpdateFailure, UpdatePhase};
use gdom::commands::updates::{CheckResult, DownloadStart, InstallGate, InstallResult, SessionKind, UpdateFlow};

fn found(url: &str, signature: &str) -> CheckResult {
    CheckResult::Found {
        version: "0.1.1".into(),
        notes: Some("fixes".into()),
        download_url: url.into(),
        signature: signature.into(),
    }
}

const GOOD_URL: &str = "https://github.com/phucrio/gdom/releases/download/v0.1.1/app.exe";

#[test]
fn progress_is_visible_without_waiting_for_session_lock() {
    let mut flow = UpdateFlow::new("0.1.0".into());
    flow.set_phase(UpdatePhase::Downloading, None);
    assert_eq!(flow.snapshot().phase, UpdatePhase::Downloading);
}

#[test]
fn an_unconfigured_build_cannot_update() {
    let mut flow = UpdateFlow::new("0.1.0".into());
    assert!(!flow.begin_check(false));
    assert_eq!(flow.status.phase, UpdatePhase::Unavailable);
    assert_eq!(flow.status.error.as_deref(), Some("Updates are not configured for this build."));
}

#[test]
fn a_full_update_needs_a_valid_release_and_two_confirmations() {
    let mut flow = UpdateFlow::new("0.1.0".into());
    assert!(flow.begin_check(true));
    assert_eq!(flow.status.phase, UpdatePhase::Checking);
    let shown = flow.finish_check(found(GOOD_URL, "sig"));
    assert_eq!(shown.phase, UpdatePhase::Available);
    assert_eq!(shown.target_version.as_deref(), Some("0.1.1"));
    assert_eq!(flow.session, SessionKind::Available);

    assert_eq!(
        flow.begin_download(&UpdateConfirmation { confirmed: false }),
        Err(CommandError::ConfirmationRequired("Confirm this update action first.".into()))
    );
    assert_eq!(flow.begin_download(&UpdateConfirmation { confirmed: true }), Ok(DownloadStart::Started));
    flow.download_progress(10, Some(100));
    flow.download_progress(u64::MAX, Some(100));
    assert_eq!(flow.status.downloaded_bytes, u64::MAX);
    assert_eq!(flow.finish_download(Ok(())).phase, UpdatePhase::Ready);
    assert_eq!(flow.begin_download(&UpdateConfirmation { confirmed: true }), Ok(DownloadStart::AlreadyReady));

    assert_eq!(flow.begin_install(&UpdateConfirmation { confirmed: true }, InstallGate::JobActive), Ok(false));
    assert_eq!(flow.status.phase, UpdatePhase::Deferred);
    assert_eq!(flow.begin_install(&UpdateConfirmation { confirmed: true }, InstallGate::Granted), Ok(true));
    assert_eq!(flow.status.phase, UpdatePhase::Installing);
    let failed = flow.finish_install(InstallResult::Aborted);
    assert_eq!(failed.error.as_deref(), Some("Installation stopped unexpectedly. Restart this app and try again."));
}

#[test]
fn untrusted_manifests_and_early_steps_are_refused() {
    let mut flow = UpdateFlow::new("0.1.0".into());
    flow.begin_check(true);
    let shown = flow.finish_check(found("https://example.com/app.exe", "sig"));
    assert_eq!(shown.phase, UpdatePhase::Error);
    assert_eq!(flow.session, SessionKind::Empty);
    flow.begin_check(true);
    assert_eq!(flow.finish_check(found(GOOD_URL, "   ")).phase, UpdatePhase::Error);
    assert_eq!(
        flow.begin_download(&UpdateConfirmation { confirmed: true }),
        Err(CommandError::Internal("Check for an update before downloading.".into()))
    );
    assert_eq!(
        flow.begin_install(&UpdateConfirmation { confirmed: true }, InstallGate::Granted),
        Err(CommandError::Internal("Download and verify the update before installing.".into()))
    );
    assert_eq!(flow.finish_check(CheckResult::UpToDate).phase, UpdatePhase::UpToDate);
    let failed = flow.finish_check(CheckResult::Failed(UpdateFailure::Network));
    assert_eq!(failed.error.as_deref(), Some("Could not reach the update service. Check your connection and try again."));
}
