//! The update flow between the interface and the updater: which step may follow which,
//! what each outcome shows, and the confirmation and release checks on the way.

use vstd::prelude::*;
use crate::commands::error::CommandError;
use crate::commands::update_policy::{is_release_artifact, release_artifact};
use crate::commands::update_status::{
    require_confirmation, update_error, update_error_text, UpdateConfirmation, UpdateFailure, UpdatePhase, UpdateStatus,
};
use crate::text::{chars_of, trim, trim_chars};

verus! {

/// What the updater holds between commands.
#[derive(Clone, Copy, Debug, PartialEq, Eq, Structural)]
pub enum SessionKind {
    /// Nothing checked yet, or the last check found nothing usable.
    Empty,
    /// An update was found and may be downloaded.
    Available,
    /// A verified download is ready to install.
    Ready,
}

/// The update flow: the session kind and the status the interface shows.
pub struct UpdateFlow {
    pub session: SessionKind,
    pub status: UpdateStatus,
}

/// What a check found.
pub enum CheckResult {
    Found { version: String, notes: Option<String>, download_url: String, signature: String },
    UpToDate,
    Failed(UpdateFailure),
}

/// How a download request starts.
#[derive(Clone, Copy, Debug, PartialEq, Eq, Structural)]
pub enum DownloadStart {
    /// Download the available update now.
    Started,
    /// The update is already downloaded; nothing to do.
    AlreadyReady,
}

/// What the job service answered when asked to hold all work for an installation.
#[derive(Clone, Copy, Debug, PartialEq, Eq, Structural)]
pub enum InstallGate {
    Granted,
    JobActive,
    CheckFailed,
}

/// How an installation ended when it returned at all.
#[derive(Clone, Copy, Debug, PartialEq, Eq, Structural)]
pub enum InstallResult {
    Failed(UpdateFailure),
    Aborted,
}

/// The message for a manifest whose artifact or signature cannot be trusted.
pub open spec fn invalid_manifest_message() -> Seq<char> {
    "The update manifest contains an invalid release artifact or signature. Try again later."@
}

fn copy_status(status: &UpdateStatus) -> (r: UpdateStatus)
    ensures r == *status,
{
    UpdateStatus {
        phase: status.phase,
        installed_version: status.installed_version.clone(),
        target_version: match &status.target_version { Some(v) => Some(v.clone()), None => None },
        notes: match &status.notes { Some(v) => Some(v.clone()), None => None },
        downloaded_bytes: status.downloaded_bytes,
        total_bytes: status.total_bytes,
        error: match &status.error { Some(v) => Some(v.clone()), None => None },
    }
}

impl UpdateFlow {
    /// The flow before any check.
    pub fn new(installed_version: String) -> (r: Self)
        ensures
            r.session == SessionKind::Empty,
            r.status == UpdateStatus::idle_spec(installed_version),
    {
        UpdateFlow { session: SessionKind::Empty, status: UpdateStatus::new(installed_version) }
    }

    /// What the interface shows now.
    pub fn snapshot(&self) -> (r: UpdateStatus)
        ensures r == self.status,
    {
        copy_status(&self.status)
    }

    /// Moves to `phase` with `error` as the shown error, and returns what is shown.
    pub fn set_phase(&mut self, phase: UpdatePhase, error: Option<&str>) -> (r: UpdateStatus)
        ensures
            final(self).session == old(self).session,
            final(self).status.phase == phase,
            match error {
                Some(e) => (final(self).status.error matches Some(m) && m@ == e@),
                None => final(self).status.error is None,
            },
            final(self).status.installed_version == old(self).status.installed_version,
            final(self).status.target_version == old(self).status.target_version,
            final(self).status.notes == old(self).status.notes,
            final(self).status.downloaded_bytes == old(self).status.downloaded_bytes,
            final(self).status.total_bytes == old(self).status.total_bytes,
            r == final(self).status,
    {
        self.status.phase = phase;
        self.status.error = match error {
            Some(e) => Some(String::from_str(e)),
            None => None,
        };
        copy_status(&self.status)
    }

    /// Starts a check: without an updater key the flow is unavailable; otherwise the
    /// session is cleared and the status starts over, checking.
    pub fn begin_check(&mut self, configured: bool) -> (r: bool)
        ensures
            r == configured,
            !configured ==> final(self).session == old(self).session
                && final(self).status.phase == UpdatePhase::Unavailable
                && (final(self).status.error matches Some(m) && m@ == "Updates are not configured for this build."@),
            configured ==> final(self).session == SessionKind::Empty
                && final(self).status == (UpdateStatus {
                    phase: UpdatePhase::Checking,
                    ..UpdateStatus::idle_spec(old(self).status.installed_version)
                }),
    {
        if !configured {
            self.set_phase(UpdatePhase::Unavailable, Some("Updates are not configured for this build."));
            return false;
        }
        self.session = SessionKind::Empty;
        let installed = self.status.installed_version.clone();
        let mut fresh = UpdateStatus::new(installed);
        fresh.phase = UpdatePhase::Checking;
        self.status = fresh;
        true
    }

    /// Records what a check found. A found update is offered only when its artifact is a
    /// release asset of this project for that version and it carries a signature.
    pub fn finish_check(&mut self, result: CheckResult) -> (r: UpdateStatus)
        ensures
            r == final(self).status,
            final(self).status.installed_version == old(self).status.installed_version,
            match result {
                CheckResult::Found { version, notes, download_url, signature } =>
                    if release_artifact(download_url@, version@) && trim(signature@).len() > 0 {
                        &&& final(self).session == SessionKind::Available
                        &&& final(self).status.phase == UpdatePhase::Available
                        &&& final(self).status.target_version == Some(version)
                        &&& final(self).status.notes == notes
                    } else {
                        &&& final(self).session == old(self).session
                        &&& final(self).status.phase == UpdatePhase::Error
                        &&& (final(self).status.error matches Some(m) && m@ == invalid_manifest_message())
                    },
                CheckResult::UpToDate => final(self).session == old(self).session
                    && final(self).status.phase == UpdatePhase::UpToDate && final(self).status.error is None,
                CheckResult::Failed(f) => final(self).session == old(self).session
                    && final(self).status.phase == UpdatePhase::Error
                    && (final(self).status.error matches Some(m) && m@ == update_error_text(f)),
            },
    {
        match result {
            CheckResult::Found { version, notes, download_url, signature } => {
                let signed = trim_chars(&chars_of(signature.as_str())).len() > 0;
                if !is_release_artifact(download_url.as_str(), version.as_str()) || !signed {
                    return self.set_phase(
                        UpdatePhase::Error,
                        Some("The update manifest contains an invalid release artifact or signature. Try again later."),
                    );
                }
                self.status.phase = UpdatePhase::Available;
                self.status.target_version = Some(version);
                self.status.notes = notes;
                self.session = SessionKind::Available;
                copy_status(&self.status)
            },
            CheckResult::UpToDate => self.set_phase(UpdatePhase::UpToDate, None),
            CheckResult::Failed(f) => self.set_phase(UpdatePhase::Error, Some(update_error(f))),
        }
    }

    /// Starts a download: it needs a confirmation and an available update; a ready
    /// download is left as it is.
    pub fn begin_download(&mut self, input: &UpdateConfirmation) -> (r: Result<DownloadStart, CommandError>)
        ensures
            !input.confirmed ==> (r matches Err(CommandError::ConfirmationRequired(m)) && m@ == "Confirm this update action first."@)
                && final(self).session == old(self).session && final(self).status == old(self).status,
            input.confirmed && old(self).session == SessionKind::Empty ==>
                (r matches Err(CommandError::Internal(m)) && m@ == "Check for an update before downloading."@)
                && final(self).status == old(self).status,
            input.confirmed && old(self).session == SessionKind::Ready ==>
                r == Ok::<DownloadStart, CommandError>(DownloadStart::AlreadyReady) && final(self).status == old(self).status,
            input.confirmed && old(self).session == SessionKind::Available ==> {
                &&& r == Ok::<DownloadStart, CommandError>(DownloadStart::Started)
                &&& final(self).status.phase == UpdatePhase::Downloading
                &&& final(self).status.error is None
                &&& final(self).status.downloaded_bytes == 0
                &&& final(self).status.total_bytes is None
            },
            final(self).session == old(self).session,
    {
        match require_confirmation(input) {
            Ok(()) => {},
            Err(e) => return Err(e),
        }
        match self.session {
            SessionKind::Available => {
                self.status.phase = UpdatePhase::Downloading;
                self.status.error = None;
                self.status.downloaded_bytes = 0;
                self.status.total_bytes = None;
                Ok(DownloadStart::Started)
            },
            SessionKind::Ready => Ok(DownloadStart::AlreadyReady),
            SessionKind::Empty => Err(CommandError::Internal(String::from_str("Check for an update before downloading."))),
        }
    }

    /// Counts downloaded bytes, never past the largest count.
    pub fn download_progress(&mut self, chunk: u64, total: Option<u64>)
        ensures
            final(self).session == old(self).session,
            final(self).status.downloaded_bytes == (if old(self).status.downloaded_bytes + chunk > u64::MAX {
                u64::MAX as int
            } else {
                old(self).status.downloaded_bytes + chunk
            }),
            final(self).status.total_bytes == total,
            final(self).status.phase == old(self).status.phase,
    {
        self.status.downloaded_bytes = self.status.downloaded_bytes.saturating_add(chunk);
        self.status.total_bytes = total;
    }

    /// Records how a download ended: only a completed, verified download becomes ready.
    pub fn finish_download(&mut self, result: Result<(), UpdateFailure>) -> (r: UpdateStatus)
        ensures
            r == final(self).status,
            result is Ok ==> final(self).session == SessionKind::Ready && final(self).status.phase == UpdatePhase::Ready
                && final(self).status.error is None,
            result matches Err(f) ==> final(self).session == old(self).session && final(self).status.phase == UpdatePhase::Error
                && (final(self).status.error matches Some(m) && m@ == update_error_text(f)),
    {
        match result {
            Ok(()) => {
                self.session = SessionKind::Ready;
                self.set_phase(UpdatePhase::Ready, None)
            },
            Err(f) => self.set_phase(UpdatePhase::Error, Some(update_error(f))),
        }
    }

    /// Starts an installation: it needs a confirmation and a ready download; while a job is
    /// active it is deferred, and a failed check of the jobs is an error.
    pub fn begin_install(&mut self, input: &UpdateConfirmation, gate: InstallGate) -> (r: Result<bool, CommandError>)
        ensures
            final(self).session == old(self).session,
            !input.confirmed ==> (r matches Err(CommandError::ConfirmationRequired(m)) && m@ == "Confirm this update action first."@)
                && final(self).status == old(self).status,
            input.confirmed && old(self).session != SessionKind::Ready ==>
                (r matches Err(CommandError::Internal(m)) && m@ == "Download and verify the update before installing."@)
                && final(self).status == old(self).status,
            input.confirmed && old(self).session == SessionKind::Ready ==> match gate {
                InstallGate::Granted => r == Ok::<bool, CommandError>(true) && final(self).status.phase == UpdatePhase::Installing
                    && final(self).status.error is None,
                InstallGate::JobActive => r == Ok::<bool, CommandError>(false) && final(self).status.phase == UpdatePhase::Deferred
                    && (final(self).status.error matches Some(m)
                        && m@ == "A job is still active. Wait for it to finish or pause it, then confirm installation again."@),
                InstallGate::CheckFailed => r == Ok::<bool, CommandError>(false) && final(self).status.phase == UpdatePhase::Error
                    && (final(self).status.error matches Some(m)
                        && m@ == "Could not verify saved job checkpoints. Retry after resolving the job error."@),
            },
    {
        match require_confirmation(input) {
            Ok(()) => {},
            Err(e) => return Err(e),
        }
        match self.session {
            SessionKind::Ready => {},
            _ => return Err(CommandError::Internal(String::from_str("Download and verify the update before installing."))),
        }
        match gate {
            InstallGate::Granted => {
                self.set_phase(UpdatePhase::Installing, None);
                Ok(true)
            },
            InstallGate::JobActive => {
                self.set_phase(
                    UpdatePhase::Deferred,
                    Some("A job is still active. Wait for it to finish or pause it, then confirm installation again."),
                );
                Ok(false)
            },
            InstallGate::CheckFailed => {
                self.set_phase(
                    UpdatePhase::Error,
                    Some("Could not verify saved job checkpoints. Retry after resolving the job error."),
                );
                Ok(false)
            },
        }
    }

    /// Records an installation that returned instead of restarting the application.
    pub fn finish_install(&mut self, result: InstallResult) -> (r: UpdateStatus)
        ensures
            r == final(self).status,
            final(self).session == old(self).session,
            final(self).status.phase == UpdatePhase::Error,
            match result {
                InstallResult::Failed(f) => (final(self).status.error matches Some(m) && m@ == update_error_text(f)),
                InstallResult::Aborted => (final(self).status.error matches Some(m)
                    && m@ == "Installation stopped unexpectedly. Restart this app and try again."@),
            },
    {
        match result {
            InstallResult::Failed(f) => self.set_phase(UpdatePhase::Error, Some(update_error(f))),
            InstallResult::Aborted => self.set_phase(
                UpdatePhase::Error,
                Some("Installation stopped unexpectedly. Restart this app and try again."),
            ),
        }
    }
}

} // verus!
