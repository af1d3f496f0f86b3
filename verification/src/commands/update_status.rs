//! The application update flow as the interface sees it, and the confirmation every
//! download and installation needs.

use vstd::prelude::*;
use crate::commands::error::CommandError;

verus! {

/// Where the update flow stands.
#[derive(Clone, Copy, Debug, PartialEq, Eq, Structural)]
pub enum UpdatePhase {
    Idle,
    Checking,
    UpToDate,
    Available,
    Downloading,
    Ready,
    Deferred,
    Installing,
    Error,
    Unavailable,
}

/// What the interface shows of the update flow.
#[derive(Clone, Debug, PartialEq, Eq)]
pub struct UpdateStatus {
    pub phase: UpdatePhase,
    pub installed_version: String,
    pub target_version: Option<String>,
    pub notes: Option<String>,
    pub downloaded_bytes: u64,
    pub total_bytes: Option<u64>,
    pub error: Option<String>,
}

impl UpdateStatus {
    /// The status before any check: idle, nothing offered or downloaded.
    pub open spec fn idle_spec(installed_version: String) -> UpdateStatus {
        UpdateStatus {
            phase: UpdatePhase::Idle,
            installed_version,
            target_version: None,
            notes: None,
            downloaded_bytes: 0,
            total_bytes: None,
            error: None,
        }
    }

    /// The status before any check: idle, nothing offered or downloaded.
    pub fn new(installed_version: String) -> (r: Self)
        ensures r == Self::idle_spec(installed_version),
    {
        UpdateStatus {
            phase: UpdatePhase::Idle,
            installed_version,
            target_version: None,
            notes: None,
            downloaded_bytes: 0,
            total_bytes: None,
            error: None,
        }
    }
}

/// The user's answer to "download" or "install this update?".
#[derive(Clone, Copy, Debug, PartialEq, Eq, Structural)]
pub struct UpdateConfirmation {
    pub confirmed: bool,
}

/// Downloading and installing an update need an explicit confirmation.
pub fn require_confirmation(input: &UpdateConfirmation) -> (r: Result<(), CommandError>)
    ensures
        input.confirmed ==> r is Ok,
        !input.confirmed ==> (r matches Err(CommandError::ConfirmationRequired(m)) && m@ == "Confirm this update action first."@),
{
    if !input.confirmed {
        return Err(CommandError::ConfirmationRequired(String::from_str("Confirm this update action first.")));
    }
    Ok(())
}

/// The answer while another update action holds the flow.
pub fn busy_error() -> (r: CommandError)
    ensures r matches CommandError::Internal(m) && m@ == "Another update action is in progress. Please wait."@,
{
    CommandError::Internal(String::from_str("Another update action is in progress. Please wait."))
}

/// Why an update action failed, as far as the user can act on it.
#[derive(Clone, Copy, Debug, PartialEq, Eq, Structural)]
pub enum UpdateFailure {
    /// The signature did not verify.
    Signature,
    /// The update service could not be reached or had no release.
    Network,
    /// The release holds nothing installable for this device.
    InvalidRelease,
    /// Anything else.
    Other,
}

/// The advice shown for each kind of failure.
pub open spec fn update_error_text(failure: UpdateFailure) -> Seq<char> {
    match failure {
        UpdateFailure::Signature =>
            "Update signature verification failed. Keep using this version and retry checking for updates."@,
        UpdateFailure::Network => "Could not reach the update service. Check your connection and try again."@,
        UpdateFailure::InvalidRelease =>
            "The release does not contain a valid update for this device. Try checking again later."@,
        UpdateFailure::Other =>
            "The update could not be completed. Keep using this version and try again. If installation failed, check storage space and permissions."@,
    }
}

/// The advice shown for a failed update action.
pub fn update_error(failure: UpdateFailure) -> (r: &'static str)
    ensures r@ == update_error_text(failure),
{
    match failure {
        UpdateFailure::Signature =>
            "Update signature verification failed. Keep using this version and retry checking for updates.",
        UpdateFailure::Network => "Could not reach the update service. Check your connection and try again.",
        UpdateFailure::InvalidRelease =>
            "The release does not contain a valid update for this device. Try checking again later.",
        UpdateFailure::Other =>
            "The update could not be completed. Keep using this version and try again. If installation failed, check storage space and permissions.",
    }
}

} // verus!
