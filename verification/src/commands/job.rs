//! Job commands: reading identifiers typed or passed by the interface, and showing job
//! service errors.

use vstd::prelude::*;
use crate::commands::error::CommandError;
use crate::domain::{AccountId, JobId, RootId};
use crate::job_service::JobServiceError;
use crate::text::{chars_of, decimal, decimal_u128, parse_u128, parse_u128_spec, trim, trim_chars};

verus! {

/// The number an identifier field holds, surrounding whitespace ignored.
pub open spec fn id_value(raw: Seq<char>) -> Option<u128> {
    parse_u128_spec(trim(raw))
}

fn parse_trimmed_id(raw: &str) -> (r: Option<u128>)
    ensures r == id_value(raw@),
{
    parse_u128(&trim_chars(&chars_of(raw)))
}

/// Reads an account identifier.
pub fn parse_account_id(raw: &str) -> (r: Result<AccountId, CommandError>)
    ensures
        match id_value(raw@) {
            Some(v) => r == Ok::<AccountId, CommandError>(AccountId(v)),
            None => (r matches Err(CommandError::UnsupportedAccount(m)) && m@ == "Invalid account ID format"@),
        },
{
    match parse_trimmed_id(raw) {
        Some(v) => Ok(AccountId::new(v)),
        None => Err(CommandError::UnsupportedAccount(String::from_str("Invalid account ID format"))),
    }
}

/// Reads a job identifier.
pub fn parse_job_id(raw: &str) -> (r: Result<JobId, CommandError>)
    ensures
        match id_value(raw@) {
            Some(v) => r == Ok::<JobId, CommandError>(JobId(v)),
            None => (r matches Err(CommandError::JobNotFound(m)) && m@ == "Invalid job ID format"@),
        },
{
    match parse_trimmed_id(raw) {
        Some(v) => Ok(JobId::new(v)),
        None => Err(CommandError::JobNotFound(String::from_str("Invalid job ID format"))),
    }
}

/// Reads a root identifier.
pub fn parse_root_id(raw: &str) -> (r: Result<RootId, CommandError>)
    ensures
        match id_value(raw@) {
            Some(v) => r == Ok::<RootId, CommandError>(RootId(v)),
            None => (r matches Err(CommandError::InvalidFolder(m)) && m@ == "Invalid root ID format"@),
        },
{
    match parse_trimmed_id(raw) {
        Some(v) => Ok(RootId::new(v)),
        None => Err(CommandError::InvalidFolder(String::from_str("Invalid root ID format"))),
    }
}

/// How the interface shows a job service error: each kind and its message.
pub open spec fn shown_job_error(err: JobServiceError, r: CommandError) -> bool {
    match err {
        JobServiceError::SameSourceAndTarget =>
            r matches CommandError::SameSourceAndTarget(m) && m@ == "Source and target accounts must be different"@,
        JobServiceError::SourceAccountNotFound(id) =>
            r matches CommandError::AccountNotFound(m) && m@ == "Source account "@ + decimal(id.0 as nat) + " not found"@,
        JobServiceError::TargetAccountNotFound(id) =>
            r matches CommandError::AccountNotFound(m) && m@ == "Target account "@ + decimal(id.0 as nat) + " not found"@,
        JobServiceError::AccountNotActive(id) =>
            r matches CommandError::UnsupportedAccount(m) && m@ == "Account "@ + decimal(id.0 as nat) + " is not active or connected"@,
        JobServiceError::JobNotFound(id) =>
            r matches CommandError::JobNotFound(m) && m@ == "Migration job "@ + decimal(id.0 as nat) + " not found"@,
        JobServiceError::RootNotFound(id) =>
            r matches CommandError::InvalidFolder(m) && m@ == "Migration root "@ + decimal(id.0 as nat) + " not found"@,
        JobServiceError::DuplicateRoot(file_id) =>
            r matches CommandError::DuplicateRoot(m) && m@ == "Root folder "@ + file_id@ + " already added to this job"@,
        JobServiceError::AccountPairLocked =>
            r matches CommandError::AccountPairLocked(m) && m@ == "Account pair cannot be changed after scan starts"@,
        JobServiceError::RootsLocked =>
            r matches CommandError::RootsLocked(m) && m@ == "Root folders cannot be modified after scan starts"@,
        JobServiceError::ParseError(e) => r matches CommandError::InvalidFolder(m) && m@ == e.message(),
        JobServiceError::TokenError(e) => r matches CommandError::OAuth(m) && m@ == e@,
        JobServiceError::DriveError(e) => r matches CommandError::Internal(m) && m@ == e@,
        JobServiceError::FolderNotFound =>
            r matches CommandError::InvalidFolder(m) && m@ == "Folder not found in Google Drive"@,
        JobServiceError::NotAFolder =>
            r matches CommandError::InvalidFolder(m) && m@ == "Selected item is not a Google Drive folder"@,
        JobServiceError::FolderTrashed =>
            r matches CommandError::InvalidFolder(m) && m@ == "Folder is trashed in Google Drive"@,
        JobServiceError::SharedDriveNotSupported => r matches CommandError::SharedDriveNotSupported(m)
            && m@ == "Shared Drives cannot be selected as personal migration roots"@,
        JobServiceError::NotOwnedBySourceAccount =>
            r matches CommandError::NotOwnedBySource(m) && m@ == "Folder is not owned by the selected source account"@,
        JobServiceError::StoreError(e) => r matches CommandError::Database(m) && m@ == e@,
        JobServiceError::NoValidatedRoots =>
            r matches CommandError::NoValidatedRoots(m) && m@ == "Scan requires at least one validated root folder"@,
        JobServiceError::IllegalTransition => r matches CommandError::IllegalJobTransition(m)
            && m@ == "This action is not allowed in the current job state"@,
        JobServiceError::RateLimited => r matches CommandError::RateLimited(m)
            && m@ == "Google Drive rate limit reached. Scan paused without mutating files."@,
        JobServiceError::ExportFailed(e) => r matches CommandError::ExportFailed(m) && m@ == e@,
        JobServiceError::ScanInProgress =>
            r matches CommandError::ScanInProgress(m) && m@ == "A scan is already running for this job"@,
        JobServiceError::ConfirmationMismatch => r matches CommandError::ConfirmationRequired(m)
            && m@ == "Target email confirmation does not match the job target account"@,
        JobServiceError::TransferInProgress =>
            r matches CommandError::TransferInProgress(m) && m@ == "A transfer is already running for this job"@,
        JobServiceError::SharingRateLimited => r matches CommandError::RateLimited(m)
            && m@ == "Google Drive sharing rate limit reached. Migration paused without fast retry."@,
        JobServiceError::WaitingForQuota => r matches CommandError::RateLimited(m)
            && m@ == "Google Drive storage quota exceeded. Migration paused until quota is resolved."@,
        JobServiceError::AuthRequired =>
            r matches CommandError::OAuth(m) && m@ == "An account needs to be re-authenticated"@,
    }
}

fn between(prefix: &str, middle: &str, suffix: &str) -> (r: String)
    ensures r@ == prefix@ + middle@ + suffix@,
{
    String::from_str(prefix).concat(middle).concat(suffix)
}

/// Shows a job service error as a command error.
pub fn map_job_service_error(err: JobServiceError) -> (r: CommandError)
    ensures shown_job_error(err, r),
{
    match err {
        JobServiceError::SameSourceAndTarget =>
            CommandError::SameSourceAndTarget(String::from_str("Source and target accounts must be different")),
        JobServiceError::SourceAccountNotFound(id) =>
            CommandError::AccountNotFound(between("Source account ", decimal_u128(id.0).as_str(), " not found")),
        JobServiceError::TargetAccountNotFound(id) =>
            CommandError::AccountNotFound(between("Target account ", decimal_u128(id.0).as_str(), " not found")),
        JobServiceError::AccountNotActive(id) =>
            CommandError::UnsupportedAccount(between("Account ", decimal_u128(id.0).as_str(), " is not active or connected")),
        JobServiceError::JobNotFound(id) =>
            CommandError::JobNotFound(between("Migration job ", decimal_u128(id.0).as_str(), " not found")),
        JobServiceError::RootNotFound(id) =>
            CommandError::InvalidFolder(between("Migration root ", decimal_u128(id.0).as_str(), " not found")),
        JobServiceError::DuplicateRoot(file_id) =>
            CommandError::DuplicateRoot(between("Root folder ", file_id.as_str(), " already added to this job")),
        JobServiceError::AccountPairLocked =>
            CommandError::AccountPairLocked(String::from_str("Account pair cannot be changed after scan starts")),
        JobServiceError::RootsLocked =>
            CommandError::RootsLocked(String::from_str("Root folders cannot be modified after scan starts")),
        JobServiceError::ParseError(e) => CommandError::InvalidFolder(e.to_string()),
        JobServiceError::TokenError(e) => CommandError::OAuth(e),
        JobServiceError::DriveError(e) => CommandError::Internal(e),
        JobServiceError::FolderNotFound => CommandError::InvalidFolder(String::from_str("Folder not found in Google Drive")),
        JobServiceError::NotAFolder =>
            CommandError::InvalidFolder(String::from_str("Selected item is not a Google Drive folder")),
        JobServiceError::FolderTrashed => CommandError::InvalidFolder(String::from_str("Folder is trashed in Google Drive")),
        JobServiceError::SharedDriveNotSupported => CommandError::SharedDriveNotSupported(
            String::from_str("Shared Drives cannot be selected as personal migration roots"),
        ),
        JobServiceError::NotOwnedBySourceAccount =>
            CommandError::NotOwnedBySource(String::from_str("Folder is not owned by the selected source account")),
        JobServiceError::StoreError(e) => CommandError::Database(e),
        JobServiceError::NoValidatedRoots =>
            CommandError::NoValidatedRoots(String::from_str("Scan requires at least one validated root folder")),
        JobServiceError::IllegalTransition =>
            CommandError::IllegalJobTransition(String::from_str("This action is not allowed in the current job state")),
        JobServiceError::RateLimited => CommandError::RateLimited(
            String::from_str("Google Drive rate limit reached. Scan paused without mutating files."),
        ),
        JobServiceError::ExportFailed(e) => CommandError::ExportFailed(e),
        JobServiceError::ScanInProgress =>
            CommandError::ScanInProgress(String::from_str("A scan is already running for this job")),
        JobServiceError::ConfirmationMismatch => CommandError::ConfirmationRequired(
            String::from_str("Target email confirmation does not match the job target account"),
        ),
        JobServiceError::TransferInProgress =>
            CommandError::TransferInProgress(String::from_str("A transfer is already running for this job")),
        JobServiceError::SharingRateLimited => CommandError::RateLimited(
            String::from_str("Google Drive sharing rate limit reached. Migration paused without fast retry."),
        ),
        JobServiceError::WaitingForQuota => CommandError::RateLimited(
            String::from_str("Google Drive storage quota exceeded. Migration paused until quota is resolved."),
        ),
        JobServiceError::AuthRequired => CommandError::OAuth(String::from_str("An account needs to be re-authenticated")),
    }
}

} // verus!
