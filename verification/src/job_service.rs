//! The decisions of the job service: its errors and how lower errors map onto them,
//! the checks that guard each job action, the in-process transfer lease and scan
//! slots, live progress, and the events a status change announces.

use vstd::prelude::*;
use crate::domain::{AccountId, GooglePermissionId, JobError, JobId, JobStatus, RootId};
use crate::drive::{owned_by, is_owner, DriveFolderLookupError, DriveFolderMetadata, DriveTransferError, StorageQuota, FOLDER_MIME_TYPE};
use crate::item::{ItemState, MigrationItem};
use crate::item_store::{ItemAggregates, ItemStoreError};
use crate::job_events::JobRuntimeEvent;
use crate::preflight::PreflightSummary;
use crate::root_parser::{parse_root_input, root_input};
use crate::job_store::JobStorePortError;
use crate::root_parser::RootParseError;
use crate::text::{chars_eq_ignore_ascii_case, chars_of, eq_ignore_ascii_case, str_eq, trim, trim_chars};
use crate::scanner::{ScanError, ScanOutcome};
use crate::account_token_provider::TokenProviderError;
use crate::drive::DriveTreeError;
use crate::final_report::{counts_of, FinalReportExport, FinalReportSnapshot};
use crate::text::{decimal, decimal_u128};
use crate::transfer::TransferError;

verus! {

/// Errors of the job service.
#[derive(Clone, Debug, PartialEq, Eq)]
pub enum JobServiceError {
    SameSourceAndTarget,
    SourceAccountNotFound(AccountId),
    TargetAccountNotFound(AccountId),
    AccountNotActive(AccountId),
    JobNotFound(JobId),
    RootNotFound(RootId),
    DuplicateRoot(String),
    AccountPairLocked,
    RootsLocked,
    ParseError(RootParseError),
    TokenError(String),
    DriveError(String),
    FolderNotFound,
    NotAFolder,
    FolderTrashed,
    SharedDriveNotSupported,
    NotOwnedBySourceAccount,
    StoreError(String),
    NoValidatedRoots,
    IllegalTransition,
    RateLimited,
    ExportFailed(String),
    ScanInProgress,
    ConfirmationMismatch,
    TransferInProgress,
    SharingRateLimited,
    WaitingForQuota,
    AuthRequired,
}

impl JobServiceError {
    pub open spec fn message(&self) -> Seq<char> {
        match self {
            JobServiceError::SameSourceAndTarget => "source and target account cannot be identical"@,
            JobServiceError::SourceAccountNotFound(id) => "source account not found: "@ + decimal(id.0 as nat),
            JobServiceError::TargetAccountNotFound(id) => "target account not found: "@ + decimal(id.0 as nat),
            JobServiceError::AccountNotActive(id) => "account is not active or connected: "@ + decimal(id.0 as nat),
            JobServiceError::JobNotFound(id) => "job not found: "@ + decimal(id.0 as nat),
            JobServiceError::RootNotFound(id) => "root not found: "@ + decimal(id.0 as nat),
            JobServiceError::DuplicateRoot(file_id) => "root folder already added to job: "@ + file_id@,
            JobServiceError::AccountPairLocked => "account pair cannot be changed after draft status"@,
            JobServiceError::RootsLocked => "roots cannot be changed after draft status"@,
            JobServiceError::ParseError(e) => "invalid folder URL or ID: "@ + e.message(),
            JobServiceError::TokenError(e) => "failed to obtain OAuth token: "@ + e@,
            JobServiceError::DriveError(e) => "Google Drive API error: "@ + e@,
            JobServiceError::FolderNotFound => "folder not found on Google Drive"@,
            JobServiceError::NotAFolder => "selected item is not a folder"@,
            JobServiceError::FolderTrashed => "folder is in Google Drive trash"@,
            JobServiceError::SharedDriveNotSupported => "shared Drive folders cannot be migration roots"@,
            JobServiceError::NotOwnedBySourceAccount => "folder is not owned by the selected source account"@,
            JobServiceError::StoreError(e) => "persistence error: "@ + e@,
            JobServiceError::NoValidatedRoots => "scan requires at least one validated root"@,
            JobServiceError::IllegalTransition => "illegal job status transition"@,
            JobServiceError::RateLimited => "Google Drive rate limit reached"@,
            JobServiceError::ExportFailed(e) => "failed to export dry-run report: "@ + e@,
            JobServiceError::ScanInProgress => "a scan is already running for this job"@,
            JobServiceError::ConfirmationMismatch => "target email confirmation does not match the job target"@,
            JobServiceError::TransferInProgress => "another migration job is already mutating ownership"@,
            JobServiceError::SharingRateLimited => "Google Drive sharing rate limit reached"@,
            JobServiceError::WaitingForQuota => "Google Drive storage quota exceeded"@,
            JobServiceError::AuthRequired => "an account needs to be re-authenticated"@,
        }
    }

    /// The message shown for this error.
    pub fn to_string(&self) -> (r: String)
        ensures r@ == self.message(),
    {
        match self {
            JobServiceError::SameSourceAndTarget => String::from_str("source and target account cannot be identical"),
            JobServiceError::SourceAccountNotFound(id) =>
                String::from_str("source account not found: ").concat(decimal_u128(id.0).as_str()),
            JobServiceError::TargetAccountNotFound(id) =>
                String::from_str("target account not found: ").concat(decimal_u128(id.0).as_str()),
            JobServiceError::AccountNotActive(id) =>
                String::from_str("account is not active or connected: ").concat(decimal_u128(id.0).as_str()),
            JobServiceError::JobNotFound(id) => String::from_str("job not found: ").concat(decimal_u128(id.0).as_str()),
            JobServiceError::RootNotFound(id) => String::from_str("root not found: ").concat(decimal_u128(id.0).as_str()),
            JobServiceError::DuplicateRoot(file_id) =>
                String::from_str("root folder already added to job: ").concat(file_id.as_str()),
            JobServiceError::AccountPairLocked => String::from_str("account pair cannot be changed after draft status"),
            JobServiceError::RootsLocked => String::from_str("roots cannot be changed after draft status"),
            JobServiceError::ParseError(e) =>
                String::from_str("invalid folder URL or ID: ").concat(e.to_string().as_str()),
            JobServiceError::TokenError(e) => String::from_str("failed to obtain OAuth token: ").concat(e.as_str()),
            JobServiceError::DriveError(e) => String::from_str("Google Drive API error: ").concat(e.as_str()),
            JobServiceError::FolderNotFound => String::from_str("folder not found on Google Drive"),
            JobServiceError::NotAFolder => String::from_str("selected item is not a folder"),
            JobServiceError::FolderTrashed => String::from_str("folder is in Google Drive trash"),
            JobServiceError::SharedDriveNotSupported => String::from_str("shared Drive folders cannot be migration roots"),
            JobServiceError::NotOwnedBySourceAccount => String::from_str("folder is not owned by the selected source account"),
            JobServiceError::StoreError(e) => String::from_str("persistence error: ").concat(e.as_str()),
            JobServiceError::NoValidatedRoots => String::from_str("scan requires at least one validated root"),
            JobServiceError::IllegalTransition => String::from_str("illegal job status transition"),
            JobServiceError::RateLimited => String::from_str("Google Drive rate limit reached"),
            JobServiceError::ExportFailed(e) => String::from_str("failed to export dry-run report: ").concat(e.as_str()),
            JobServiceError::ScanInProgress => String::from_str("a scan is already running for this job"),
            JobServiceError::ConfirmationMismatch => String::from_str("target email confirmation does not match the job target"),
            JobServiceError::TransferInProgress => String::from_str("another migration job is already mutating ownership"),
            JobServiceError::SharingRateLimited => String::from_str("Google Drive sharing rate limit reached"),
            JobServiceError::WaitingForQuota => String::from_str("Google Drive storage quota exceeded"),
            JobServiceError::AuthRequired => String::from_str("an account needs to be re-authenticated"),
        }
    }

    /// Whether `self` is what a job error becomes in the service: the lifecycle errors
    /// keep their kind, the two decoding errors become store errors.
    pub open spec fn maps_job_error(&self, err: JobError) -> bool {
        match err {
            JobError::SameSourceAndTarget => *self == JobServiceError::SameSourceAndTarget,
            JobError::AccountPairLocked => *self == JobServiceError::AccountPairLocked,
            JobError::RootsLocked => *self == JobServiceError::RootsLocked,
            JobError::DuplicateRoot(file_id) => self matches JobServiceError::DuplicateRoot(f) && f@ == file_id@,
            JobError::RootNotFound(id) => *self == JobServiceError::RootNotFound(id),
            JobError::InvalidJobStatus => self matches JobServiceError::StoreError(m) && m@ == "invalid job status"@,
            JobError::InvalidRootValidationStatus =>
                self matches JobServiceError::StoreError(m) && m@ == "invalid root validation status"@,
            JobError::IllegalTransition => *self == JobServiceError::IllegalTransition,
            JobError::NoValidatedRoots => *self == JobServiceError::NoValidatedRoots,
        }
    }

    /// A job lifecycle error as a service error.
    pub fn from_job_error(err: JobError) -> (r: JobServiceError)
        ensures r.maps_job_error(err),
    {
        match err {
            JobError::SameSourceAndTarget => JobServiceError::SameSourceAndTarget,
            JobError::AccountPairLocked => JobServiceError::AccountPairLocked,
            JobError::RootsLocked => JobServiceError::RootsLocked,
            JobError::DuplicateRoot(file_id) => JobServiceError::DuplicateRoot(file_id),
            JobError::RootNotFound(id) => JobServiceError::RootNotFound(id),
            JobError::InvalidJobStatus => JobServiceError::StoreError(String::from_str("invalid job status")),
            JobError::InvalidRootValidationStatus =>
                JobServiceError::StoreError(String::from_str("invalid root validation status")),
            JobError::IllegalTransition => JobServiceError::IllegalTransition,
            JobError::NoValidatedRoots => JobServiceError::NoValidatedRoots,
        }
    }

    /// An item store error as a service error: a store error carrying its message.
    pub fn from_item_store_error(err: &ItemStoreError) -> (r: JobServiceError)
        ensures r matches JobServiceError::StoreError(m) && m@ == err.message(),
    {
        JobServiceError::StoreError(err.to_string())
    }

    pub open spec fn maps_scan_error(&self, err: ScanError) -> bool {
        match err {
            ScanError::RateLimited => *self == JobServiceError::RateLimited,
            ScanError::Drive(e) => self matches JobServiceError::DriveError(m) && m@ == e.message(),
            ScanError::Store(e) => self matches JobServiceError::StoreError(m) && m@ == e.message(),
        }
    }

    /// A scan error as a service error.
    pub fn from_scan_error(err: &ScanError) -> (r: JobServiceError)
        ensures r.maps_scan_error(*err),
    {
        match err {
            ScanError::RateLimited => JobServiceError::RateLimited,
            ScanError::Drive(e) => JobServiceError::DriveError(e.to_string()),
            ScanError::Store(e) => JobServiceError::StoreError(e.to_string()),
        }
    }

    pub open spec fn maps_transfer_error(&self, err: TransferError) -> bool {
        match err {
            TransferError::Drive(d) => match d {
                DriveTransferError::SharingRateLimitExceeded => *self == JobServiceError::SharingRateLimited,
                DriveTransferError::StorageQuotaExceeded => *self == JobServiceError::WaitingForQuota,
                DriveTransferError::Unauthorized => *self == JobServiceError::AuthRequired,
                DriveTransferError::RateLimited => *self == JobServiceError::RateLimited,
                other => self matches JobServiceError::DriveError(m) && m@ == other.message(),
            },
            TransferError::Store(e) => self matches JobServiceError::StoreError(m) && m@ == e.message(),
            TransferError::Job(e) => self.maps_job_error(e),
            TransferError::InvalidItemState =>
                self matches JobServiceError::StoreError(m) && m@ == "illegal item state transition during transfer"@,
        }
    }

    /// A transfer error as a service error: the Drive errors a user can act on get their
    /// own kinds, other Drive errors carry their message.
    pub fn from_transfer_error(err: TransferError) -> (r: JobServiceError)
        ensures r.maps_transfer_error(err),
    {
        match err {
            TransferError::Drive(d) => match d {
                DriveTransferError::SharingRateLimitExceeded => JobServiceError::SharingRateLimited,
                DriveTransferError::StorageQuotaExceeded => JobServiceError::WaitingForQuota,
                DriveTransferError::Unauthorized => JobServiceError::AuthRequired,
                DriveTransferError::RateLimited => JobServiceError::RateLimited,
                other => JobServiceError::DriveError(other.to_string()),
            },
            TransferError::Store(e) => JobServiceError::StoreError(e.to_string()),
            TransferError::Job(e) => JobServiceError::from_job_error(e),
            TransferError::InvalidItemState =>
                JobServiceError::StoreError(String::from_str("illegal item state transition during transfer")),
        }
    }

    pub open spec fn maps_job_store_error(&self, err: JobStorePortError) -> bool {
        match err {
            JobStorePortError::JobNotFound(id) => *self == JobServiceError::JobNotFound(id),
            JobStorePortError::RootNotFound(id) => *self == JobServiceError::RootNotFound(id),
            JobStorePortError::SameSourceAndTarget => *self == JobServiceError::SameSourceAndTarget,
            JobStorePortError::AccountNotFound(id) => *self == JobServiceError::SourceAccountNotFound(id),
            JobStorePortError::AccountHasActiveJobs(id) =>
                self matches JobServiceError::StoreError(m) && m@ == "account has active jobs: "@ + decimal(id.0 as nat),
            JobStorePortError::DuplicateRoot(file_id) => self matches JobServiceError::DuplicateRoot(f) && f@ == file_id@,
            JobStorePortError::AccountPairLocked => *self == JobServiceError::AccountPairLocked,
            JobStorePortError::RootsLocked => *self == JobServiceError::RootsLocked,
            JobStorePortError::Database(msg) => self matches JobServiceError::StoreError(m) && m@ == msg@,
            JobStorePortError::MutationLeaseHeld => *self == JobServiceError::TransferInProgress,
        }
    }

    /// A job store error as a service error; a lease held elsewhere means another
    /// transfer is in progress.
    pub fn from_job_store_error(err: JobStorePortError) -> (r: JobServiceError)
        ensures r.maps_job_store_error(err),
    {
        match err {
            JobStorePortError::JobNotFound(id) => JobServiceError::JobNotFound(id),
            JobStorePortError::RootNotFound(id) => JobServiceError::RootNotFound(id),
            JobStorePortError::SameSourceAndTarget => JobServiceError::SameSourceAndTarget,
            JobStorePortError::AccountNotFound(id) => JobServiceError::SourceAccountNotFound(id),
            JobStorePortError::AccountHasActiveJobs(id) =>
                JobServiceError::StoreError(String::from_str("account has active jobs: ").concat(decimal_u128(id.0).as_str())),
            JobStorePortError::DuplicateRoot(file_id) => JobServiceError::DuplicateRoot(file_id),
            JobStorePortError::AccountPairLocked => JobServiceError::AccountPairLocked,
            JobStorePortError::RootsLocked => JobServiceError::RootsLocked,
            JobStorePortError::Database(msg) => JobServiceError::StoreError(msg),
            JobStorePortError::MutationLeaseHeld => JobServiceError::TransferInProgress,
        }
    }
}


/// The process-wide ownership lease: at most one job mutates ownership at a time.
#[derive(Debug)]
pub struct TransferSlot {
    holder: Option<JobId>,
}

/// Proof that a job holds the transfer slot; handing it back frees the slot.
#[derive(Debug)]
pub struct TransferLease {
    job_id: JobId,
}

impl TransferSlot {
    pub closed spec fn view(&self) -> Option<JobId> {
        self.holder
    }

    /// A free slot.
    pub fn new() -> (r: TransferSlot)
        ensures r@ is None,
    {
        TransferSlot { holder: None }
    }

    /// The job holding the slot, if any.
    pub fn holder(&self) -> (r: Option<JobId>)
        ensures r == self@,
    {
        self.holder
    }

    /// Whether `job_id` holds the slot.
    pub fn is_held_by(&self, job_id: JobId) -> (r: bool)
        ensures r == (self@ == Some(job_id)),
    {
        match self.holder {
            Some(held) => held.0 == job_id.0,
            None => false,
        }
    }

    /// Frees the slot if `job_id` holds it; otherwise leaves it alone.
    pub fn clear_for(&mut self, job_id: JobId)
        ensures final(self)@ == after_release(old(self)@, job_id),
    {
        if self.is_held_by(job_id) {
            self.holder = None;
        }
    }

    /// Frees the slot whoever holds it (a restart forgets every in-process lease).
    pub fn reset(&mut self)
        ensures final(self)@ is None,
    {
        self.holder = None;
    }
}

impl TransferLease {
    pub closed spec fn job(&self) -> JobId {
        self.job_id
    }

    /// The job the lease was granted to.
    pub fn job_id(&self) -> (r: JobId)
        ensures r == self.job(),
    {
        self.job_id
    }

    /// Hands the lease back: the slot is freed if it is still held for the lease's job.
    pub fn release(self, slot: &mut TransferSlot)
        ensures final(slot)@ == after_release(old(slot)@, self.job()),
    {
        slot.clear_for(self.job_id);
    }
}

/// Whether an acquire on a slot in state `holder` succeeds: only a free slot is granted.
pub open spec fn acquirable(holder: Option<JobId>) -> bool {
    holder is None
}

/// The slot after an acquire for `job`.
pub open spec fn after_acquire(holder: Option<JobId>, job: JobId) -> Option<JobId> {
    if acquirable(holder) { Some(job) } else { holder }
}

/// The slot after the lease of `job` is handed back.
pub open spec fn after_release(holder: Option<JobId>, job: JobId) -> Option<JobId> {
    if holder == Some(job) { None } else { holder }
}

/// Takes the transfer slot for `job_id`. The slot is exclusive, also against the job
/// that already holds it: any acquire while it is held fails and changes nothing.
pub fn try_acquire_transfer_slot(slot: &mut TransferSlot, job_id: JobId) -> (r: Result<TransferLease, JobServiceError>)
    ensures
        final(slot)@ == after_acquire(old(slot)@, job_id),
        acquirable(old(slot)@) ==> (r matches Ok(lease) && lease.job() == job_id),
        !acquirable(old(slot)@) ==> r == Err::<TransferLease, JobServiceError>(JobServiceError::TransferInProgress),
{
    if slot.holder.is_some() {
        return Err(JobServiceError::TransferInProgress);
    }
    slot.holder = Some(job_id);
    Ok(TransferLease { job_id })
}

/// The slot is exclusive: once a job has taken a free slot, every further acquire fails,
/// for that job and for any other; handing the lease back frees the slot, and a lease of
/// another job leaves it held.
pub proof fn lemma_transfer_slot_exclusive(first: JobId, second: JobId)
    ensures
        acquirable(None),
        !acquirable(after_acquire(None, first)),
        after_acquire(after_acquire(None, first), second) == Some(first),
        after_release(after_acquire(None, first), first) is None,
        second != first ==> after_release(after_acquire(None, first), second) == Some(first),
        acquirable(after_release(after_acquire(None, first), first)),
{
}

/// Jobs whose scan runs in this process; each job scans at most once at a time.
#[derive(Debug)]
pub struct ScanSlots {
    jobs: Vec<JobId>,
}

impl ScanSlots {
    /// The jobs whose scan is in flight, in the order they started.
    pub closed spec fn view(&self) -> Seq<JobId> {
        self.jobs@
    }

    /// No scan in flight.
    pub fn new() -> (r: ScanSlots)
        ensures r@ == Seq::<JobId>::empty(),
    {
        ScanSlots { jobs: Vec::new() }
    }

    /// Whether a scan of `job_id` is in flight.
    pub fn contains(&self, job_id: JobId) -> (r: bool)
        ensures r == self@.contains(job_id),
    {
        let mut i: usize = 0;
        while i < self.jobs.len()
            invariant
                i <= self.jobs@.len(),
                forall|k: int| 0 <= k < i ==> self.jobs@[k] != job_id,
            decreases self.jobs@.len() - i,
        {
            if self.jobs[i].0 == job_id.0 {
                assert(self.jobs@[i as int] == job_id);
                return true;
            }
            i += 1;
        }
        false
    }

    /// Marks a scan of `job_id` as in flight, unless one already is.
    pub fn try_acquire(&mut self, job_id: JobId) -> (r: Result<(), JobServiceError>)
        ensures
            !old(self)@.contains(job_id) ==> r is Ok && final(self)@ == old(self)@.push(job_id),
            old(self)@.contains(job_id) ==> r == Err::<(), JobServiceError>(JobServiceError::ScanInProgress)
                && final(self)@ == old(self)@,
    {
        if self.contains(job_id) {
            return Err(JobServiceError::ScanInProgress);
        }
        self.jobs.push(job_id);
        Ok(())
    }

    /// Marks the scan of `job_id` as finished.
    pub fn release(&mut self, job_id: JobId)
        ensures final(self)@ == old(self)@.filter(|x: JobId| x != job_id),
    {
        let ghost before = self.jobs@;
        let mut kept: Vec<JobId> = Vec::new();
        let mut i: usize = 0;
        while i < self.jobs.len()
            invariant
                i <= self.jobs@.len(),
                self.jobs@ == before,
                kept@ == before.take(i as int).filter(|x: JobId| x != job_id),
            decreases self.jobs@.len() - i,
        {
            let id = self.jobs[i];
            assert(before.take(i + 1).drop_last() =~= before.take(i as int));
            proof {
                reveal(Seq::filter);
            }
            if id.0 != job_id.0 {
                kept.push(id);
            }
            i += 1;
        }
        assert(before.take(before.len() as int) =~= before);
        self.jobs = kept;
    }
}

/// A job scans at most once at a time: a second acquire for a job whose scan is in flight
/// fails, and after its release the job can scan again while the other jobs stay in flight.
pub proof fn lemma_scan_slot_per_job(in_flight: Seq<JobId>, job: JobId, other: JobId)
    requires
        !in_flight.contains(job),
        in_flight.contains(other),
        other != job,
    ensures
        in_flight.push(job).contains(job),
        !in_flight.push(job).filter(|x: JobId| x != job).contains(job),
        in_flight.push(job).filter(|x: JobId| x != job).contains(other),
{
    let after = in_flight.push(job);
    assert(after[after.len() - 1] == job);
    broadcast use vstd::seq_lib::group_filter_ensures;
    let k = choose|k: int| 0 <= k < in_flight.len() && in_flight[k] == other;
    assert(after[k] == other);
}

/// The events a status change announces: the new status, then the canary's end when the
/// job waits for canary review, or the migration's end when it completed.
pub open spec fn status_event_kinds(status: JobStatus) -> nat {
    match status {
        JobStatus::CanaryReview | JobStatus::Completed | JobStatus::CompletedWithErrors => 2,
        _ => 1,
    }
}

/// The events that announce `job_id` reaching `status`, in order.
pub fn status_events(job_id: JobId, status: JobStatus) -> (r: Vec<JobRuntimeEvent>)
    ensures
        r@.len() == status_event_kinds(status),
        (r@[0] matches JobRuntimeEvent::JobStatusChanged { job_id: id, status: name } && id == job_id && name@ == status.name()),
        status == JobStatus::CanaryReview ==> r@[1] == (JobRuntimeEvent::CanaryCompleted { job_id }),
        (status == JobStatus::Completed || status == JobStatus::CompletedWithErrors)
            ==> r@[1] == (JobRuntimeEvent::MigrationCompleted { job_id }),
{
    let mut events: Vec<JobRuntimeEvent> = Vec::new();
    events.push(JobRuntimeEvent::JobStatusChanged { job_id, status: String::from_str(status.as_str()) });
    match status {
        JobStatus::CanaryReview => events.push(JobRuntimeEvent::CanaryCompleted { job_id }),
        JobStatus::Completed | JobStatus::CompletedWithErrors => events.push(JobRuntimeEvent::MigrationCompleted { job_id }),
        _ => {},
    }
    events
}

/// Two emails name the same account when they agree, ignoring surrounding whitespace and
/// ASCII case, and are not blank.
pub open spec fn same_email(left: Seq<char>, right: Seq<char>) -> bool {
    eq_ignore_ascii_case(trim(left), trim(right)) && trim(left).len() > 0
}

/// Whether a typed confirmation names the same email as the job's target.
pub fn emails_match(left: &str, right: &str) -> (r: bool)
    ensures r == same_email(left@, right@),
{
    let l = trim_chars(&chars_of(left));
    let rr = trim_chars(&chars_of(right));
    chars_eq_ignore_ascii_case(&l, &rr) && l.len() > 0
}

/// Roots can change only while the job is a draft.
pub fn check_roots_editable(status: JobStatus) -> (r: Result<(), JobServiceError>)
    ensures
        status == JobStatus::Draft ==> r is Ok,
        status != JobStatus::Draft ==> r == Err::<(), JobServiceError>(JobServiceError::RootsLocked),
{
    match status {
        JobStatus::Draft => Ok(()),
        _ => Err(JobServiceError::RootsLocked),
    }
}

/// The folder ID a root input names for a job in `status`: the roots must be editable and
/// the input must parse.
pub fn root_folder_id(status: JobStatus, input: &str) -> (r: Result<String, JobServiceError>)
    ensures
        status != JobStatus::Draft ==> r == Err::<String, JobServiceError>(JobServiceError::RootsLocked),
        status == JobStatus::Draft ==> match (r, root_input(input@)) {
            (Ok(a), Ok(b)) => a@ == b,
            (Err(a), Err(b)) => a == JobServiceError::ParseError(b),
            _ => false,
        },
{
    match check_roots_editable(status) {
        Ok(()) => {},
        Err(e) => return Err(e),
    }
    match parse_root_input(input) {
        Ok(id) => Ok(id),
        Err(e) => Err(JobServiceError::ParseError(e)),
    }
}

pub open spec fn maps_lookup_error(r: JobServiceError, err: DriveFolderLookupError) -> bool {
    match err {
        DriveFolderLookupError::NotFound => r == JobServiceError::FolderNotFound,
        DriveFolderLookupError::Unauthorized | DriveFolderLookupError::Forbidden =>
            (r matches JobServiceError::TokenError(m) && m@ == err.message()),
        _ => (r matches JobServiceError::DriveError(m) && m@ == err.message()),
    }
}

/// A failed folder lookup as a service error: a missing folder is its own kind, refused
/// access is a token problem, the rest are Drive errors.
pub fn folder_lookup_error(err: DriveFolderLookupError) -> (r: JobServiceError)
    ensures maps_lookup_error(r, err),
{
    match err {
        DriveFolderLookupError::NotFound => JobServiceError::FolderNotFound,
        DriveFolderLookupError::Unauthorized | DriveFolderLookupError::Forbidden => JobServiceError::TokenError(err.to_string()),
        _ => JobServiceError::DriveError(err.to_string()),
    }
}

/// Why a folder cannot be a migration root, checked in this order: trashed, not a folder,
/// on a shared drive, not owned by the source account.
pub open spec fn root_folder_check(metadata: DriveFolderMetadata, source: Seq<char>) -> Result<(), JobServiceError> {
    if metadata.trashed {
        Err(JobServiceError::FolderTrashed)
    } else if metadata.mime_type@ != FOLDER_MIME_TYPE@ {
        Err(JobServiceError::NotAFolder)
    } else if metadata.drive_id is Some {
        Err(JobServiceError::SharedDriveNotSupported)
    } else if !owned_by(metadata.owners@, source) {
        Err(JobServiceError::NotOwnedBySourceAccount)
    } else {
        Ok(())
    }
}

/// Checks that a looked-up folder can be a root of a job whose source account has
/// permission identifier `source`.
pub fn check_root_folder(metadata: &DriveFolderMetadata, source: &GooglePermissionId) -> (r: Result<(), JobServiceError>)
    ensures r == root_folder_check(*metadata, source.value@),
{
    if metadata.trashed {
        return Err(JobServiceError::FolderTrashed);
    }
    if !str_eq(metadata.mime_type.as_str(), FOLDER_MIME_TYPE) {
        return Err(JobServiceError::NotAFolder);
    }
    if metadata.drive_id.is_some() {
        return Err(JobServiceError::SharedDriveNotSupported);
    }
    if !is_owner(&metadata.owners, source) {
        return Err(JobServiceError::NotOwnedBySourceAccount);
    }
    Ok(())
}

/// A dry-run export needs a destination that is not blank.
pub fn check_export_destination(destination: &str) -> (r: Result<(), JobServiceError>)
    ensures
        trim(destination@).len() > 0 ==> r is Ok,
        trim(destination@).len() == 0 ==> (r matches Err(JobServiceError::ExportFailed(m))
            && m@ == "destination path is required"@),
{
    let t = trim_chars(&chars_of(destination));
    if t.len() == 0 {
        return Err(JobServiceError::ExportFailed(String::from_str("destination path is required")));
    }
    Ok(())
}

/// The summary shown for a scanned job: none before any item exists; otherwise the
/// preflight, or, when only the token or the Drive quota lookup failed, the counts
/// against an unknown quota.
pub fn scan_summary_from(
    aggregates: &ItemAggregates,
    preflight: Result<PreflightSummary, JobServiceError>,
) -> (r: Result<Option<PreflightSummary>, JobServiceError>)
    ensures
        aggregates.total == 0 ==> r == Ok::<Option<PreflightSummary>, JobServiceError>(None),
        aggregates.total > 0 ==> match preflight {
            Ok(summary) => r == Ok::<Option<PreflightSummary>, JobServiceError>(Some(summary)),
            Err(JobServiceError::TokenError(_)) | Err(JobServiceError::DriveError(_)) =>
                (r matches Ok(Some(summary)) && summary == PreflightSummary::summary_spec(*aggregates, StorageQuota { limit_bytes: None, usage_bytes: 0 })),
            Err(e) => r == Err::<Option<PreflightSummary>, JobServiceError>(e),
        },
{
    if aggregates.total == 0 {
        return Ok(None);
    }
    match preflight {
        Ok(summary) => Ok(Some(summary)),
        Err(JobServiceError::TokenError(_)) | Err(JobServiceError::DriveError(_)) => {
            let quota = StorageQuota { limit_bytes: None, usage_bytes: 0 };
            Ok(Some(PreflightSummary::from_aggregates(aggregates, &quota)))
        },
        Err(e) => Err(e),
    }
}

/// A canary run needs the typed confirmation to name the job's target, then a job that
/// is ready for review, already running its canary, or queued.
pub open spec fn start_canary_check(status: JobStatus, confirmation: Seq<char>, target_email: Seq<char>) -> Result<(), JobServiceError> {
    if !same_email(confirmation, target_email) {
        Err(JobServiceError::ConfirmationMismatch)
    } else if matches!(status, JobStatus::ReadyForReview | JobStatus::RunningCanary | JobStatus::Queued) {
        Ok(())
    } else {
        Err(JobServiceError::IllegalTransition)
    }
}

/// Checks whether a canary run may start.
pub fn check_start_canary(status: JobStatus, confirmation: &str, target_email: &str) -> (r: Result<(), JobServiceError>)
    ensures r == start_canary_check(status, confirmation@, target_email@),
{
    if !emails_match(confirmation, target_email) {
        return Err(JobServiceError::ConfirmationMismatch);
    }
    match status {
        JobStatus::ReadyForReview | JobStatus::RunningCanary | JobStatus::Queued => Ok(()),
        _ => Err(JobServiceError::IllegalTransition),
    }
}

/// The bulk migration continues from canary review or a running job, or from the queue
/// when the queued job is not due for its canary.
pub fn check_continue(status: JobStatus, resume_as_canary: bool) -> (r: Result<(), JobServiceError>)
    ensures
        r is Ok <==> (status == JobStatus::CanaryReview || status == JobStatus::Running
            || (status == JobStatus::Queued && !resume_as_canary)),
        r is Err ==> r == Err::<(), JobServiceError>(JobServiceError::IllegalTransition),
{
    match status {
        JobStatus::CanaryReview | JobStatus::Running => Ok(()),
        JobStatus::Queued => if !resume_as_canary { Ok(()) } else { Err(JobServiceError::IllegalTransition) },
        _ => Err(JobServiceError::IllegalTransition),
    }
}

/// A migration can be paused while it runs, is pausing, or is paused.
pub fn check_pause_migration(status: JobStatus) -> (r: Result<(), JobServiceError>)
    ensures
        r is Ok <==> matches!(status, JobStatus::RunningCanary | JobStatus::Running | JobStatus::Pausing | JobStatus::Paused),
        r is Err ==> r == Err::<(), JobServiceError>(JobServiceError::IllegalTransition),
{
    match status {
        JobStatus::RunningCanary | JobStatus::Running | JobStatus::Pausing | JobStatus::Paused => Ok(()),
        _ => Err(JobServiceError::IllegalTransition),
    }
}

/// A scan can be paused while it scans or is paused.
pub fn check_pause_scan(status: JobStatus) -> (r: Result<(), JobServiceError>)
    ensures
        r is Ok <==> (status == JobStatus::Scanning || status == JobStatus::Paused),
        r is Err ==> r == Err::<(), JobServiceError>(JobServiceError::IllegalTransition),
{
    match status {
        JobStatus::Scanning | JobStatus::Paused => Ok(()),
        _ => Err(JobServiceError::IllegalTransition),
    }
}

/// A job cannot start its canary, or be created, with one account on both sides.
pub fn check_distinct_accounts(source: AccountId, target: AccountId) -> (r: Result<(), JobServiceError>)
    ensures
        r is Ok <==> source.0 != target.0,
        r is Err ==> r == Err::<(), JobServiceError>(JobServiceError::SameSourceAndTarget),
{
    if source.0 == target.0 {
        return Err(JobServiceError::SameSourceAndTarget);
    }
    Ok(())
}

/// When the target account is looked up, "not found" names the target, not the source.
pub fn as_target_error(err: JobServiceError) -> (r: JobServiceError)
    ensures
        err matches JobServiceError::SourceAccountNotFound(id) ==> r == JobServiceError::TargetAccountNotFound(id),
        !(err is SourceAccountNotFound) ==> r == err,
{
    match err {
        JobServiceError::SourceAccountNotFound(id) => JobServiceError::TargetAccountNotFound(id),
        other => other,
    }
}

/// An item that the bulk run, not the canary, has started on.
pub open spec fn bulk_started(item: MigrationItem) -> bool {
    !item.canary_selected && item.state != ItemState::Eligible && item.state.transfer_active()
}

/// Whether the bulk migration has touched any item outside the canary cohort.
pub fn bulk_mutation_has_started(items: &Vec<MigrationItem>) -> (r: bool)
    ensures r == exists|i: int| 0 <= i < items@.len() && bulk_started(#[trigger] items@[i]),
{
    let mut i: usize = 0;
    while i < items.len()
        invariant
            i <= items@.len(),
            forall|k: int| 0 <= k < i ==> !bulk_started(#[trigger] items@[k]),
        decreases items@.len() - i,
    {
        let item = &items[i];
        if !item.canary_selected && !item.state.is_eligible() && item.state.is_transfer_active() {
            assert(bulk_started(items@[i as int]));
            return true;
        }
        i += 1;
    }
    false
}

/// Whether a stored state name is the name of `status`.
pub open spec fn names(state: Option<String>, status: JobStatus) -> bool {
    state matches Some(s) && s@ == status.name()
}

/// How a transfer resumes: from what the latest job event says, the bulk run when the job
/// was running or reviewing its canary, the canary when it was running the canary;
/// without such an event, the canary unless the bulk run has already started.
pub open spec fn resumes_as_canary(latest: Option<(Option<String>, Option<String>)>, bulk_has_started: bool) -> bool {
    match latest {
        Some((previous, new)) =>
            if names(previous, JobStatus::Running) || names(new, JobStatus::Running) || names(previous, JobStatus::CanaryReview) {
                false
            } else if names(previous, JobStatus::RunningCanary) || names(new, JobStatus::RunningCanary) {
                true
            } else {
                !bulk_has_started
            },
        None => !bulk_has_started,
    }
}

fn names_status(state: &Option<String>, status: JobStatus) -> (r: bool)
    ensures r == names(*state, status),
{
    match state {
        Some(s) => str_eq(s.as_str(), status.as_str()),
        None => false,
    }
}

/// Decides whether a paused or queued transfer resumes as a canary run, from the previous
/// and new states of the job's latest event.
pub fn should_resume_as_canary(latest: &Option<(Option<String>, Option<String>)>, bulk_has_started: bool) -> (r: bool)
    ensures r == resumes_as_canary(*latest, bulk_has_started),
{
    match latest {
        Some((previous, new)) => {
            if names_status(previous, JobStatus::Running) || names_status(new, JobStatus::Running)
                || names_status(previous, JobStatus::CanaryReview) {
                return false;
            }
            if names_status(previous, JobStatus::RunningCanary) || names_status(new, JobStatus::RunningCanary) {
                return true;
            }
            !bulk_has_started
        },
        None => !bulk_has_started,
    }
}

/// A pause came from a transfer, not a scan, when the latest event left a mutating state,
/// or a canary cohort exists, or the bulk run has started.
pub open spec fn transfer_pause(latest_previous: Option<String>, cohort_exists: bool, bulk_has_started: bool) -> bool {
    names(latest_previous, JobStatus::RunningCanary) || names(latest_previous, JobStatus::Running)
        || names(latest_previous, JobStatus::Pausing) || names(latest_previous, JobStatus::Cancelling)
        || cohort_exists || bulk_has_started
}

/// Decides whether a paused job was paused during a transfer.
pub fn looks_like_transfer_pause(latest_previous: &Option<String>, cohort_exists: bool, bulk_has_started: bool) -> (r: bool)
    ensures r == transfer_pause(*latest_previous, cohort_exists, bulk_has_started),
{
    names_status(latest_previous, JobStatus::RunningCanary) || names_status(latest_previous, JobStatus::Running)
        || names_status(latest_previous, JobStatus::Pausing) || names_status(latest_previous, JobStatus::Cancelling)
        || cohort_exists || bulk_has_started
}

/// Progress of a running transfer.
#[derive(Clone, Debug, PartialEq, Eq)]
pub struct TransferProgress {
    pub completed: u64,
    pub total: u64,
    pub current_path: Option<String>,
}

/// A failure shown next to a job's progress.
#[derive(Clone, Debug, PartialEq, Eq)]
pub struct ItemFailure {
    pub item_id: String,
    pub message: String,
    pub at: String,
}

/// Items that count as done: transferred or verified.
pub open spec fn done(item: MigrationItem) -> bool {
    item.state == ItemState::Verified || item.state == ItemState::Transferred
}

/// An item the transfer is working on right now.
pub open spec fn in_flight(item: MigrationItem) -> bool {
    item.state.transfer_active() && item.state != ItemState::Eligible
}

pub open spec fn waiting(item: MigrationItem) -> bool {
    item.state == ItemState::Eligible
}

/// How many items satisfy `p`.
pub open spec fn count_where(items: Seq<MigrationItem>, p: spec_fn(MigrationItem) -> bool) -> nat
    decreases items.len(),
{
    if items.len() == 0 {
        0
    } else {
        count_where(items.drop_last(), p) + if p(items.last()) { 1nat } else { 0nat }
    }
}

/// The index of the first item satisfying `p`.
pub open spec fn first_where(items: Seq<MigrationItem>, p: spec_fn(MigrationItem) -> bool) -> Option<int>
    decreases items.len(),
{
    if items.len() == 0 {
        None
    } else {
        match first_where(items.drop_last(), p) {
            Some(i) => Some(i),
            None => if p(items.last()) { Some(items.len() - 1) } else { None },
        }
    }
}

/// The item shown as current: the first in flight, else the first waiting.
pub open spec fn current_index(items: Seq<MigrationItem>) -> Option<int> {
    match first_where(items, |i: MigrationItem| in_flight(i)) {
        Some(i) => Some(i),
        None => first_where(items, |i: MigrationItem| waiting(i)),
    }
}

proof fn lemma_count_bound(items: Seq<MigrationItem>, p: spec_fn(MigrationItem) -> bool)
    ensures count_where(items, p) <= items.len(),
    decreases items.len(),
{
    if items.len() > 0 {
        lemma_count_bound(items.drop_last(), p);
    }
}

proof fn lemma_first_where_bound(items: Seq<MigrationItem>, p: spec_fn(MigrationItem) -> bool)
    ensures first_where(items, p) matches Some(i) ==> 0 <= i < items.len() && p(items[i]),
    decreases items.len(),
{
    if items.len() > 0 {
        lemma_first_where_bound(items.drop_last(), p);
    }
}

pub open spec fn as_index(o: Option<usize>) -> Option<int> {
    match o {
        Some(i) => Some(i as int),
        None => None,
    }
}

fn find_first(items: &Vec<MigrationItem>, in_flight_wanted: bool) -> (r: Option<usize>)
    ensures
        in_flight_wanted ==> as_index(r) == first_where(items@, |i: MigrationItem| in_flight(i)),
        !in_flight_wanted ==> as_index(r) == first_where(items@, |i: MigrationItem| waiting(i)),
{
    let ghost p = if in_flight_wanted { |i: MigrationItem| in_flight(i) } else { |i: MigrationItem| waiting(i) };
    let mut k: usize = 0;
    while k < items.len()
        invariant
            k <= items@.len(),
            p == (if in_flight_wanted { |i: MigrationItem| in_flight(i) } else { |i: MigrationItem| waiting(i) }),
            first_where(items@.take(k as int), p) is None,
        decreases items@.len() - k,
    {
        let state = items[k].state;
        let hit = if in_flight_wanted { state.is_transfer_active() && !state.is_eligible() } else { state.is_eligible() };
        assert(items@.take(k + 1).drop_last() =~= items@.take(k as int));
        if hit {
            assert(first_where(items@.take(k + 1), p) == Some(k as int));
            proof { lemma_first_where_prefix(items@, p, (k + 1) as int); }
            return Some(k);
        }
        k += 1;
    }
    assert(items@.take(items@.len() as int) =~= items@);
    None
}

proof fn lemma_first_where_prefix(items: Seq<MigrationItem>, p: spec_fn(MigrationItem) -> bool, n: int)
    requires
        0 <= n <= items.len(),
        first_where(items.take(n), p) is Some,
    ensures first_where(items, p) == first_where(items.take(n), p),
    decreases items.len() - n,
{
    if n < items.len() {
        assert(items.take(n + 1).drop_last() =~= items.take(n));
        lemma_first_where_prefix(items, p, n + 1);
    } else {
        assert(items.take(n) =~= items);
    }
}

/// The progress of a transfer over its items: how many are done, how many there are,
/// and the name of the current item; none when the job has no items.
pub fn transfer_progress(items: &Vec<MigrationItem>) -> (r: Option<TransferProgress>)
    ensures
        items@.len() == 0 ==> r is None,
        items@.len() > 0 ==> (r matches Some(p) && {
            &&& p.completed == count_where(items@, |i: MigrationItem| done(i))
            &&& p.total == items@.len()
            &&& match current_index(items@) {
                Some(i) => p.current_path == Some(items@[i].name),
                None => p.current_path is None,
            }
        }),
{
    if items.len() == 0 {
        return None;
    }
    let mut completed: u64 = 0;
    let mut k: usize = 0;
    while k < items.len()
        invariant
            k <= items@.len(),
            completed == count_where(items@.take(k as int), |i: MigrationItem| done(i)),
            completed <= k,
        decreases items@.len() - k,
    {
        assert(items@.take(k + 1).drop_last() =~= items@.take(k as int));
        let state = items[k].state;
        if state == ItemState::Verified || state == ItemState::Transferred {
            completed = completed + 1;
        }
        k += 1;
    }
    assert(items@.take(items@.len() as int) =~= items@);
    let first = find_first(items, true);
    let current = match first {
        Some(i) => Some(i),
        None => find_first(items, false),
    };
    proof {
        lemma_first_where_bound(items@, |i: MigrationItem| in_flight(i));
        lemma_first_where_bound(items@, |i: MigrationItem| waiting(i));
    }
    let current_path = match current {
        Some(i) => Some(items[i].name.clone()),
        None => None,
    };
    Some(TransferProgress { completed, total: items.len() as u64, current_path })
}

/// A retryable failure as the user sees it: the file, the state's name, and when it changed.
pub open spec fn failure_of(item: MigrationItem, failure: ItemFailure) -> bool {
    failure.item_id == item.file_id && failure.message@ == item.state.name() && failure.at == item.updated_at
}

/// The failures shown with a job's progress: the job's own error first, when it has one,
/// then each item waiting for a retry, in order.
pub fn live_failures(items: &Vec<MigrationItem>, job_failure: Option<ItemFailure>) -> (r: Vec<ItemFailure>)
    ensures
        ({
            let failed = items@.filter(|i: MigrationItem| i.state == ItemState::RetryableFailed);
            let offset: int = if job_failure is Some { 1 } else { 0 };
            &&& r@.len() == failed.len() + offset
            &&& job_failure matches Some(f) ==> r@[0] == f
            &&& forall|j: int| 0 <= j < failed.len() ==> failure_of(failed[j], #[trigger] r@[j + offset])
        }),
{
    let mut out: Vec<ItemFailure> = Vec::new();
    let ghost offset: int = if job_failure is Some { 1 } else { 0 };
    match job_failure {
        Some(f) => out.push(f),
        None => {},
    }
    let ghost head = out@;
    let mut k: usize = 0;
    while k < items.len()
        invariant
            k <= items@.len(),
            head.len() == offset,
            out@.len() == offset + items@.take(k as int).filter(|i: MigrationItem| i.state == ItemState::RetryableFailed).len(),
            out@.subrange(0, offset) == head,
            forall|j: int| 0 <= j < items@.take(k as int).filter(|i: MigrationItem| i.state == ItemState::RetryableFailed).len()
                ==> failure_of(items@.take(k as int).filter(|i: MigrationItem| i.state == ItemState::RetryableFailed)[j], #[trigger] out@[j + offset]),
        decreases items@.len() - k,
    {
        assert(items@.take(k + 1).drop_last() =~= items@.take(k as int));
        proof { reveal(Seq::filter); }
        let item = &items[k];
        if item.state == ItemState::RetryableFailed {
            out.push(ItemFailure { item_id: item.file_id.clone(), message: String::from_str(item.state.as_str()), at: item.updated_at.clone() });
        }
        assert(out@.subrange(0, offset) =~= head);
        k += 1;
    }
    assert(items@.take(items@.len() as int) =~= items@);
    proof {
        if job_failure is Some {
            assert(out@[0] == out@.subrange(0, offset)[0]);
        }
    }
    out
}

/// The job's own error as a failure entry, stamped with when the job completed, else
/// started, else was created.
pub fn job_failure(message: String, completed_at: Option<String>, started_at: Option<String>, created_at: String) -> (r: ItemFailure)
    ensures
        r.item_id@ == "job"@,
        r.message == message,
        r.at == match completed_at { Some(c) => c, None => match started_at { Some(s) => s, None => created_at } },
{
    let at = match completed_at {
        Some(c) => c,
        None => match started_at {
            Some(s) => s,
            None => created_at,
        },
    };
    ItemFailure { item_id: String::from_str("job"), message, at }
}

/// What ends a scan run does to its job.
#[derive(Clone, Debug, PartialEq, Eq)]
pub enum ScanFinish {
    /// Every folder was listed: the scan completes.
    Complete,
    /// A pause was requested: the scan pauses.
    Pause,
    /// A retryable error: the job pauses with this error, to resume later.
    PauseForRetry(String),
    /// Any other error: the scan fails with this error.
    Fail(String),
}

/// Decides how a scan run ends its job; `retryable` says whether the error, if any, may
/// be retried.
pub fn scan_finish(outcome: &Result<ScanOutcome, ScanError>, retryable: bool) -> (r: ScanFinish)
    ensures
        match outcome {
            Ok(ScanOutcome::Completed) => r == ScanFinish::Complete,
            Ok(ScanOutcome::Paused) => r == ScanFinish::Pause,
            Err(e) => if retryable {
                exists|mapped: JobServiceError| mapped.maps_scan_error(*e)
                    && (r matches ScanFinish::PauseForRetry(m) && m@ == mapped.message())
            } else {
                r matches ScanFinish::Fail(m) && m@ == e.message()
            },
        },
{
    match outcome {
        Ok(ScanOutcome::Completed) => ScanFinish::Complete,
        Ok(ScanOutcome::Paused) => ScanFinish::Pause,
        Err(e) => {
            if retryable {
                let mapped = JobServiceError::from_scan_error(e);
                ScanFinish::PauseForRetry(mapped.to_string())
            } else {
                ScanFinish::Fail(e.to_string())
            }
        },
    }
}

/// What a completed scan learned when it looked up the target's quota.
#[derive(Clone, Debug, PartialEq, Eq)]
pub enum QuotaLookup {
    Found,
    TokenFailed(TokenProviderError),
    LookupFailed(DriveTreeError),
}

/// The error a completed scan records about its quota lookup, if the lookup failed.
pub fn quota_lookup_note(lookup: &QuotaLookup) -> (r: Option<String>)
    ensures
        match lookup {
            QuotaLookup::Found => r is None,
            QuotaLookup::TokenFailed(e) => (r matches Some(m) && m@ == "quota lookup token failed: "@ + e.message()),
            QuotaLookup::LookupFailed(e) => (r matches Some(m) && m@ == "quota lookup failed: "@ + e.message()),
        },
{
    match lookup {
        QuotaLookup::Found => None,
        QuotaLookup::TokenFailed(e) => Some(String::from_str("quota lookup token failed: ").concat(e.to_string().as_str())),
        QuotaLookup::LookupFailed(e) => Some(String::from_str("quota lookup failed: ").concat(e.to_string().as_str())),
    }
}

/// `part` occurs somewhere in `s`.
pub open spec fn occurs_in(s: Seq<char>, part: Seq<char>) -> bool {
    exists|i: int| 0 <= i && i + part.len() <= s.len() && #[trigger] s.subrange(i, i + part.len()) == part
}

/// The extension `std::path::Path::extension` finds in `path`, as text. Which characters
/// separate components, and so which file name the extension is taken from, differs
/// between platforms and is left open; on every platform the extension follows a dot
/// somewhere in the path.
#[verifier::external_body]
fn path_extension(path: &str) -> (r: Option<String>)
    ensures r matches Some(e) ==> occurs_in(path@, "."@ + e@),
{
    std::path::Path::new(path).extension().and_then(|extension| extension.to_str()).map(|extension| extension.to_owned())
}

/// A final report goes to a `.csv` or `.txt` file, ignoring case: whether it is CSV, or
/// none when the destination is blank or has another extension.
pub open spec fn report_format(destination: Seq<char>, extension: Option<Seq<char>>) -> Option<bool> {
    if trim(destination).len() == 0 {
        None
    } else {
        match extension {
            Some(e) => if eq_ignore_ascii_case(e, "csv"@) {
                Some(true)
            } else if eq_ignore_ascii_case(e, "txt"@) {
                Some(false)
            } else {
                None
            },
            None => None,
        }
    }
}

/// Decides the format of a final report from its destination and the extension found in it.
pub fn report_format_for(destination: &str, extension: &Option<String>) -> (r: Result<bool, JobServiceError>)
    ensures
        ({
            let ext = match extension { Some(e) => Some(e@), None => None };
            match (r, report_format(destination@, ext)) {
                (Ok(a), Some(b)) => a == b,
                (Err(JobServiceError::ExportFailed(m)), None) => m@ == "choose a .txt or .csv destination"@,
                _ => false,
            }
        }),
{
    let refusal = JobServiceError::ExportFailed(String::from_str("choose a .txt or .csv destination"));
    if trim_chars(&chars_of(destination)).len() == 0 {
        return Err(refusal);
    }
    match extension {
        Some(e) => {
            let chars = chars_of(e.as_str());
            if chars_eq_ignore_ascii_case(&chars, &chars_of("csv")) {
                Ok(true)
            } else if chars_eq_ignore_ascii_case(&chars, &chars_of("txt")) {
                Ok(false)
            } else {
                Err(refusal)
            }
        },
        None => Err(refusal),
    }
}

/// The format of a final report written to `destination`: CSV for `.csv`, text for
/// `.txt`, refused otherwise or when blank.
pub fn final_report_format(destination: &str) -> (r: Result<bool, JobServiceError>)
    ensures
        trim(destination@).len() == 0 ==> (r matches Err(JobServiceError::ExportFailed(m))
            && m@ == "choose a .txt or .csv destination"@),
        r matches Ok(csv) ==> exists|e: Seq<char>| occurs_in(destination@, "."@ + e)
            && (if csv { eq_ignore_ascii_case(e, "csv"@) } else { eq_ignore_ascii_case(e, "txt"@) }),
{
    let extension = path_extension(destination);
    let r = report_format_for(destination, &extension);
    proof {
        if r is Ok {
            let e = extension.unwrap()@;
            assert(occurs_in(destination@, "."@ + e));
        }
    }
    r
}

/// A final report is written only for a finished job that nothing is working on.
pub fn check_final_report_allowed(status: JobStatus, in_flight: bool) -> (r: Result<(), JobServiceError>)
    ensures
        in_flight ==> r == Err::<(), JobServiceError>(JobServiceError::TransferInProgress),
        !in_flight && !status.finished() ==> r == Err::<(), JobServiceError>(JobServiceError::IllegalTransition),
        !in_flight && status.finished() ==> r is Ok,
{
    if in_flight {
        return Err(JobServiceError::TransferInProgress);
    }
    if !status.is_finished() {
        return Err(JobServiceError::IllegalTransition);
    }
    Ok(())
}

/// What an exported final report tells the caller: where it went, the job's status and
/// the counts.
pub fn final_report_export(destination: &str, snapshot: &FinalReportSnapshot) -> (r: FinalReportExport)
    requires snapshot.items@.len() <= u64::MAX,
    ensures
        r.path@ == destination@,
        r.status == snapshot.status,
        r.counts == counts_of(snapshot.items@),
{
    FinalReportExport { path: String::from_str(destination), status: snapshot.status, counts: snapshot.counts() }
}

} // verus!
