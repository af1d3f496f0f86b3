//! What the job store reports back, and the errors it ends in.

use vstd::prelude::*;
use crate::domain::{AccountId, JobId, RootId};
use crate::text::{decimal, decimal_u128};

verus! {

/// Errors of the job store.
#[derive(Clone, Debug, PartialEq, Eq)]
pub enum JobStorePortError {
    JobNotFound(JobId),
    RootNotFound(RootId),
    SameSourceAndTarget,
    AccountNotFound(AccountId),
    AccountHasActiveJobs(AccountId),
    DuplicateRoot(String),
    AccountPairLocked,
    RootsLocked,
    Database(String),
    MutationLeaseHeld,
}

impl JobStorePortError {
    pub open spec fn message(&self) -> Seq<char> {
        match self {
            JobStorePortError::JobNotFound(id) => "job not found: "@ + decimal(id.0 as nat),
            JobStorePortError::RootNotFound(id) => "root not found: "@ + decimal(id.0 as nat),
            JobStorePortError::SameSourceAndTarget => "source and target account cannot be identical"@,
            JobStorePortError::AccountNotFound(id) => "account not found: "@ + decimal(id.0 as nat),
            JobStorePortError::AccountHasActiveJobs(id) =>
                "account "@ + decimal(id.0 as nat) + " is referenced by active migration jobs"@,
            JobStorePortError::DuplicateRoot(file_id) => "root file ID already exists: "@ + file_id@,
            JobStorePortError::AccountPairLocked => "account pair cannot be changed after draft status"@,
            JobStorePortError::RootsLocked => "roots cannot be changed after draft status"@,
            JobStorePortError::Database(msg) => "database error: "@ + msg@,
            JobStorePortError::MutationLeaseHeld => "another job holds the ownership mutation lease"@,
        }
    }

    /// The message shown for this error.
    pub fn to_string(&self) -> (r: String)
        ensures r@ == self.message(),
    {
        match self {
            JobStorePortError::JobNotFound(id) => String::from_str("job not found: ").concat(decimal_u128(id.0).as_str()),
            JobStorePortError::RootNotFound(id) => String::from_str("root not found: ").concat(decimal_u128(id.0).as_str()),
            JobStorePortError::SameSourceAndTarget => String::from_str("source and target account cannot be identical"),
            JobStorePortError::AccountNotFound(id) => String::from_str("account not found: ").concat(decimal_u128(id.0).as_str()),
            JobStorePortError::AccountHasActiveJobs(id) => String::from_str("account ")
                .concat(decimal_u128(id.0).as_str()).concat(" is referenced by active migration jobs"),
            JobStorePortError::DuplicateRoot(file_id) => String::from_str("root file ID already exists: ").concat(file_id.as_str()),
            JobStorePortError::AccountPairLocked => String::from_str("account pair cannot be changed after draft status"),
            JobStorePortError::RootsLocked => String::from_str("roots cannot be changed after draft status"),
            JobStorePortError::Database(msg) => String::from_str("database error: ").concat(msg.as_str()),
            JobStorePortError::MutationLeaseHeld => String::from_str("another job holds the ownership mutation lease"),
        }
    }
}

/// One entry of a job's history.
#[derive(Clone, Debug, PartialEq, Eq)]
pub struct MigrationEvent {
    pub id: String,
    pub job_id: JobId,
    pub file_id: Option<String>,
    pub account_id: Option<AccountId>,
    pub event_type: String,
    pub previous_state: Option<String>,
    pub new_state: Option<String>,
    pub sanitized_detail_json: Option<String>,
    pub created_at: String,
}

} // verus!
