//! Identifiers and statuses of accounts and jobs.

use vstd::prelude::*;

verus! {

/// Identifier of a connected Google account.
#[derive(Clone, Copy, Debug, PartialEq, Eq, Structural, Hash, PartialOrd, Ord)]
pub struct AccountId(pub u128);

impl AccountId {
    pub fn new(value: u128) -> (r: Self)
        ensures r.0 == value,
    {
        AccountId(value)
    }

    pub fn value(self) -> (r: u128)
        ensures r == self.0,
    {
        self.0
    }
}

/// Identifier of a migration job.
#[derive(Clone, Copy, Debug, PartialEq, Eq, Structural, Hash, PartialOrd, Ord)]
pub struct JobId(pub u128);

impl JobId {
    pub fn new(value: u128) -> (r: Self)
        ensures r.0 == value,
    {
        JobId(value)
    }

    pub fn value(self) -> (r: u128)
        ensures r == self.0,
    {
        self.0
    }
}

/// Identifier of a migration root folder.
#[derive(Clone, Copy, Debug, PartialEq, Eq, Structural, Hash, PartialOrd, Ord)]
pub struct RootId(pub u128);

impl RootId {
    pub fn new(value: u128) -> (r: Self)
        ensures r.0 == value,
    {
        RootId(value)
    }

    pub fn value(self) -> (r: u128)
        ensures r == self.0,
    {
        self.0
    }
}

/// Google's permission identifier of an account, stable across renames.
#[derive(Debug, PartialEq, Eq, Hash)]
pub struct GooglePermissionId {
    pub value: String,
}

impl Clone for GooglePermissionId {
    fn clone(&self) -> (r: Self)
        ensures r == *self,
    {
        GooglePermissionId { value: self.value.clone() }
    }
}

impl GooglePermissionId {
    pub fn new(value: &str) -> (r: Self)
        ensures r.value@ == value@,
    {
        GooglePermissionId { value: String::from_str(value) }
    }

    pub fn as_str(&self) -> (r: &str)
        ensures r@ == self.value@,
    {
        self.value.as_str()
    }

    pub open spec fn view(&self) -> Seq<char> {
        self.value@
    }
}

} // verus!

verus! {

/// Authentication state of a connected account.
#[derive(Clone, Copy, Debug, PartialEq, Eq, Structural)]
pub enum AuthStatus {
    Connected,
    TokenRefreshing,
    ReauthRequired,
    Disconnected,
    RemovalPending,
}

impl AuthStatus {
    pub open spec fn name(self) -> Seq<char> {
        match self {
            AuthStatus::Connected => "CONNECTED"@,
            AuthStatus::TokenRefreshing => "TOKEN_REFRESHING"@,
            AuthStatus::ReauthRequired => "REAUTH_REQUIRED"@,
            AuthStatus::Disconnected => "DISCONNECTED"@,
            AuthStatus::RemovalPending => "REMOVAL_PENDING"@,
        }
    }

    /// The stored name of the status.
    pub fn as_str(&self) -> (r: &'static str)
        ensures r@ == self.name(),
    {
        match self {
            AuthStatus::Connected => "CONNECTED",
            AuthStatus::TokenRefreshing => "TOKEN_REFRESHING",
            AuthStatus::ReauthRequired => "REAUTH_REQUIRED",
            AuthStatus::Disconnected => "DISCONNECTED",
            AuthStatus::RemovalPending => "REMOVAL_PENDING",
        }
    }
}

/// Where a migration job stands.
#[derive(Clone, Copy, Debug, PartialEq, Eq, Structural)]
pub enum JobStatus {
    Draft,
    Scanning,
    Paused,
    ReadyForReview,
    Queued,
    RunningCanary,
    CanaryReview,
    Running,
    Pausing,
    Cancelling,
    Completed,
    CompletedWithErrors,
    Cancelled,
    Failed,
}

impl JobStatus {
    pub open spec fn name(self) -> Seq<char> {
        match self {
            JobStatus::Draft => "DRAFT"@,
            JobStatus::Scanning => "SCANNING"@,
            JobStatus::Paused => "PAUSED"@,
            JobStatus::ReadyForReview => "READY_FOR_REVIEW"@,
            JobStatus::Queued => "QUEUED"@,
            JobStatus::RunningCanary => "RUNNING_CANARY"@,
            JobStatus::CanaryReview => "CANARY_REVIEW"@,
            JobStatus::Running => "RUNNING"@,
            JobStatus::Pausing => "PAUSING"@,
            JobStatus::Cancelling => "CANCELLING"@,
            JobStatus::Completed => "COMPLETED"@,
            JobStatus::CompletedWithErrors => "COMPLETED_WITH_ERRORS"@,
            JobStatus::Cancelled => "CANCELLED"@,
            JobStatus::Failed => "FAILED"@,
        }
    }

    /// The stored name of the status.
    pub fn as_str(&self) -> (r: &'static str)
        ensures r@ == self.name(),
    {
        match self {
            JobStatus::Draft => "DRAFT",
            JobStatus::Scanning => "SCANNING",
            JobStatus::Paused => "PAUSED",
            JobStatus::ReadyForReview => "READY_FOR_REVIEW",
            JobStatus::Queued => "QUEUED",
            JobStatus::RunningCanary => "RUNNING_CANARY",
            JobStatus::CanaryReview => "CANARY_REVIEW",
            JobStatus::Running => "RUNNING",
            JobStatus::Pausing => "PAUSING",
            JobStatus::Cancelling => "CANCELLING",
            JobStatus::Completed => "COMPLETED",
            JobStatus::CompletedWithErrors => "COMPLETED_WITH_ERRORS",
            JobStatus::Cancelled => "CANCELLED",
            JobStatus::Failed => "FAILED",
        }
    }

    pub open spec fn finished(self) -> bool {
        matches!(self, JobStatus::Completed | JobStatus::CompletedWithErrors | JobStatus::Cancelled | JobStatus::Failed)
    }

    /// Statuses after which a job does no more work.
    pub fn is_finished(self) -> (r: bool)
        ensures r == self.finished(),
    {
        match self {
            JobStatus::Completed | JobStatus::CompletedWithErrors | JobStatus::Cancelled
            | JobStatus::Failed => true,
            _ => false,
        }
    }
}

/// Whether a root folder passed validation when it was added.
#[derive(Clone, Copy, Debug, PartialEq, Eq, Structural)]
pub enum RootValidationStatus {
    Validated,
}

/// A folder whose contents a job migrates.
#[derive(Clone, Debug, PartialEq, Eq)]
pub struct MigrationRoot {
    pub id: RootId,
    pub job_id: JobId,
    pub root_file_id: String,
    pub root_name: String,
    pub validation_status: RootValidationStatus,
    pub created_at: String,
}

/// Errors of the job lifecycle.
#[derive(Clone, Debug, PartialEq, Eq)]
pub enum JobError {
    SameSourceAndTarget,
    AccountPairLocked,
    RootsLocked,
    DuplicateRoot(String),
    RootNotFound(RootId),
    InvalidJobStatus,
    InvalidRootValidationStatus,
    IllegalTransition,
    NoValidatedRoots,
}

} // verus!

verus! {

/// Email and display name of a Google account.
#[derive(Clone, Debug, PartialEq, Eq)]
pub struct AccountProfile {
    pub email: String,
    pub display_name: String,
}

impl AccountProfile {
    pub fn new(email: &str, display_name: &str) -> (r: Self)
        ensures r.email@ == email@, r.display_name@ == display_name@,
    {
        AccountProfile { email: String::from_str(email), display_name: String::from_str(display_name) }
    }
}

/// A user's own name for a connected account.
#[derive(Clone, Debug, PartialEq, Eq)]
pub struct AccountLabel {
    pub value: String,
}

impl AccountLabel {
    pub fn as_str(&self) -> (r: &str)
        ensures r@ == self.value@,
    {
        self.value.as_str()
    }
}

/// Why account data was refused.
#[derive(Clone, Debug, PartialEq, Eq)]
pub struct AccountError {
    pub message: String,
}

/// A Google account connected to the application.
#[derive(Clone, Debug, PartialEq, Eq)]
pub struct ConnectedAccount {
    pub id: AccountId,
    pub google_permission_id: GooglePermissionId,
    pub profile: AccountProfile,
    pub label: Option<AccountLabel>,
    pub auth_status: AuthStatus,
    pub connected_at: String,
    pub last_authenticated_at: String,
    pub updated_at: String,
    pub removed_at: Option<String>,
}

impl ConnectedAccount {
    /// A freshly connected account: connected, without a label, not removed; its
    /// timestamps are filled in by the store.
    pub fn new(id: AccountId, google_permission_id: GooglePermissionId, profile: AccountProfile) -> (r: Self)
        ensures
            r.id == id,
            r.google_permission_id == google_permission_id,
            r.profile == profile,
            r.label is None,
            r.auth_status == AuthStatus::Connected,
            r.connected_at@.len() == 0,
            r.last_authenticated_at@.len() == 0,
            r.updated_at@.len() == 0,
            r.removed_at is None,
    {
        ConnectedAccount {
            id,
            google_permission_id,
            profile,
            label: None,
            auth_status: AuthStatus::Connected,
            connected_at: String::new(),
            last_authenticated_at: String::new(),
            updated_at: String::new(),
            removed_at: None,
        }
    }
}

/// A short-lived OAuth access token.
pub struct AccessToken {
    secret: String,
}

impl Clone for AccessToken {
    fn clone(&self) -> (r: Self)
        ensures r == *self,
    {
        AccessToken { secret: self.secret.clone() }
    }
}

impl AccessToken {
    pub closed spec fn view(&self) -> Seq<char> {
        self.secret@
    }

    pub fn new(secret: String) -> (r: Self)
        ensures r@ == secret@,
    {
        AccessToken { secret }
    }

    /// The token itself, for the request that needs it.
    pub fn expose_secret(&self) -> (r: &str)
        ensures r@ == self@,
    {
        self.secret.as_str()
    }

    /// What a debug view shows of the token: nothing of the secret.
    pub fn redacted_debug(&self) -> (r: &'static str)
        ensures r@ == "AccessToken([REDACTED])"@,
    {
        "AccessToken([REDACTED])"
    }
}

} // verus!
