//! Events a running job reports to the user interface.

use vstd::prelude::*;
use crate::domain::JobId;
use crate::text::{decimal, decimal_u128};

verus! {

pub const EVENT_JOB_STATUS_CHANGED: &'static str = "job-status-changed";
pub const EVENT_JOB_LIST_CHANGED: &'static str = "job-list-changed";
pub const EVENT_SCAN_PROGRESS: &'static str = "scan-progress";
pub const EVENT_MIGRATION_PROGRESS: &'static str = "migration-progress";
pub const EVENT_ITEM_STATE_CHANGED: &'static str = "item-state-changed";
pub const EVENT_CANARY_COMPLETED: &'static str = "canary-completed";
pub const EVENT_MIGRATION_COMPLETED: &'static str = "migration-completed";

/// Payload of a status change.
#[derive(Clone, Debug, PartialEq, Eq)]
pub struct JobStatusChangedPayload {
    pub job_id: String,
    pub status: String,
}

/// Payload of scan progress.
#[derive(Clone, Debug, PartialEq, Eq)]
pub struct ScanProgressPayload {
    pub job_id: String,
    pub files: u64,
    pub folders: u64,
    pub skipped: u64,
}

/// Payload of transfer progress.
#[derive(Clone, Debug, PartialEq, Eq)]
pub struct MigrationProgressPayload {
    pub job_id: String,
    pub completed: u64,
    pub total: u64,
    pub current_path: Option<String>,
}

/// Payload of an item state change.
#[derive(Clone, Debug, PartialEq, Eq)]
pub struct ItemStateChangedPayload {
    pub job_id: String,
    pub item_id: String,
    pub state: String,
}

/// Payload that names a job only.
#[derive(Clone, Debug, PartialEq, Eq)]
pub struct JobIdPayload {
    pub job_id: String,
}

/// What a job reports while it runs.
#[derive(Clone, Debug, PartialEq, Eq)]
pub enum JobRuntimeEvent {
    JobStatusChanged { job_id: JobId, status: String },
    JobListChanged { job_id: JobId },
    ScanProgress { job_id: JobId, files: u64, folders: u64, skipped: u64 },
    MigrationProgress { job_id: JobId, completed: u64, total: u64, current_path: Option<String> },
    ItemStateChanged { job_id: JobId, item_id: String, state: String },
    CanaryCompleted { job_id: JobId },
    MigrationCompleted { job_id: JobId },
}

/// Receives job events.
pub trait JobEventSink {
    fn emit(&self, event: JobRuntimeEvent);
}

/// Drops every event.
pub struct NoopJobEventSink;

impl JobEventSink for NoopJobEventSink {
    fn emit(&self, _event: JobRuntimeEvent) {}
}

/// The key under which the user interface knows a job: its identifier in decimal.
pub fn job_id_key(job_id: JobId) -> (r: String)
    ensures r@ == decimal(job_id.0 as nat),
{
    decimal_u128(job_id.0)
}

} // verus!
