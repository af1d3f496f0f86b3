use gdom::domain::{AccountId, GooglePermissionId, JobError, JobId, JobStatus, RootId};
use gdom::drive::{DriveFolderLookupError, DriveFolderMetadata, DriveFolderOwner, DriveTransferError};
use gdom::item::{ItemId, ItemState, MigrationItem};
use gdom::item_store::{ItemAggregates, ItemStoreError};
use gdom::job_events::JobRuntimeEvent;
use gdom::job_service::{
    as_target_error, bulk_mutation_has_started, check_continue, check_distinct_accounts, check_export_destination,
    check_pause_migration, check_pause_scan, check_root_folder, check_roots_editable, check_start_canary,
    emails_match, folder_lookup_error, job_failure, live_failures, looks_like_transfer_pause, root_folder_id,
    scan_summary_from, should_resume_as_canary, status_events, transfer_progress, try_acquire_transfer_slot,
    ItemFailure, JobServiceError, ScanSlots, TransferSlot,
};
use gdom::job_store::JobStorePortError;
use gdom::preflight::PreflightSummary;
use gdom::root_parser::RootParseError;
use gdom::scanner::ScanError;
use gdom::transfer::TransferError;

#[test]
fn transfer_lease_is_exclusive_including_same_job() {
    let mut slot = TransferSlot::new();
    let first = JobId::new(1);
    let second = JobId::new(2);

    let guard = try_acquire_transfer_slot(&mut slot, first).expect("first acquire");
    assert!(matches!(try_acquire_transfer_slot(&mut slot, first), Err(JobServiceError::TransferInProgress)));
    assert!(matches!(try_acquire_transfer_slot(&mut slot, second), Err(JobServiceError::TransferInProgress)));
    assert_eq!(slot.holder(), Some(first));

    guard.release(&mut slot);
    assert_eq!(slot.holder(), None);

    let later = try_acquire_transfer_slot(&mut slot, second).expect("acquire after release");
    later.release(&mut slot);
    assert_eq!(slot.holder(), None);
}

#[test]
fn clearing_another_jobs_lease_keeps_the_holder() {
    let mut slot = TransferSlot::new();
    let lease = try_acquire_transfer_slot(&mut slot, JobId::new(5)).expect("acquire");
    slot.clear_for(JobId::new(6));
    assert_eq!(slot.holder(), Some(JobId::new(5)));
    assert!(slot.is_held_by(JobId::new(5)));
    assert_eq!(lease.job_id(), JobId::new(5));
    slot.reset();
    assert_eq!(slot.holder(), None);
}

#[test]
fn a_job_scans_once_at_a_time() {
    let mut slots = ScanSlots::new();
    assert!(slots.try_acquire(JobId::new(1)).is_ok());
    assert_eq!(slots.try_acquire(JobId::new(1)), Err(JobServiceError::ScanInProgress));
    assert!(slots.try_acquire(JobId::new(2)).is_ok());
    slots.release(JobId::new(1));
    assert!(!slots.contains(JobId::new(1)));
    assert!(slots.contains(JobId::new(2)));
    assert!(slots.try_acquire(JobId::new(1)).is_ok());
}

#[test]
fn service_errors_describe_themselves() {
    assert_eq!(JobServiceError::JobNotFound(JobId::new(7)).to_string(), "job not found: 7");
    assert_eq!(
        JobServiceError::ParseError(RootParseError::EmptyInput).to_string(),
        "invalid folder URL or ID: input cannot be empty"
    );
    assert_eq!(
        JobServiceError::SourceAccountNotFound(AccountId::new(3)).to_string(),
        "source account not found: 3"
    );
    assert_eq!(JobServiceError::StoreError("boom".into()).to_string(), "persistence error: boom");
}

#[test]
fn lower_errors_map_to_service_errors() {
    assert_eq!(
        JobServiceError::from_job_error(JobError::InvalidJobStatus),
        JobServiceError::StoreError("invalid job status".into())
    );
    assert_eq!(
        JobServiceError::from_job_store_error(JobStorePortError::MutationLeaseHeld),
        JobServiceError::TransferInProgress
    );
    assert_eq!(
        JobServiceError::from_job_store_error(JobStorePortError::AccountHasActiveJobs(AccountId::new(9))),
        JobServiceError::StoreError("account has active jobs: 9".into())
    );
    assert_eq!(
        JobServiceError::from_job_store_error(JobStorePortError::AccountNotFound(AccountId::new(4))),
        JobServiceError::SourceAccountNotFound(AccountId::new(4))
    );
    assert_eq!(
        JobServiceError::from_transfer_error(TransferError::Drive(DriveTransferError::StorageQuotaExceeded)),
        JobServiceError::WaitingForQuota
    );
    assert_eq!(
        JobServiceError::from_transfer_error(TransferError::Drive(DriveTransferError::NotFound)),
        JobServiceError::DriveError("Google Drive file not found".into())
    );
    assert_eq!(
        JobServiceError::from_transfer_error(TransferError::InvalidItemState),
        JobServiceError::StoreError("illegal item state transition during transfer".into())
    );
    assert_eq!(JobServiceError::from_scan_error(&ScanError::RateLimited), JobServiceError::RateLimited);
    assert_eq!(
        JobServiceError::from_scan_error(&ScanError::Store(ItemStoreError::InvalidState)),
        JobServiceError::StoreError("invalid item state in database".into())
    );
    assert_eq!(
        JobServiceError::from_item_store_error(&ItemStoreError::Database("x".into())),
        JobServiceError::StoreError("database error: x".into())
    );
}

#[test]
fn status_changes_announce_review_and_completion() {
    let job = JobId::new(11);
    let events = status_events(job, JobStatus::CanaryReview);
    assert_eq!(events.len(), 2);
    assert_eq!(events[0], JobRuntimeEvent::JobStatusChanged { job_id: job, status: "CANARY_REVIEW".into() });
    assert_eq!(events[1], JobRuntimeEvent::CanaryCompleted { job_id: job });
    assert_eq!(status_events(job, JobStatus::CompletedWithErrors)[1], JobRuntimeEvent::MigrationCompleted { job_id: job });
    assert_eq!(status_events(job, JobStatus::Running).len(), 1);
}

#[test]
fn confirmation_email_ignores_case_and_spaces_but_not_blank() {
    assert!(emails_match("  Target@Gmail.com ", "target@gmail.com"));
    assert!(!emails_match("other@gmail.com", "target@gmail.com"));
    assert!(!emails_match("   ", "   "));
}

#[test]
fn canary_start_checks_confirmation_then_status() {
    assert_eq!(check_start_canary(JobStatus::Draft, "x@y.z", "a@b.c"), Err(JobServiceError::ConfirmationMismatch));
    assert_eq!(check_start_canary(JobStatus::Draft, "a@b.c", "a@b.c"), Err(JobServiceError::IllegalTransition));
    assert!(check_start_canary(JobStatus::ReadyForReview, "A@B.C", "a@b.c").is_ok());
    assert!(check_start_canary(JobStatus::Queued, "a@b.c", "a@b.c").is_ok());
}

#[test]
fn action_guards_follow_the_job_status() {
    assert!(check_continue(JobStatus::CanaryReview, true).is_ok());
    assert!(check_continue(JobStatus::Queued, false).is_ok());
    assert_eq!(check_continue(JobStatus::Queued, true), Err(JobServiceError::IllegalTransition));
    assert!(check_pause_migration(JobStatus::Pausing).is_ok());
    assert_eq!(check_pause_migration(JobStatus::Draft), Err(JobServiceError::IllegalTransition));
    assert!(check_pause_scan(JobStatus::Scanning).is_ok());
    assert_eq!(check_pause_scan(JobStatus::Running), Err(JobServiceError::IllegalTransition));
    assert_eq!(check_roots_editable(JobStatus::Scanning), Err(JobServiceError::RootsLocked));
    assert_eq!(check_distinct_accounts(AccountId::new(1), AccountId::new(1)), Err(JobServiceError::SameSourceAndTarget));
    assert!(check_distinct_accounts(AccountId::new(1), AccountId::new(2)).is_ok());
    assert_eq!(
        as_target_error(JobServiceError::SourceAccountNotFound(AccountId::new(2))),
        JobServiceError::TargetAccountNotFound(AccountId::new(2))
    );
}

#[test]
fn root_input_needs_a_draft_and_a_valid_id() {
    assert_eq!(root_folder_id(JobStatus::Running, "1aBcDeFgHiJkLmNoPqRsTuVwXyZ"), Err(JobServiceError::RootsLocked));
    assert_eq!(
        root_folder_id(JobStatus::Draft, "root"),
        Err(JobServiceError::ParseError(RootParseError::RootContainerNotAllowed))
    );
    assert_eq!(
        root_folder_id(JobStatus::Draft, "https://drive.google.com/drive/folders/1aBcDeFgHiJkLmNoPqRsTuVwXyZ"),
        Ok("1aBcDeFgHiJkLmNoPqRsTuVwXyZ".to_string())
    );
}

fn folder(owner: &str) -> DriveFolderMetadata {
    DriveFolderMetadata {
        id: "folder-1".into(),
        name: "Folder".into(),
        mime_type: "application/vnd.google-apps.folder".into(),
        trashed: false,
        drive_id: None,
        owners: vec![DriveFolderOwner { permission_id: GooglePermissionId::new(owner), email_address: None }],
    }
}

#[test]
fn root_folder_checks_run_in_order() {
    let source = GooglePermissionId::new("perm-source");
    assert!(check_root_folder(&folder("perm-source"), &source).is_ok());
    assert_eq!(check_root_folder(&folder("other"), &source), Err(JobServiceError::NotOwnedBySourceAccount));
    let mut shared = folder("perm-source");
    shared.drive_id = Some("0A".into());
    assert_eq!(check_root_folder(&shared, &source), Err(JobServiceError::SharedDriveNotSupported));
    let mut file = folder("perm-source");
    file.mime_type = "text/plain".into();
    assert_eq!(check_root_folder(&file, &source), Err(JobServiceError::NotAFolder));
    let mut trashed = file.clone();
    trashed.trashed = true;
    assert_eq!(check_root_folder(&trashed, &source), Err(JobServiceError::FolderTrashed));
}

#[test]
fn folder_lookup_errors_map_by_kind() {
    assert_eq!(folder_lookup_error(DriveFolderLookupError::NotFound), JobServiceError::FolderNotFound);
    assert_eq!(
        folder_lookup_error(DriveFolderLookupError::Forbidden),
        JobServiceError::TokenError("Google Drive denied this request".into())
    );
    assert_eq!(
        folder_lookup_error(DriveFolderLookupError::Transport),
        JobServiceError::DriveError("Google Drive request failed".into())
    );
}

#[test]
fn export_destination_must_not_be_blank() {
    assert_eq!(
        check_export_destination("  "),
        Err(JobServiceError::ExportFailed("destination path is required".into()))
    );
    assert!(check_export_destination("/tmp/report.txt").is_ok());
}

#[test]
fn scan_summary_falls_back_to_unknown_quota() {
    let empty = ItemAggregates::default();
    assert_eq!(scan_summary_from(&empty, Err(JobServiceError::RateLimited)), Ok(None));
    let aggregates = ItemAggregates { total: 3, eligible: 2, estimated_quota_bytes: 5, ..ItemAggregates::default() };
    let fallback = scan_summary_from(&aggregates, Err(JobServiceError::TokenError("x".into()))).unwrap().unwrap();
    assert_eq!(fallback.total_items, 3);
    assert_eq!(fallback.target_limit_bytes, None);
    assert!(!fallback.quota_warning);
    assert_eq!(scan_summary_from(&aggregates, Err(JobServiceError::RateLimited)), Err(JobServiceError::RateLimited));
    let summary = PreflightSummary::from_aggregates(&aggregates, &gdom::drive::StorageQuota { limit_bytes: Some(1), usage_bytes: 0 });
    assert_eq!(scan_summary_from(&aggregates, Ok(summary.clone())), Ok(Some(summary)));
}

fn item(n: u128, state: ItemState, canary: bool) -> MigrationItem {
    MigrationItem {
        id: ItemId::new(n),
        job_id: JobId::new(1),
        file_id: format!("file-{n}"),
        name: format!("Name {n}"),
        mime_type: "text/plain".into(),
        depth: 1,
        original_parent_ids: vec![],
        original_owner_permission_id: None,
        quota_bytes_used: None,
        target_permission_id: None,
        state,
        canary_selected: canary,
        created_at: "t0".into(),
        updated_at: format!("t{n}"),
    }
}

#[test]
fn progress_counts_done_items_and_names_the_current_one() {
    assert!(transfer_progress(&vec![]).is_none());
    let items = vec![
        item(1, ItemState::Verified, true),
        item(2, ItemState::Eligible, false),
        item(3, ItemState::Accepting, false),
        item(4, ItemState::Transferred, false),
    ];
    let progress = transfer_progress(&items).unwrap();
    assert_eq!(progress.completed, 2);
    assert_eq!(progress.total, 4);
    assert_eq!(progress.current_path, Some("Name 3".to_string()));
    let waiting = vec![item(1, ItemState::Verified, false), item(2, ItemState::Eligible, false)];
    assert_eq!(transfer_progress(&waiting).unwrap().current_path, Some("Name 2".to_string()));
    let done = vec![item(1, ItemState::Verified, false)];
    assert_eq!(transfer_progress(&done).unwrap().current_path, None);
}

#[test]
fn failures_list_the_job_error_first() {
    let items = vec![item(1, ItemState::RetryableFailed, false), item(2, ItemState::Verified, false)];
    let job = job_failure("quota".into(), None, Some("started".into()), "created".into());
    assert_eq!(job, ItemFailure { item_id: "job".into(), message: "quota".into(), at: "started".into() });
    let failures = live_failures(&items, Some(job.clone()));
    assert_eq!(failures.len(), 2);
    assert_eq!(failures[0], job);
    assert_eq!(
        failures[1],
        ItemFailure { item_id: "file-1".into(), message: "RETRYABLE_FAILED".into(), at: "t1".into() }
    );
    assert_eq!(live_failures(&items, None).len(), 1);
}

#[test]
fn resuming_follows_the_latest_event_then_the_items() {
    let items = vec![item(1, ItemState::Verified, true), item(2, ItemState::Accepting, false)];
    assert!(bulk_mutation_has_started(&items));
    assert!(!bulk_mutation_has_started(&vec![item(1, ItemState::Accepting, true)]));
    assert!(!should_resume_as_canary(&Some((Some("RUNNING".into()), Some("PAUSED".into()))), false));
    assert!(should_resume_as_canary(&Some((Some("RUNNING_CANARY".into()), Some("PAUSED".into()))), true));
    assert!(should_resume_as_canary(&None, false));
    assert!(!should_resume_as_canary(&None, true));
    assert!(looks_like_transfer_pause(&Some("PAUSING".into()), false, false));
    assert!(!looks_like_transfer_pause(&Some("SCANNING".into()), false, false));
    assert!(looks_like_transfer_pause(&None, true, false));
    let _ = RootId::new(1);
}
