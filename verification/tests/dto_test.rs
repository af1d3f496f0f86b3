use gdom::commands::dto::{AccountDto, JobItemDto, ScanSummaryDto};
use gdom::domain::{AccountId, AccountProfile, AuthStatus, ConnectedAccount, GooglePermissionId, JobId};
use gdom::drive::StorageQuota;
use gdom::item::{ItemId, ItemState, MigrationItem};
use gdom::item_store::ItemAggregates;
use gdom::preflight::PreflightSummary;

fn sample_account() -> ConnectedAccount {
    ConnectedAccount::new(
        AccountId::new(42),
        GooglePermissionId::new("perm-abc123"),
        AccountProfile::new("user@gmail.com", "Test User"),
    )
}

#[test]
fn account_dto_from_ref_maps_all_fields() {
    let account = sample_account();
    let dto = AccountDto::from(&account);

    assert_eq!(dto.id, "42");
    assert_eq!(dto.google_permission_id, "perm-abc123");
    assert_eq!(dto.email, "user@gmail.com");
    assert_eq!(dto.display_name, "Test User");
    assert_eq!(dto.auth_status, AuthStatus::Connected);
    assert_eq!(dto.label, None);
}

#[test]
fn account_dto_from_owned_matches_ref() {
    let account = sample_account();
    let from_ref = AccountDto::from(&account);
    let from_owned = AccountDto::from(account);

    assert_eq!(from_ref, from_owned);
}

#[test]
fn scan_summary_counts_every_skip_as_ineligible() {
    let aggregates = ItemAggregates {
        eligible_files: 3,
        eligible_folders: 1,
        skipped_trashed: 2,
        skipped_shortcuts: 1,
        ..ItemAggregates::default()
    };
    let summary = PreflightSummary::from_aggregates(&aggregates, &StorageQuota { limit_bytes: None, usage_bytes: 0 });
    let dto = ScanSummaryDto::from_summary(&summary);
    assert_eq!((dto.files, dto.folders, dto.skipped, dto.ineligible, dto.quota_warning), (3, 1, 3, 3, false));
}

#[test]
fn job_items_are_described_with_decimal_ids_and_state_names() {
    let item = MigrationItem {
        id: ItemId::new(900),
        job_id: JobId::new(12),
        file_id: "f".into(),
        name: "n".into(),
        mime_type: "m".into(),
        depth: 2,
        original_parent_ids: vec!["p1".into(), "p2".into()],
        original_owner_permission_id: None,
        quota_bytes_used: Some(5),
        target_permission_id: None,
        state: ItemState::AcceptRequired,
        canary_selected: false,
        created_at: "c".into(),
        updated_at: "u".into(),
    };
    let dto = JobItemDto::from_item(&item);
    assert_eq!(dto.id, "900");
    assert_eq!(dto.job_id, "12");
    assert_eq!(dto.state, "ACCEPT_REQUIRED");
    assert_eq!(dto.original_parent_ids, vec!["p1".to_string(), "p2".to_string()]);
    assert_eq!(dto.quota_bytes_used, Some(5));
}
