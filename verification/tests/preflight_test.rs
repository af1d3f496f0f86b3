use gdom::drive::StorageQuota;
use gdom::item_store::ItemAggregates;
use gdom::preflight::PreflightSummary;

#[test]
fn quota_warning_when_estimated_exceeds_remaining() {
    let aggregates = ItemAggregates { total: 2, eligible: 2, estimated_quota_bytes: 80, ..ItemAggregates::default() };
    let quota = StorageQuota { limit_bytes: Some(100), usage_bytes: 40 };
    let summary = PreflightSummary::from_aggregates(&aggregates, &quota);
    assert!(summary.quota_warning);
    assert_eq!(summary.target_remaining_bytes, Some(60));
}

#[test]
fn unlimited_quota_is_not_a_warning() {
    let aggregates = ItemAggregates { estimated_quota_bytes: 999_999, ..ItemAggregates::default() };
    let quota = StorageQuota { limit_bytes: None, usage_bytes: 1 };
    let summary = PreflightSummary::from_aggregates(&aggregates, &quota);
    assert!(!summary.quota_warning);
    assert!(summary.target_remaining_bytes.is_none());
}

#[test]
fn report_contains_counts_and_quota_not_tokens() {
    let summary = PreflightSummary {
        total_items: 4,
        eligible_items: 2,
        eligible_files: 1,
        eligible_folders: 1,
        skipped_already_owned_by_target: 1,
        skipped_not_owned_by_source: 0,
        skipped_shared_drive: 0,
        skipped_shortcuts: 1,
        skipped_trashed: 0,
        skipped_ineligible: 0,
        estimated_quota_bytes: 50,
        target_usage_bytes: 10,
        target_limit_bytes: Some(1000),
        target_remaining_bytes: Some(990),
        quota_warning: false,
    };
    let report = summary.render_report("123", "source@gmail.com", "target@gmail.com", &vec!["Root".to_string()]);
    assert!(report.contains("Eligible items: 2"));
    assert!(report.contains("Target remaining bytes: 990"));
    assert!(report.contains("Quota sufficient: yes"));
    assert!(!report.to_ascii_lowercase().contains("bearer"));
    assert!(!report.contains("access_token"));
    assert!(!report.contains("refresh_token"));
}

#[test]
fn usage_above_the_limit_leaves_nothing() {
    let aggregates = ItemAggregates { estimated_quota_bytes: 1, ..ItemAggregates::default() };
    let quota = StorageQuota { limit_bytes: Some(10), usage_bytes: 25 };
    let summary = PreflightSummary::from_aggregates(&aggregates, &quota);
    assert_eq!(summary.target_remaining_bytes, Some(0));
    assert!(summary.quota_warning);
}

#[test]
fn skipped_total_adds_every_skip_reason() {
    let aggregates = ItemAggregates {
        skipped_already_owned_by_target: 1,
        skipped_not_owned_by_source: 2,
        skipped_shared_drive: 3,
        skipped_shortcuts: 4,
        skipped_trashed: 5,
        skipped_ineligible: 6,
        ..ItemAggregates::default()
    };
    let summary = PreflightSummary::from_aggregates(&aggregates, &StorageQuota { limit_bytes: None, usage_bytes: 0 });
    assert_eq!(summary.skipped_total(), 21);
}
