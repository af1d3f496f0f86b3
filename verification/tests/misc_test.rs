use gdom::account_token_provider::TokenProviderError;
use gdom::domain::{JobId, JobStatus};
use gdom::drive::DriveFolderLookupError;
use gdom::entity_id::{new_entity_id, next_entity_id};
use gdom::final_report::FinalReportSnapshot;
use gdom::item_store::ItemStoreError;
use gdom::job_service::{
    check_final_report_allowed, final_report_export, final_report_format, quota_lookup_note, report_format_for,
    scan_finish, JobServiceError, QuotaLookup, ScanFinish,
};
use gdom::scanner::{ScanError, ScanOutcome};
use gdom::urls::path_segments;

#[test]
fn entity_ids_put_the_clock_above_the_sequence() {
    assert_eq!(next_entity_id(1, 0), 65536);
    assert_eq!(next_entity_id(1, 5), 65541);
    assert_eq!(next_entity_id(0, 65537), 1);
    assert_ne!(next_entity_id(7, 1), next_entity_id(7, 2));
}

#[test]
fn scan_runs_end_by_outcome() {
    assert_eq!(scan_finish(&Ok(ScanOutcome::Completed), false), ScanFinish::Complete);
    assert_eq!(scan_finish(&Ok(ScanOutcome::Paused), true), ScanFinish::Pause);
    assert_eq!(
        scan_finish(&Err(ScanError::RateLimited), true),
        ScanFinish::PauseForRetry("Google Drive rate limit reached".into())
    );
    assert_eq!(
        scan_finish(&Err(ScanError::Store(ItemStoreError::InvalidState)), false),
        ScanFinish::Fail("scan persistence failed: invalid item state in database".into())
    );
}

#[test]
fn quota_lookup_failures_are_noted() {
    assert_eq!(quota_lookup_note(&QuotaLookup::Found), None);
    assert_eq!(
        quota_lookup_note(&QuotaLookup::LookupFailed(DriveFolderLookupError::Unavailable)),
        Some("quota lookup failed: Google Drive is unavailable".to_string())
    );
    assert_eq!(
        quota_lookup_note(&QuotaLookup::TokenFailed(TokenProviderError::ReauthRequired)),
        Some("quota lookup token failed: account requires re-authentication".to_string())
    );
}

#[test]
fn final_reports_go_to_csv_or_text_files() {
    assert_eq!(final_report_format("/tmp/report.CSV"), Ok(true));
    assert_eq!(final_report_format("report.txt"), Ok(false));
    let refused = Err(JobServiceError::ExportFailed("choose a .txt or .csv destination".into()));
    assert_eq!(final_report_format("report.pdf"), refused);
    assert_eq!(final_report_format("report"), refused);
    assert_eq!(final_report_format("  "), refused);
    assert_eq!(report_format_for("x.csv", &Some("csv".into())), Ok(true));
    assert_eq!(report_format_for("x", &None), refused);
    assert_eq!(final_report_format("report.csv/"), Ok(true));
}

#[test]
fn final_reports_need_a_finished_idle_job() {
    assert_eq!(check_final_report_allowed(JobStatus::Completed, true), Err(JobServiceError::TransferInProgress));
    assert_eq!(check_final_report_allowed(JobStatus::Running, false), Err(JobServiceError::IllegalTransition));
    assert!(check_final_report_allowed(JobStatus::Cancelled, false).is_ok());
    let snapshot = FinalReportSnapshot {
        job_id: JobId::new(1),
        status: JobStatus::Completed,
        source_email: "s".into(),
        source_display_name: "S".into(),
        target_email: "t".into(),
        target_display_name: "T".into(),
        created_at: "c".into(),
        started_at: None,
        completed_at: None,
        last_error: None,
        roots: vec![],
        items: vec![],
    };
    let export = final_report_export("/tmp/r.csv", &snapshot);
    assert_eq!(export.path, "/tmp/r.csv");
    assert_eq!(export.status, JobStatus::Completed);
    assert_eq!(export.counts.total, 0);
}

#[test]
fn paths_split_like_url_path_segments() {
    assert_eq!(path_segments("/a/b"), Some(vec!["a".to_string(), "b".to_string()]));
    assert_eq!(path_segments("/"), Some(vec![String::new()]));
    assert_eq!(path_segments("/a//"), Some(vec!["a".to_string(), String::new(), String::new()]));
    assert_eq!(path_segments("a/b"), None);
    assert_eq!(path_segments(""), None);
}

#[test]
fn clock_ids_keep_the_sequence_in_the_low_bits() {
    let first = new_entity_id(3);
    let second = new_entity_id(4);
    assert_eq!(first & 0xFFFF, 3);
    assert_eq!(second & 0xFFFF, 4);
    assert_ne!(first, second);
    assert!(first >> 16 > 0);
}
