use gdom::domain::{GooglePermissionId, JobId, MigrationRoot, RootId, RootValidationStatus};
use gdom::drive::{DriveChild, DriveChildPage, DriveFolderLookupError, DriveFolderOwner, FOLDER_MIME_TYPE};
use gdom::item::{ItemId, ItemState};
use gdom::item_store::ItemStoreError;
use gdom::scanner::{needs_seed, plan_page, plan_seed, ScanError, ScanState, ScanStep, WorkItem};

fn owner(id: &str) -> Vec<DriveFolderOwner> {
    vec![DriveFolderOwner { permission_id: GooglePermissionId::new(id), email_address: None }]
}

fn child(id: &str, mime: &str, owner_id: &str) -> DriveChild {
    DriveChild {
        id: id.into(),
        name: format!("name-{id}"),
        mime_type: mime.into(),
        parents: vec!["parent".into()],
        owners: owner(owner_id),
        drive_id: None,
        quota_bytes_used: Some(1),
        trashed: false,
        shortcut_target_id: None,
        modified_time: None,
        web_view_link: None,
    }
}

fn ids(n: u128) -> Vec<ItemId> {
    (0..n).map(|i| ItemId::new(100 + i)).collect()
}

#[test]
fn a_page_adds_new_children_once_and_queues_their_folders() {
    let source = GooglePermissionId::new("src");
    let target = GooglePermissionId::new("dst");
    let mut visited = vec!["seen".to_string()];
    let page = DriveChildPage {
        files: vec![
            child("seen", "text/plain", "src"),
            child("f1", FOLDER_MIME_TYPE, "src"),
            child("x1", "text/plain", "dst"),
            child("f1", FOLDER_MIME_TYPE, "src"),
        ],
        next_page_token: None,
    };
    let plan = plan_page(&mut visited, JobId::new(1), &source, &target, "parent".into(), 0, page, &ids(4), &"now".to_string());
    assert_eq!(visited, vec!["seen".to_string(), "f1".to_string(), "x1".to_string()]);
    assert_eq!(plan.commits.len(), 2);
    let batch = &plan.commits[0];
    assert_eq!(batch.items.len(), 2);
    assert_eq!(batch.items[0].file_id, "f1");
    assert_eq!(batch.items[0].id, ItemId::new(100));
    assert_eq!(batch.items[0].depth, 1);
    assert_eq!(batch.items[0].state, ItemState::Eligible);
    assert_eq!(batch.items[1].state, ItemState::SkippedAlreadyOwnedByTarget);
    assert_eq!(batch.items[1].id, ItemId::new(101));
    assert_eq!(batch.checkpoints_upsert.len(), 1);
    assert_eq!(batch.checkpoints_upsert[0].folder_id, "f1");
    assert_eq!(plan.commits[1].checkpoints_delete, vec!["parent".to_string()]);
    assert!(plan.commits[1].items.is_empty());
    assert_eq!(plan.enqueue, vec![WorkItem { folder_id: "f1".into(), page_token: None, depth: 1 }]);
}

#[test]
fn a_page_with_more_to_come_checkpoints_the_next_page() {
    let source = GooglePermissionId::new("src");
    let target = GooglePermissionId::new("dst");
    let mut visited = Vec::new();
    let page = DriveChildPage { files: vec![], next_page_token: Some("p2".into()) };
    let plan = plan_page(&mut visited, JobId::new(1), &source, &target, "root".into(), 3, page, &vec![], &"now".to_string());
    assert_eq!(plan.commits.len(), 1);
    assert_eq!(plan.commits[0].checkpoints_upsert[0].page_token, Some("p2".to_string()));
    assert_eq!(plan.commits[0].checkpoints_upsert[0].depth, 3);
    assert!(plan.commits[0].checkpoints_delete.is_empty());
    assert_eq!(plan.enqueue, vec![WorkItem { folder_id: "root".into(), page_token: Some("p2".into()), depth: 3 }]);
}

#[test]
fn items_are_committed_in_bounded_batches() {
    let source = GooglePermissionId::new("src");
    let target = GooglePermissionId::new("dst");
    let files: Vec<DriveChild> = (0..250).map(|i| child(&format!("c{i}"), "text/plain", "src")).collect();
    let mut visited = Vec::new();
    let page = DriveChildPage { files, next_page_token: None };
    let plan = plan_page(&mut visited, JobId::new(1), &source, &target, "root".into(), 0, page, &ids(250), &"now".to_string());
    let sizes: Vec<usize> = plan.commits.iter().map(|c| c.items.len()).collect();
    assert_eq!(sizes, vec![100, 100, 50, 0]);
    assert_eq!(visited.len(), 250);
}

fn root(id: &str) -> MigrationRoot {
    MigrationRoot {
        id: RootId::new(1),
        job_id: JobId::new(1),
        root_file_id: id.into(),
        root_name: format!("Root {id}"),
        validation_status: RootValidationStatus::Validated,
        created_at: "t".into(),
    }
}

#[test]
fn overlapping_roots_are_seeded_once() {
    let source = GooglePermissionId::new("src");
    let mut visited = Vec::new();
    let roots = vec![root("r1"), root("r2"), root("r1")];
    let (batches, checkpoints) = plan_seed(&mut visited, JobId::new(1), &roots, &source, &ids(3), &"now".to_string());
    assert_eq!(batches.len(), 1);
    assert_eq!(batches[0].items.len(), 2);
    assert_eq!(batches[0].items[0].mime_type, FOLDER_MIME_TYPE);
    assert_eq!(batches[0].items[0].original_owner_permission_id, Some(source.clone()));
    assert_eq!(checkpoints.len(), 2);
    assert_eq!(checkpoints[1].folder_id, "r2");
    assert_eq!(visited, vec!["r1".to_string(), "r2".to_string()]);
    let again = plan_seed(&mut visited, JobId::new(1), &roots, &source, &ids(3), &"now".to_string());
    assert!(again.0.is_empty() && again.1.is_empty());
}

#[test]
fn a_run_lists_waves_until_paused_or_done() {
    assert!(needs_seed(&vec![], &vec![]));
    let mut state = ScanState::resume(vec![], vec![]);
    assert_eq!(state.next_step(false, 4), ScanStep::Finished);
    state.queue = (0..5).map(|i| WorkItem { folder_id: format!("f{i}"), page_token: None, depth: 0 }).collect();
    assert_eq!(state.next_step(true, 4), ScanStep::Paused);
    match state.next_step(false, 4) {
        ScanStep::Wave(wave) => assert_eq!(wave.len(), 4),
        other => panic!("expected a wave, got {other:?}"),
    }
    assert_eq!(state.queue.len(), 1);
    match state.next_step(false, 0) {
        ScanStep::Wave(wave) => assert_eq!(wave[0].folder_id, "f4"),
        other => panic!("expected a wave, got {other:?}"),
    }
    assert_eq!(state.next_step(false, 4), ScanStep::Finished);
}

#[test]
fn scan_errors_describe_themselves() {
    assert_eq!(ScanError::from_drive(DriveFolderLookupError::RateLimited), ScanError::RateLimited);
    assert_eq!(
        ScanError::from_drive(DriveFolderLookupError::Transport).to_string(),
        "Drive listing failed: Google Drive request failed"
    );
    assert_eq!(
        ScanError::from_store(ItemStoreError::InvalidState).to_string(),
        "scan persistence failed: invalid item state in database"
    );
}
