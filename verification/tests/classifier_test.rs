use gdom::classifier::{classify_drive_child, ScanDisposition};
use gdom::domain::GooglePermissionId;
use gdom::drive::{DriveChild, DriveFolderOwner, FOLDER_MIME_TYPE, SHORTCUT_MIME_TYPE};
use gdom::item::ItemState;

fn child(mime: &str) -> DriveChild {
    DriveChild {
        id: "file-1".into(),
        name: "Item".into(),
        mime_type: mime.into(),
        parents: vec!["parent".into()],
        owners: vec![DriveFolderOwner { permission_id: GooglePermissionId::new("perm-source"), email_address: None }],
        drive_id: None,
        quota_bytes_used: Some(10),
        trashed: false,
        shortcut_target_id: None,
        modified_time: None,
        web_view_link: None,
    }
}

fn source() -> GooglePermissionId {
    GooglePermissionId::new("perm-source")
}

fn target() -> GooglePermissionId {
    GooglePermissionId::new("perm-target")
}

#[test]
fn skips_trashed_before_other_rules() {
    let mut item = child(FOLDER_MIME_TYPE);
    item.trashed = true;
    item.drive_id = Some("drive".into());
    assert_eq!(classify_drive_child(&item, &source(), &target()), ScanDisposition::Trashed);
}

#[test]
fn skips_shared_drive_items() {
    let mut item = child(FOLDER_MIME_TYPE);
    item.drive_id = Some("0AShared".into());
    assert_eq!(classify_drive_child(&item, &source(), &target()), ScanDisposition::SharedDrive);
}

#[test]
fn skips_target_owned_items() {
    let mut item = child("text/plain");
    item.owners = vec![DriveFolderOwner { permission_id: GooglePermissionId::new("perm-target"), email_address: None }];
    assert_eq!(classify_drive_child(&item, &source(), &target()), ScanDisposition::AlreadyOwnedByTarget);
}

#[test]
fn skips_items_not_owned_by_source() {
    let mut item = child("text/plain");
    item.owners = vec![DriveFolderOwner { permission_id: GooglePermissionId::new("someone-else"), email_address: None }];
    assert_eq!(classify_drive_child(&item, &source(), &target()), ScanDisposition::NotOwnedBySource);
}

#[test]
fn records_source_owned_shortcut_without_eligible_folder() {
    let mut item = child(SHORTCUT_MIME_TYPE);
    item.shortcut_target_id = Some("target-folder".into());
    let disposition = classify_drive_child(&item, &source(), &target());
    assert_eq!(disposition, ScanDisposition::Shortcut);
    assert!(!disposition.should_recurse());
    assert_eq!(disposition.item_state(), ItemState::SkippedIneligible);
}

#[test]
fn classifies_source_owned_folder_and_file() {
    assert_eq!(classify_drive_child(&child(FOLDER_MIME_TYPE), &source(), &target()), ScanDisposition::EligibleFolder);
    assert_eq!(classify_drive_child(&child("text/plain"), &source(), &target()), ScanDisposition::EligibleFile);
}

#[test]
fn only_eligible_folders_are_listed_further() {
    assert!(ScanDisposition::EligibleFolder.should_recurse());
    assert!(!ScanDisposition::EligibleFile.should_recurse());
    assert_eq!(ScanDisposition::EligibleFile.item_state(), ItemState::Eligible);
    assert_eq!(ScanDisposition::Trashed.item_state(), ItemState::SkippedTrashed);
}
