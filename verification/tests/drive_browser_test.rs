use gdom::account_token_provider::TokenProviderError;
use gdom::commands::drive::{file_item_dto, map_browser_error};
use gdom::commands::error::CommandError;
use gdom::domain::{AuthStatus, GooglePermissionId};
use gdom::drive::{DriveChild, DriveChildPage, DriveFolderLookupError, DriveFolderOwner, FOLDER_MIME_TYPE};
use gdom::drive_browser::{browser_page, check_account_access, check_rename, check_trash, DriveBrowserError, RenameFileRequest};

fn file(id: &str, owner: &str) -> DriveChild {
    DriveChild {
        id: id.into(),
        name: "n".into(),
        mime_type: FOLDER_MIME_TYPE.into(),
        parents: vec![],
        owners: vec![DriveFolderOwner { permission_id: GooglePermissionId::new(owner), email_address: Some("o@x.y".into()) }],
        drive_id: None,
        quota_bytes_used: Some(3),
        trashed: false,
        shortcut_target_id: None,
        modified_time: Some("m".into()),
        web_view_link: None,
    }
}

#[test]
fn browsing_needs_an_active_connected_account() {
    assert!(check_account_access(true, AuthStatus::Connected).is_ok());
    assert_eq!(
        check_account_access(false, AuthStatus::Connected),
        Err(DriveBrowserError::Authorization(TokenProviderError::AccountRemoved))
    );
    assert_eq!(
        check_account_access(true, AuthStatus::ReauthRequired),
        Err(DriveBrowserError::Authorization(TokenProviderError::ReauthRequired))
    );
}

#[test]
fn pages_mark_the_files_the_account_owns() {
    let page = DriveChildPage { files: vec![file("a", "me"), file("b", "other")], next_page_token: Some("t".into()) };
    let shown = browser_page(page, &GooglePermissionId::new("me"));
    assert!(shown.items[0].is_owner);
    assert!(!shown.items[1].is_owner);
    assert_eq!(shown.next_page_token, Some("t".to_string()));
    let dto = file_item_dto(shown.items[0].clone());
    assert!(dto.is_folder && dto.can_transfer_ownership && dto.is_owner);
    assert_eq!(dto.owners[0].permission_id, "me");
    assert_eq!(dto.size, Some(3));
}

#[test]
fn blank_names_and_ids_are_refused() {
    let bad = RenameFileRequest { file_id: " ".into(), new_name: "x".into() };
    assert_eq!(check_rename(&bad), Err(DriveBrowserError::InvalidInput("file ID and name must not be empty")));
    assert!(check_rename(&RenameFileRequest { file_id: "f".into(), new_name: "x".into() }).is_ok());
    assert_eq!(check_trash(""), Err(DriveBrowserError::InvalidInput("file ID must not be empty")));
    assert!(check_trash("f").is_ok());
}

#[test]
fn browsing_errors_are_shown_with_their_kind() {
    assert_eq!(
        map_browser_error(DriveBrowserError::Drive(DriveFolderLookupError::RateLimited)),
        CommandError::DriveApi("Google Drive rate limit reached".into())
    );
    assert_eq!(
        map_browser_error(DriveBrowserError::InvalidInput("file ID must not be empty")),
        CommandError::DriveApi("file ID must not be empty".into())
    );
    assert_eq!(map_browser_error(DriveBrowserError::AccountNotFound), CommandError::AccountNotFound("account not found".into()));
}
