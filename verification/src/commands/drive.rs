//! Drive commands: how browsing errors are shown and how a browsed file is described.

use vstd::prelude::*;
use crate::commands::drive_dto::{DriveFileItemDto, DriveFileOwnerDto};
use crate::commands::error::CommandError;
use crate::drive::{DriveFolderOwner, FOLDER_MIME_TYPE};
use crate::drive_browser::{BrowserItem, DriveBrowserError};
use crate::text::str_eq;

verus! {

/// How a browsing error is shown.
pub open spec fn shown_browser_error(err: DriveBrowserError, r: CommandError) -> bool {
    match err {
        DriveBrowserError::AccountNotFound => r matches CommandError::AccountNotFound(m) && m@ == "account not found"@,
        DriveBrowserError::Database(e) => r matches CommandError::Database(m) && m@ == e.message(),
        DriveBrowserError::Authorization(e) => r matches CommandError::OAuth(m) && m@ == e.message(),
        DriveBrowserError::Drive(e) => r matches CommandError::DriveApi(m) && m@ == e.message(),
        DriveBrowserError::InvalidInput(message) => r matches CommandError::DriveApi(m) && m@ == message@,
    }
}

/// Shows a browsing error as a command error.
pub fn map_browser_error(err: DriveBrowserError) -> (r: CommandError)
    ensures shown_browser_error(err, r),
{
    match err {
        DriveBrowserError::AccountNotFound => CommandError::AccountNotFound(String::from_str("account not found")),
        DriveBrowserError::Database(e) => CommandError::Database(e.to_string()),
        DriveBrowserError::Authorization(e) => CommandError::OAuth(e.to_string()),
        DriveBrowserError::Drive(e) => CommandError::DriveApi(e.to_string()),
        DriveBrowserError::InvalidInput(message) => CommandError::DriveApi(String::from_str(message)),
    }
}

/// The owner entry of a described file.
pub open spec fn owner_described(owner: DriveFolderOwner, dto: DriveFileOwnerDto) -> bool {
    dto.permission_id@ == owner.permission_id.value@ && dto.email_address == owner.email_address && dto.avatar_url is None
}

/// Describes a browsed file for the interface: a file the account owns can have its
/// ownership transferred.
pub fn file_item_dto(item: BrowserItem) -> (r: DriveFileItemDto)
    ensures
        r.id == item.file.id,
        r.name == item.file.name,
        r.mime_type == item.file.mime_type,
        r.is_folder == (item.file.mime_type@ == FOLDER_MIME_TYPE@),
        r.folder_id is None && r.folder_resource_key is None && r.resource_key is None,
        r.size == item.file.quota_bytes_used,
        r.modified_time == item.file.modified_time,
        r.owners@.len() == item.file.owners@.len(),
        forall|i: int| 0 <= i < r.owners@.len() ==> owner_described(item.file.owners@[i], #[trigger] r.owners@[i]),
        r.web_view_link == item.file.web_view_link,
        r.can_transfer_ownership == item.is_owner,
        r.is_owner == item.is_owner,
        r.shortcut_target_id == item.file.shortcut_target_id,
{
    let BrowserItem { file, is_owner } = item;
    let is_folder = str_eq(file.mime_type.as_str(), FOLDER_MIME_TYPE);
    let mut owners: Vec<DriveFileOwnerDto> = Vec::new();
    let mut i: usize = 0;
    while i < file.owners.len()
        invariant
            i <= file.owners@.len(),
            owners@.len() == i,
            forall|k: int| 0 <= k < i ==> owner_described(file.owners@[k], #[trigger] owners@[k]),
        decreases file.owners@.len() - i,
    {
        let owner = &file.owners[i];
        owners.push(DriveFileOwnerDto {
            permission_id: String::from_str(owner.permission_id.as_str()),
            email_address: match &owner.email_address { Some(e) => Some(e.clone()), None => None },
            avatar_url: None,
        });
        i += 1;
    }
    DriveFileItemDto {
        id: file.id,
        name: file.name,
        mime_type: file.mime_type,
        is_folder,
        folder_id: None,
        folder_resource_key: None,
        resource_key: None,
        size: file.quota_bytes_used,
        modified_time: file.modified_time,
        owners,
        web_view_link: file.web_view_link,
        can_transfer_ownership: is_owner,
        is_owner,
        shortcut_target_id: file.shortcut_target_id,
    }
}

} // verus!
