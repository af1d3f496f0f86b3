//! What the library reads of Google Drive: files, folders, owners, permissions and quota,
//! and the errors a Drive request can end in.

use vstd::prelude::*;
use crate::domain::GooglePermissionId;
use crate::text::{decimal, decimal_u128};

verus! {

/// MIME type of a Drive folder.
pub const FOLDER_MIME_TYPE: &'static str = "application/vnd.google-apps.folder";

/// MIME type of a Drive shortcut.
pub const SHORTCUT_MIME_TYPE: &'static str = "application/vnd.google-apps.shortcut";

/// Items asked for per folder listing page.
pub const LIST_PAGE_SIZE: u32 = 1000;

/// Folder listings run at the same time during a scan.
pub const DEFAULT_SCAN_CONCURRENCY: usize = 4;

/// Items written per scan batch.
pub const SCAN_CHECKPOINT_BATCH_SIZE: usize = 100;

/// One owner of a Drive file or folder.
#[derive(Clone, Debug, PartialEq, Eq)]
pub struct DriveFolderOwner {
    pub permission_id: GooglePermissionId,
    pub email_address: Option<String>,
}

/// A folder as Drive describes it.
#[derive(Clone, Debug, PartialEq, Eq)]
pub struct DriveFolderMetadata {
    pub id: String,
    pub name: String,
    pub mime_type: String,
    pub trashed: bool,
    pub drive_id: Option<String>,
    pub owners: Vec<DriveFolderOwner>,
}

/// Errors of a Drive lookup or listing.
#[derive(Clone, Copy, Debug, PartialEq, Eq, Structural)]
pub enum DriveFolderLookupError {
    NotFound,
    Unauthorized,
    Forbidden,
    RateLimited,
    Unavailable,
    Transport,
    InvalidResponse,
    UnexpectedStatus(u16),
}

impl DriveFolderLookupError {
    pub open spec fn message(self) -> Seq<char> {
        match self {
            DriveFolderLookupError::NotFound => "folder not found on Google Drive"@,
            DriveFolderLookupError::Unauthorized => "Google Drive rejected the access token"@,
            DriveFolderLookupError::Forbidden => "Google Drive denied this request"@,
            DriveFolderLookupError::RateLimited => "Google Drive rate limit reached"@,
            DriveFolderLookupError::Unavailable => "Google Drive is unavailable"@,
            DriveFolderLookupError::Transport => "Google Drive request failed"@,
            DriveFolderLookupError::InvalidResponse => "Google Drive returned an invalid response"@,
            DriveFolderLookupError::UnexpectedStatus(status) =>
                "Google Drive returned unexpected status "@ + decimal(status as nat),
        }
    }

    /// The message shown for this error.
    pub fn to_string(&self) -> (r: String)
        ensures r@ == self.message(),
    {
        match self {
            DriveFolderLookupError::NotFound => String::from_str("folder not found on Google Drive"),
            DriveFolderLookupError::Unauthorized => String::from_str("Google Drive rejected the access token"),
            DriveFolderLookupError::Forbidden => String::from_str("Google Drive denied this request"),
            DriveFolderLookupError::RateLimited => String::from_str("Google Drive rate limit reached"),
            DriveFolderLookupError::Unavailable => String::from_str("Google Drive is unavailable"),
            DriveFolderLookupError::Transport => String::from_str("Google Drive request failed"),
            DriveFolderLookupError::InvalidResponse => String::from_str("Google Drive returned an invalid response"),
            DriveFolderLookupError::UnexpectedStatus(status) => {
                let digits = decimal_u128(*status as u128);
                String::from_str("Google Drive returned unexpected status ").concat(digits.as_str())
            },
        }
    }
}

/// Listing errors are lookup errors.
pub type DriveTreeError = DriveFolderLookupError;

/// One permission on a Drive file.
#[derive(Clone, Debug, PartialEq, Eq)]
pub struct DrivePermission {
    pub id: String,
    pub role: String,
    pub type_: String,
    pub email_address: Option<String>,
    pub pending_owner: bool,
}

/// A Drive file as the transfer reads it.
#[derive(Clone, Debug, PartialEq, Eq)]
pub struct DriveFileSnapshot {
    pub id: String,
    pub name: String,
    pub mime_type: String,
    pub parents: Vec<String>,
    pub owners: Vec<DriveFolderOwner>,
    pub trashed: bool,
    pub drive_id: Option<String>,
    pub permissions: Vec<DrivePermission>,
}

/// Errors of an ownership transfer request.
#[derive(Clone, Copy, Debug, PartialEq, Eq, Structural)]
pub enum DriveTransferError {
    Unauthorized,
    Forbidden,
    NotFound,
    RateLimited,
    SharingRateLimitExceeded,
    StorageQuotaExceeded,
    ServerUnavailable,
    Transport,
    InvalidResponse,
    UnexpectedStatus(u16),
}

impl DriveTransferError {
    pub open spec fn transient(self) -> bool {
        matches!(
            self,
            DriveTransferError::RateLimited | DriveTransferError::ServerUnavailable
                | DriveTransferError::Transport
        )
    }

    /// Errors that go away by themselves when the request is repeated later.
    pub fn is_transient(self) -> (r: bool)
        ensures r == self.transient(),
    {
        match self {
            DriveTransferError::RateLimited | DriveTransferError::ServerUnavailable
            | DriveTransferError::Transport => true,
            _ => false,
        }
    }

    pub open spec fn message(self) -> Seq<char> {
        match self {
            DriveTransferError::Unauthorized => "Google Drive rejected the access token"@,
            DriveTransferError::Forbidden => "Google Drive denied this request"@,
            DriveTransferError::NotFound => "Google Drive file not found"@,
            DriveTransferError::RateLimited => "Google Drive rate limit reached"@,
            DriveTransferError::SharingRateLimitExceeded => "Google Drive sharing rate limit exceeded"@,
            DriveTransferError::StorageQuotaExceeded => "Google Drive storage quota exceeded"@,
            DriveTransferError::ServerUnavailable => "Google Drive is unavailable"@,
            DriveTransferError::Transport => "Google Drive request failed"@,
            DriveTransferError::InvalidResponse => "Google Drive returned an invalid response"@,
            DriveTransferError::UnexpectedStatus(status) =>
                "Google Drive returned unexpected status "@ + decimal(status as nat),
        }
    }

    /// The message shown for this error.
    pub fn to_string(&self) -> (r: String)
        ensures r@ == self.message(),
    {
        match self {
            DriveTransferError::Unauthorized => String::from_str("Google Drive rejected the access token"),
            DriveTransferError::Forbidden => String::from_str("Google Drive denied this request"),
            DriveTransferError::NotFound => String::from_str("Google Drive file not found"),
            DriveTransferError::RateLimited => String::from_str("Google Drive rate limit reached"),
            DriveTransferError::SharingRateLimitExceeded => String::from_str("Google Drive sharing rate limit exceeded"),
            DriveTransferError::StorageQuotaExceeded => String::from_str("Google Drive storage quota exceeded"),
            DriveTransferError::ServerUnavailable => String::from_str("Google Drive is unavailable"),
            DriveTransferError::Transport => String::from_str("Google Drive request failed"),
            DriveTransferError::InvalidResponse => String::from_str("Google Drive returned an invalid response"),
            DriveTransferError::UnexpectedStatus(status) => {
                let digits = decimal_u128(*status as u128);
                String::from_str("Google Drive returned unexpected status ").concat(digits.as_str())
            },
        }
    }
}

/// A child of a Drive folder.
#[derive(Clone, Debug, PartialEq, Eq)]
pub struct DriveChild {
    pub id: String,
    pub name: String,
    pub mime_type: String,
    pub parents: Vec<String>,
    pub owners: Vec<DriveFolderOwner>,
    pub drive_id: Option<String>,
    pub quota_bytes_used: Option<i64>,
    pub trashed: bool,
    pub shortcut_target_id: Option<String>,
    pub modified_time: Option<String>,
    pub web_view_link: Option<String>,
}

/// One page of a folder listing.
#[derive(Clone, Debug, PartialEq, Eq)]
pub struct DriveChildPage {
    pub files: Vec<DriveChild>,
    pub next_page_token: Option<String>,
}

/// Storage use and limit of an account.
#[derive(Clone, Debug, PartialEq, Eq)]
pub struct StorageQuota {
    pub limit_bytes: Option<u64>,
    pub usage_bytes: u64,
}

/// `true` when some owner has the permission identifier `id`.
pub open spec fn owned_by(owners: Seq<DriveFolderOwner>, id: Seq<char>) -> bool {
    exists|i: int| 0 <= i < owners.len() && (#[trigger] owners[i]).permission_id.value@ == id
}

/// Whether one of `owners` is the account with permission identifier `permission_id`.
pub fn is_owner(owners: &Vec<DriveFolderOwner>, permission_id: &GooglePermissionId) -> (r: bool)
    ensures r == owned_by(owners@, permission_id.value@),
{
    let mut i: usize = 0;
    while i < owners.len()
        invariant
            i <= owners.len(),
            forall|k: int| 0 <= k < i ==> (#[trigger] owners@[k]).permission_id.value@ != permission_id.value@,
        decreases owners.len() - i,
    {
        if owners[i].permission_id.value == permission_id.value {
            assert(owners@[i as int].permission_id.value@ == permission_id.value@);
            return true;
        }
        i += 1;
    }
    false
}

} // verus!
