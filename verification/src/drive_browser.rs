//! Browsing an account's Drive: the requests, the page shown, and the checks made before
//! anything is asked of Drive.

use vstd::prelude::*;
use crate::account_token_provider::TokenProviderError;
use crate::connect_account::AccountStorePortError;
use crate::domain::{AuthStatus, GooglePermissionId};
use crate::drive::{is_owner, owned_by, DriveChild, DriveChildPage, DriveFolderLookupError};
use crate::text::{chars_of, trim, trim_chars};

verus! {

/// Which folder page to list, and how.
#[derive(Clone, Debug, PartialEq, Eq, Default)]
pub struct BrowseFolderRequest {
    pub folder_id: Option<String>,
    pub folder_resource_key: Option<String>,
    pub page_token: Option<String>,
    pub page_size: Option<u32>,
    pub order_by: Option<String>,
}

/// A new name for a file.
#[derive(Clone, Debug, PartialEq, Eq)]
pub struct RenameFileRequest {
    pub file_id: String,
    pub new_name: String,
}

/// A listed file, with whether the browsing account owns it.
#[derive(Clone, Debug, PartialEq, Eq)]
pub struct BrowserItem {
    pub file: DriveChild,
    pub is_owner: bool,
}

/// One page of a folder as the browser shows it.
#[derive(Clone, Debug, PartialEq, Eq)]
pub struct BrowserPage {
    pub items: Vec<BrowserItem>,
    pub next_page_token: Option<String>,
}

/// Errors of browsing.
#[derive(Clone, Debug, PartialEq, Eq)]
pub enum DriveBrowserError {
    AccountNotFound,
    Database(AccountStorePortError),
    Authorization(TokenProviderError),
    Drive(DriveFolderLookupError),
    InvalidInput(&'static str),
}

/// Which accounts may browse: an active account that is connected or refreshing its token.
pub open spec fn access_check(active: bool, status: AuthStatus) -> Result<(), DriveBrowserError> {
    if !active {
        Err(DriveBrowserError::Authorization(TokenProviderError::AccountRemoved))
    } else {
        match status {
            AuthStatus::Connected | AuthStatus::TokenRefreshing => Ok(()),
            AuthStatus::RemovalPending => Err(DriveBrowserError::Authorization(TokenProviderError::AccountRemoved)),
            AuthStatus::Disconnected => Err(DriveBrowserError::Authorization(TokenProviderError::AccountDisconnected)),
            AuthStatus::ReauthRequired => Err(DriveBrowserError::Authorization(TokenProviderError::ReauthRequired)),
        }
    }
}

/// Checks, from the stored record and before any cached token, whether an account may browse.
pub fn check_account_access(active: bool, status: AuthStatus) -> (r: Result<(), DriveBrowserError>)
    ensures r == access_check(active, status),
{
    if !active {
        return Err(DriveBrowserError::Authorization(TokenProviderError::AccountRemoved));
    }
    match status {
        AuthStatus::Connected | AuthStatus::TokenRefreshing => Ok(()),
        AuthStatus::RemovalPending => Err(DriveBrowserError::Authorization(TokenProviderError::AccountRemoved)),
        AuthStatus::Disconnected => Err(DriveBrowserError::Authorization(TokenProviderError::AccountDisconnected)),
        AuthStatus::ReauthRequired => Err(DriveBrowserError::Authorization(TokenProviderError::ReauthRequired)),
    }
}

/// The browser page of a listed page: every file, in order, marked with whether the
/// account with permission identifier `account` owns it.
pub fn browser_page(page: DriveChildPage, account: &GooglePermissionId) -> (r: BrowserPage)
    ensures
        r.next_page_token == page.next_page_token,
        r.items@.len() == page.files@.len(),
        forall|i: int| 0 <= i < r.items@.len() ==> (#[trigger] r.items@[i]).file == page.files@[i]
            && r.items@[i].is_owner == owned_by(page.files@[i].owners@, account.value@),
{
    let DriveChildPage { files, next_page_token } = page;
    let ghost all = files@;
    let mut files = files;
    let mut items: Vec<BrowserItem> = Vec::new();
    let mut i: usize = 0;
    let total: usize = files.len();
    assert(all.skip(0) =~= all);
    while files.len() > 0
        invariant
            total == all.len(),
            i <= all.len(),
            files@ == all.skip(i as int),
            items@.len() == i,
            forall|k: int| 0 <= k < i ==> (#[trigger] items@[k]).file == all[k]
                && items@[k].is_owner == owned_by(all[k].owners@, account.value@),
        decreases files.len(),
    {
        let file = files.remove(0);
        assert(file == all[i as int]);
        assert(files@ =~= all.skip(i + 1));
        let owner = is_owner(&file.owners, account);
        items.push(BrowserItem { file, is_owner: owner });
        i += 1;
    }
    BrowserPage { items, next_page_token }
}

/// A rename needs a file and a name that are not blank.
pub fn check_rename(request: &RenameFileRequest) -> (r: Result<(), DriveBrowserError>)
    ensures
        r is Ok <==> trim(request.file_id@).len() > 0 && trim(request.new_name@).len() > 0,
        r is Err ==> r == Err::<(), DriveBrowserError>(DriveBrowserError::InvalidInput("file ID and name must not be empty")),
{
    let id = trim_chars(&chars_of(request.file_id.as_str()));
    let name = trim_chars(&chars_of(request.new_name.as_str()));
    if id.len() == 0 || name.len() == 0 {
        return Err(DriveBrowserError::InvalidInput("file ID and name must not be empty"));
    }
    Ok(())
}

/// Trashing needs a file that is not blank.
pub fn check_trash(file_id: &str) -> (r: Result<(), DriveBrowserError>)
    ensures
        r is Ok <==> trim(file_id@).len() > 0,
        r is Err ==> r == Err::<(), DriveBrowserError>(DriveBrowserError::InvalidInput("file ID must not be empty")),
{
    let id = trim_chars(&chars_of(file_id));
    if id.len() == 0 {
        return Err(DriveBrowserError::InvalidInput("file ID must not be empty"));
    }
    Ok(())
}

} // verus!
