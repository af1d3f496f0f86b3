//! Records the account and job commands exchange with the interface. They carry identity,
//! status and counts, never tokens or credentials.

use vstd::prelude::*;
use crate::domain::{AuthStatus, ConnectedAccount};
use crate::item::MigrationItem;
use crate::preflight::PreflightSummary;
use crate::text::{decimal, decimal_u128};

verus! {

/// An account as the interface sees it.
#[derive(Clone, Debug, PartialEq, Eq)]
pub struct AccountDto {
    pub id: String,
    pub google_permission_id: String,
    pub email: String,
    pub display_name: String,
    pub label: Option<String>,
    pub auth_status: AuthStatus,
    pub connected_at: String,
    pub last_authenticated_at: String,
    pub updated_at: String,
    pub removed_at: Option<String>,
}

impl AccountDto {
    /// `dto` describes `account` field by field, its identifier in decimal.
    pub open spec fn describes(dto: AccountDto, account: ConnectedAccount) -> bool {
        &&& dto.id@ == decimal(account.id.0 as nat)
        &&& dto.google_permission_id@ == account.google_permission_id.value@
        &&& dto.email == account.profile.email
        &&& dto.display_name == account.profile.display_name
        &&& match account.label {
            Some(l) => dto.label == Some(l.value),
            None => dto.label is None,
        }
        &&& dto.auth_status == account.auth_status
        &&& dto.connected_at == account.connected_at
        &&& dto.last_authenticated_at == account.last_authenticated_at
        &&& dto.updated_at == account.updated_at
        &&& dto.removed_at == account.removed_at
    }

    /// Describes an account.
    pub fn from_account(account: &ConnectedAccount) -> (r: AccountDto)
        ensures Self::describes(r, *account),
    {
        AccountDto {
            id: decimal_u128(account.id.0),
            google_permission_id: String::from_str(account.google_permission_id.as_str()),
            email: account.profile.email.clone(),
            display_name: account.profile.display_name.clone(),
            label: match &account.label { Some(l) => Some(l.value.clone()), None => None },
            auth_status: account.auth_status,
            connected_at: account.connected_at.clone(),
            last_authenticated_at: account.last_authenticated_at.clone(),
            updated_at: account.updated_at.clone(),
            removed_at: match &account.removed_at { Some(t) => Some(t.clone()), None => None },
        }
    }
}

impl<'a> From<&'a ConnectedAccount> for AccountDto {
    fn from(account: &'a ConnectedAccount) -> (r: AccountDto)
        ensures AccountDto::describes(r, *account),
    {
        AccountDto::from_account(account)
    }
}

impl<'a> vstd::std_specs::convert::FromSpecImpl<&'a ConnectedAccount> for AccountDto {
    open spec fn obeys_from_spec() -> bool {
        false
    }

    open spec fn from_spec(v: &'a ConnectedAccount) -> AccountDto {
        arbitrary()
    }
}

impl From<ConnectedAccount> for AccountDto {
    fn from(account: ConnectedAccount) -> (r: AccountDto)
        ensures AccountDto::describes(r, account),
    {
        AccountDto::from_account(&account)
    }
}

impl vstd::std_specs::convert::FromSpecImpl<ConnectedAccount> for AccountDto {
    open spec fn obeys_from_spec() -> bool {
        false
    }

    open spec fn from_spec(v: ConnectedAccount) -> AccountDto {
        arbitrary()
    }
}

#[derive(Clone, Debug, PartialEq, Eq)]
pub struct UpdateAccountLabelInput {
    pub account_id: String,
    pub label: Option<String>,
}

#[derive(Clone, Debug, PartialEq, Eq)]
pub struct AccountIdInput {
    pub account_id: String,
}

#[derive(Clone, Debug, PartialEq, Eq)]
pub struct DeleteAccountDataInput {
    pub account_id: String,
    pub confirmation: bool,
}

/// New OAuth client settings; the secret is never shown.
#[derive(Clone, PartialEq, Eq)]
pub struct ConfigureOAuthInput {
    pub client_id: String,
    pub client_secret: Option<String>,
}

/// Whether OAuth is configured, with the client identifier only.
#[derive(Clone, Debug, PartialEq, Eq)]
pub struct OAuthConfigDto {
    pub is_configured: bool,
    pub client_id: Option<String>,
}

#[derive(Clone, Debug, PartialEq, Eq)]
pub struct AccountSnapshotDto {
    pub account_id: String,
    pub email: String,
    pub display_name: String,
    pub permission_id: String,
}

#[derive(Clone, Debug, PartialEq, Eq)]
pub struct RootDto {
    pub id: String,
    pub job_id: String,
    pub root_file_id: String,
    pub root_name: String,
    pub validation_status: String,
    pub created_at: String,
}

#[derive(Clone, Debug, PartialEq, Eq)]
pub struct JobDto {
    pub id: String,
    pub source_account_id: String,
    pub target_account_id: String,
    pub source_snapshot: AccountSnapshotDto,
    pub target_snapshot: AccountSnapshotDto,
    pub status: String,
    pub queue_position: Option<i64>,
    pub canary_size: usize,
    pub created_at: String,
    pub started_at: Option<String>,
    pub completed_at: Option<String>,
    pub last_error: Option<String>,
    pub roots: Vec<RootDto>,
    pub scan: Option<ScanSummaryDto>,
}

/// The scan counts shown with a job.
#[derive(Clone, Debug, PartialEq, Eq)]
pub struct ScanSummaryDto {
    pub files: u64,
    pub folders: u64,
    pub skipped: u64,
    pub ineligible: u64,
    pub quota_warning: bool,
}

impl ScanSummaryDto {
    /// The scan counts of a preflight summary; skipped and ineligible both count every
    /// skipped item.
    pub fn from_summary(summary: &PreflightSummary) -> (r: ScanSummaryDto)
        requires summary.skipped_sum() <= u64::MAX,
        ensures
            r.files == summary.eligible_files,
            r.folders == summary.eligible_folders,
            r.skipped == summary.skipped_sum(),
            r.ineligible == summary.skipped_sum(),
            r.quota_warning == summary.quota_warning,
    {
        let skipped = summary.skipped_total();
        ScanSummaryDto {
            files: summary.eligible_files,
            folders: summary.eligible_folders,
            skipped,
            ineligible: skipped,
            quota_warning: summary.quota_warning,
        }
    }
}

/// An item of a job as the interface sees it.
#[derive(Clone, Debug, PartialEq, Eq)]
pub struct JobItemDto {
    pub id: String,
    pub job_id: String,
    pub file_id: String,
    pub name: String,
    pub mime_type: String,
    pub depth: i64,
    pub original_parent_ids: Vec<String>,
    pub state: String,
    pub quota_bytes_used: Option<i64>,
}

impl JobItemDto {
    /// Describes an item; identifiers in decimal, the state by its stored name.
    pub fn from_item(item: &MigrationItem) -> (r: JobItemDto)
        ensures
            r.id@ == decimal(item.id.0 as nat),
            r.job_id@ == decimal(item.job_id.0 as nat),
            r.file_id == item.file_id,
            r.name == item.name,
            r.mime_type == item.mime_type,
            r.depth == item.depth,
            r.original_parent_ids@ == item.original_parent_ids@,
            r.state@ == item.state.name(),
            r.quota_bytes_used == item.quota_bytes_used,
    {
        let mut parents: Vec<String> = Vec::new();
        let mut i: usize = 0;
        while i < item.original_parent_ids.len()
            invariant
                i <= item.original_parent_ids@.len(),
                parents@ == item.original_parent_ids@.take(i as int),
            decreases item.original_parent_ids@.len() - i,
        {
            parents.push(item.original_parent_ids[i].clone());
            assert(parents@ =~= item.original_parent_ids@.take(i + 1));
            i += 1;
        }
        assert(item.original_parent_ids@.take(item.original_parent_ids@.len() as int) =~= item.original_parent_ids@);
        JobItemDto {
            id: decimal_u128(item.id.0),
            job_id: decimal_u128(item.job_id.0),
            file_id: item.file_id.clone(),
            name: item.name.clone(),
            mime_type: item.mime_type.clone(),
            depth: item.depth,
            original_parent_ids: parents,
            state: String::from_str(item.state.as_str()),
            quota_bytes_used: item.quota_bytes_used,
        }
    }
}

#[derive(Clone, Debug, PartialEq, Eq)]
pub struct JobItemsPageDto {
    pub items: Vec<JobItemDto>,
    pub page: u32,
    pub page_size: u32,
    pub total: u64,
}

#[derive(Clone, Debug, PartialEq, Eq)]
pub struct DryRunExportDto {
    pub path: String,
    pub eligible_items: u64,
    pub quota_warning: bool,
}

#[derive(Clone, Debug, PartialEq, Eq)]
pub struct ValidateRootResultDto {
    pub folder_id: String,
    pub name: String,
}

#[derive(Clone, Debug, PartialEq, Eq)]
pub struct CreateJobInput {
    pub source_account_id: String,
    pub target_account_id: String,
}

#[derive(Clone, Debug, PartialEq, Eq)]
pub struct UpdateDraftJobAccountsInput {
    pub job_id: String,
    pub source_account_id: String,
    pub target_account_id: String,
}

#[derive(Clone, Debug, PartialEq, Eq)]
pub struct RootFolderInput {
    pub job_id: String,
    pub input: String,
}

#[derive(Clone, Debug, PartialEq, Eq)]
pub struct RemoveRootInput {
    pub job_id: String,
    pub root_id: String,
}

#[derive(Clone, Debug, PartialEq, Eq)]
pub struct JobIdInput {
    pub job_id: String,
}

/// A request to move a queued job to a place in the queue, counted from 1.
#[derive(Clone, Debug, PartialEq, Eq)]
pub struct ReorderQueuedJobInput {
    pub job_id: String,
    pub position: i64,
}

#[derive(Clone, Debug, PartialEq, Eq)]
pub struct ListJobsFilter {
    pub status: Option<String>,
}

#[derive(Clone, Debug, PartialEq, Eq)]
pub struct ListJobItemsInput {
    pub job_id: String,
    pub filter: Option<String>,
    pub page: Option<u32>,
}

#[derive(Clone, Debug, PartialEq, Eq)]
pub struct ExportDryRunInput {
    pub job_id: String,
    pub destination: String,
}

#[derive(Clone, Debug, PartialEq, Eq)]
pub struct StartCanaryInput {
    pub job_id: String,
    pub confirmation: String,
}

} // verus!
