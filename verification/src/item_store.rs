//! What the item store keeps of a scan and what it reports back.

use vstd::prelude::*;
use crate::item::{MigrationItem, ScanCheckpoint};
use crate::text::decimal;

verus! {

/// Errors of the item store.
#[derive(Clone, Debug, PartialEq, Eq)]
pub enum ItemStoreError {
    BatchTooLarge { size: usize, max: usize },
    InvalidState,
    Database(String),
}

impl ItemStoreError {
    pub open spec fn message(&self) -> Seq<char> {
        match self {
            ItemStoreError::BatchTooLarge { size, max } =>
                "scan batch of "@ + decimal(*size as nat) + " items exceeds limit "@ + decimal(*max as nat),
            ItemStoreError::InvalidState => "invalid item state in database"@,
            ItemStoreError::Database(msg) => "database error: "@ + msg@,
        }
    }

    /// The message shown for this error.
    pub fn to_string(&self) -> (r: String)
        ensures r@ == self.message(),
    {
        match self {
            ItemStoreError::BatchTooLarge { size, max } => {
                let s = String::from_str("scan batch of ").concat(crate::text::decimal_u128(*size as u128).as_str());
                let s = s.concat(" items exceeds limit ");
                s.concat(crate::text::decimal_u128(*max as u128).as_str())
            },
            ItemStoreError::InvalidState => String::from_str("invalid item state in database"),
            ItemStoreError::Database(msg) => String::from_str("database error: ").concat(msg.as_str()),
        }
    }
}

/// One atomic write of a scan: new items, folders still to list, folders finished.
#[derive(Clone, Debug, PartialEq, Eq)]
pub struct ItemBatchCommit {
    pub items: Vec<MigrationItem>,
    pub checkpoints_upsert: Vec<ScanCheckpoint>,
    pub checkpoints_delete: Vec<String>,
}

/// One page of a job's items.
#[derive(Clone, Debug, PartialEq, Eq)]
pub struct ItemPage {
    pub items: Vec<MigrationItem>,
    pub page: u32,
    pub page_size: u32,
    pub total: u64,
}

/// Counts over a job's items.
#[derive(Clone, Copy, Debug, PartialEq, Eq, Structural)]
pub struct ItemAggregates {
    pub total: u64,
    pub eligible: u64,
    pub eligible_files: u64,
    pub eligible_folders: u64,
    pub skipped_already_owned_by_target: u64,
    pub skipped_not_owned_by_source: u64,
    pub skipped_shared_drive: u64,
    pub skipped_shortcuts: u64,
    pub skipped_trashed: u64,
    pub skipped_ineligible: u64,
    pub estimated_quota_bytes: u64,
    pub completed: u64,
    pub failed: u64,
}

impl Default for ItemAggregates {
    fn default() -> (r: Self)
        ensures r == (ItemAggregates {
            total: 0, eligible: 0, eligible_files: 0, eligible_folders: 0,
            skipped_already_owned_by_target: 0, skipped_not_owned_by_source: 0,
            skipped_shared_drive: 0, skipped_shortcuts: 0, skipped_trashed: 0,
            skipped_ineligible: 0, estimated_quota_bytes: 0, completed: 0, failed: 0,
        }),
    {
        ItemAggregates {
            total: 0, eligible: 0, eligible_files: 0, eligible_folders: 0,
            skipped_already_owned_by_target: 0, skipped_not_owned_by_source: 0,
            skipped_shared_drive: 0, skipped_shortcuts: 0, skipped_trashed: 0,
            skipped_ineligible: 0, estimated_quota_bytes: 0, completed: 0, failed: 0,
        }
    }
}

} // verus!
