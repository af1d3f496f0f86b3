//! What a scan does with each Drive child it lists.

use vstd::prelude::*;
use crate::domain::GooglePermissionId;
use crate::drive::{is_owner, owned_by, DriveChild, FOLDER_MIME_TYPE, SHORTCUT_MIME_TYPE};
use crate::item::ItemState;
use crate::text::str_eq;

verus! {

/// The outcome of classifying one listed child.
#[derive(Clone, Copy, Debug, PartialEq, Eq, Structural)]
pub enum ScanDisposition {
    EligibleFolder,
    EligibleFile,
    Shortcut,
    AlreadyOwnedByTarget,
    NotOwnedBySource,
    SharedDrive,
    Trashed,
}

impl ScanDisposition {
    pub open spec fn state(self) -> ItemState {
        match self {
            ScanDisposition::EligibleFolder | ScanDisposition::EligibleFile => ItemState::Eligible,
            ScanDisposition::Shortcut => ItemState::SkippedIneligible,
            ScanDisposition::AlreadyOwnedByTarget => ItemState::SkippedAlreadyOwnedByTarget,
            ScanDisposition::NotOwnedBySource => ItemState::SkippedNotOwnedBySource,
            ScanDisposition::SharedDrive => ItemState::SkippedSharedDrive,
            ScanDisposition::Trashed => ItemState::SkippedTrashed,
        }
    }

    /// The state a discovered item starts in.
    pub fn item_state(self) -> (r: ItemState)
        ensures r == self.state(),
    {
        match self {
            ScanDisposition::EligibleFolder | ScanDisposition::EligibleFile => ItemState::Eligible,
            ScanDisposition::Shortcut => ItemState::SkippedIneligible,
            ScanDisposition::AlreadyOwnedByTarget => ItemState::SkippedAlreadyOwnedByTarget,
            ScanDisposition::NotOwnedBySource => ItemState::SkippedNotOwnedBySource,
            ScanDisposition::SharedDrive => ItemState::SkippedSharedDrive,
            ScanDisposition::Trashed => ItemState::SkippedTrashed,
        }
    }

    /// Only eligible folders are listed in turn.
    pub fn should_recurse(self) -> (r: bool)
        ensures r == (self == ScanDisposition::EligibleFolder),
    {
        match self {
            ScanDisposition::EligibleFolder => true,
            _ => false,
        }
    }
}

/// The classification rules, in the order they apply.
pub open spec fn classification(child: DriveChild, source: Seq<char>, target: Seq<char>) -> ScanDisposition {
    if child.trashed {
        ScanDisposition::Trashed
    } else if child.drive_id matches Some(id) && id@.len() > 0 {
        ScanDisposition::SharedDrive
    } else if owned_by(child.owners@, target) {
        ScanDisposition::AlreadyOwnedByTarget
    } else if !owned_by(child.owners@, source) {
        ScanDisposition::NotOwnedBySource
    } else if child.mime_type@ == SHORTCUT_MIME_TYPE@ || child.shortcut_target_id is Some {
        ScanDisposition::Shortcut
    } else if child.mime_type@ == FOLDER_MIME_TYPE@ {
        ScanDisposition::EligibleFolder
    } else {
        ScanDisposition::EligibleFile
    }
}

/// Classifies a child listed under a migration root.
pub fn classify_drive_child(
    child: &DriveChild,
    source_permission_id: &GooglePermissionId,
    target_permission_id: &GooglePermissionId,
) -> (r: ScanDisposition)
    ensures r == classification(*child, source_permission_id.value@, target_permission_id.value@),
{
    if child.trashed {
        return ScanDisposition::Trashed;
    }
    match &child.drive_id {
        Some(id) => {
            if id.as_str().is_empty() == false {
                return ScanDisposition::SharedDrive;
            }
        },
        None => {},
    }
    if is_owner(&child.owners, target_permission_id) {
        return ScanDisposition::AlreadyOwnedByTarget;
    }
    if !is_owner(&child.owners, source_permission_id) {
        return ScanDisposition::NotOwnedBySource;
    }
    if str_eq(child.mime_type.as_str(), SHORTCUT_MIME_TYPE) || child.shortcut_target_id.is_some() {
        return ScanDisposition::Shortcut;
    }
    if str_eq(child.mime_type.as_str(), FOLDER_MIME_TYPE) {
        ScanDisposition::EligibleFolder
    } else {
        ScanDisposition::EligibleFile
    }
}

/// A trashed child is skipped as trashed whatever else holds of it.
pub proof fn lemma_trashed_first(child: DriveChild, source: Seq<char>, target: Seq<char>)
    requires child.trashed,
    ensures classification(child, source, target) == ScanDisposition::Trashed,
{
}

/// Only a child that the source owns, that the target does not own, that is not trashed and
/// that lies outside shared drives can become eligible; only folders are listed further.
pub proof fn lemma_eligible_needs_source_ownership(child: DriveChild, source: Seq<char>, target: Seq<char>)
    requires classification(child, source, target).state() == ItemState::Eligible,
    ensures
        !child.trashed,
        owned_by(child.owners@, source),
        !owned_by(child.owners@, target),
        !(child.drive_id matches Some(id) && id@.len() > 0),
        child.shortcut_target_id is None,
{
}

/// A child that is not trashed, lies outside shared drives, is owned by the source and not
/// by the target, and is no shortcut is eligible: listed further when it is a folder,
/// migrated as a file otherwise. A child the target already owns is skipped as such.
pub proof fn lemma_owned_children_are_eligible(child: DriveChild, source: Seq<char>, target: Seq<char>)
    requires
        !child.trashed,
        !(child.drive_id matches Some(id) && id@.len() > 0),
    ensures
        (exists|k: int| 0 <= k < child.owners@.len() && (#[trigger] child.owners@[k]).permission_id.value@ == target)
            ==> classification(child, source, target) == ScanDisposition::AlreadyOwnedByTarget,
        ((forall|k: int| 0 <= k < child.owners@.len() ==> (#[trigger] child.owners@[k]).permission_id.value@ != target)
            && (exists|k: int| 0 <= k < child.owners@.len() && (#[trigger] child.owners@[k]).permission_id.value@ == source)
            && child.mime_type@ != SHORTCUT_MIME_TYPE@
            && child.shortcut_target_id is None)
            ==> classification(child, source, target) == if child.mime_type@ == FOLDER_MIME_TYPE@ {
                ScanDisposition::EligibleFolder
            } else {
                ScanDisposition::EligibleFile
            },
{
}

} // verus!
