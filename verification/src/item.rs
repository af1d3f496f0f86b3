//! Migration items and the lifecycle every item follows.

use vstd::prelude::*;
use crate::domain::{GooglePermissionId, JobId};
use crate::text::str_eq;

verus! {

/// Identifier of one migration item.
#[derive(Clone, Copy, Debug, PartialEq, Eq, Structural, Hash, PartialOrd, Ord)]
pub struct ItemId(pub u128);

impl ItemId {
    pub fn new(value: u128) -> (r: Self)
        ensures r.0 == value,
    {
        ItemId(value)
    }

    pub fn value(self) -> (r: u128)
        ensures r == self.0,
    {
        self.0
    }
}

/// Where an item stands in its migration.
#[derive(Clone, Copy, Debug, PartialEq, Eq, Structural)]
pub enum ItemState {
    Discovered,
    Eligible,
    PendingOwnerRequired,
    PendingOwnerCreated,
    AcceptRequired,
    Accepting,
    Transferred,
    Verifying,
    Verified,
    SkippedAlreadyOwnedByTarget,
    SkippedNotOwnedBySource,
    SkippedSharedDrive,
    SkippedShortcutTarget,
    SkippedTrashed,
    SkippedIneligible,
    RetryableFailed,
    PermanentFailed,
    Cancelled,
}

/// Errors of the item lifecycle.
#[derive(Clone, Copy, Debug, PartialEq, Eq, Structural)]
pub enum ItemError {
    InvalidItemState,
    IllegalTransition,
}

impl ItemError {
    /// The message shown for this error.
    pub fn to_string(&self) -> (r: String)
        ensures r@ == self.message(),
    {
        match self {
            ItemError::InvalidItemState => String::from_str("Invalid item state string"),
            ItemError::IllegalTransition => String::from_str("Illegal item state transition"),
        }
    }

    pub open spec fn message(self) -> Seq<char> {
        match self {
            ItemError::InvalidItemState => "Invalid item state string"@,
            ItemError::IllegalTransition => "Illegal item state transition"@,
        }
    }
}

impl ItemState {
    /// The stored name of each state.
    pub open spec fn name(self) -> Seq<char> {
        match self {
            ItemState::Discovered => "DISCOVERED"@,
            ItemState::Eligible => "ELIGIBLE"@,
            ItemState::PendingOwnerRequired => "PENDING_OWNER_REQUIRED"@,
            ItemState::PendingOwnerCreated => "PENDING_OWNER_CREATED"@,
            ItemState::AcceptRequired => "ACCEPT_REQUIRED"@,
            ItemState::Accepting => "ACCEPTING"@,
            ItemState::Transferred => "TRANSFERRED"@,
            ItemState::Verifying => "VERIFYING"@,
            ItemState::Verified => "VERIFIED"@,
            ItemState::SkippedAlreadyOwnedByTarget => "SKIPPED_ALREADY_OWNED_BY_TARGET"@,
            ItemState::SkippedNotOwnedBySource => "SKIPPED_NOT_OWNED_BY_SOURCE"@,
            ItemState::SkippedSharedDrive => "SKIPPED_SHARED_DRIVE"@,
            ItemState::SkippedShortcutTarget => "SKIPPED_SHORTCUT_TARGET"@,
            ItemState::SkippedTrashed => "SKIPPED_TRASHED"@,
            ItemState::SkippedIneligible => "SKIPPED_INELIGIBLE"@,
            ItemState::RetryableFailed => "RETRYABLE_FAILED"@,
            ItemState::PermanentFailed => "PERMANENT_FAILED"@,
            ItemState::Cancelled => "CANCELLED"@,
        }
    }

    pub fn as_str(&self) -> (r: &'static str)
        ensures r@ == self.name(),
    {
        match self {
            ItemState::Discovered => "DISCOVERED",
            ItemState::Eligible => "ELIGIBLE",
            ItemState::PendingOwnerRequired => "PENDING_OWNER_REQUIRED",
            ItemState::PendingOwnerCreated => "PENDING_OWNER_CREATED",
            ItemState::AcceptRequired => "ACCEPT_REQUIRED",
            ItemState::Accepting => "ACCEPTING",
            ItemState::Transferred => "TRANSFERRED",
            ItemState::Verifying => "VERIFYING",
            ItemState::Verified => "VERIFIED",
            ItemState::SkippedAlreadyOwnedByTarget => "SKIPPED_ALREADY_OWNED_BY_TARGET",
            ItemState::SkippedNotOwnedBySource => "SKIPPED_NOT_OWNED_BY_SOURCE",
            ItemState::SkippedSharedDrive => "SKIPPED_SHARED_DRIVE",
            ItemState::SkippedShortcutTarget => "SKIPPED_SHORTCUT_TARGET",
            ItemState::SkippedTrashed => "SKIPPED_TRASHED",
            ItemState::SkippedIneligible => "SKIPPED_INELIGIBLE",
            ItemState::RetryableFailed => "RETRYABLE_FAILED",
            ItemState::PermanentFailed => "PERMANENT_FAILED",
            ItemState::Cancelled => "CANCELLED",
        }
    }

    pub open spec fn skipped(self) -> bool {
        matches!(
            self,
            ItemState::SkippedAlreadyOwnedByTarget | ItemState::SkippedNotOwnedBySource
                | ItemState::SkippedSharedDrive | ItemState::SkippedShortcutTarget
                | ItemState::SkippedTrashed | ItemState::SkippedIneligible
        )
    }

    pub open spec fn terminal(self) -> bool {
        self.skipped() || matches!(
            self,
            ItemState::Verified | ItemState::PermanentFailed | ItemState::Cancelled
        )
    }

    pub open spec fn transfer_active(self) -> bool {
        matches!(
            self,
            ItemState::Eligible | ItemState::PendingOwnerRequired | ItemState::PendingOwnerCreated
                | ItemState::AcceptRequired | ItemState::Accepting | ItemState::Transferred
                | ItemState::Verifying | ItemState::RetryableFailed
        )
    }

    pub fn is_skipped(self) -> (r: bool)
        ensures r == self.skipped(),
    {
        match self {
            ItemState::SkippedAlreadyOwnedByTarget | ItemState::SkippedNotOwnedBySource
            | ItemState::SkippedSharedDrive | ItemState::SkippedShortcutTarget
            | ItemState::SkippedTrashed | ItemState::SkippedIneligible => true,
            _ => false,
        }
    }

    pub fn is_eligible(self) -> (r: bool)
        ensures r == (self == ItemState::Eligible),
    {
        match self {
            ItemState::Eligible => true,
            _ => false,
        }
    }

    pub fn is_terminal(self) -> (r: bool)
        ensures r == self.terminal(),
    {
        match self {
            ItemState::Verified | ItemState::SkippedAlreadyOwnedByTarget
            | ItemState::SkippedNotOwnedBySource | ItemState::SkippedSharedDrive
            | ItemState::SkippedShortcutTarget | ItemState::SkippedTrashed
            | ItemState::SkippedIneligible | ItemState::PermanentFailed
            | ItemState::Cancelled => true,
            _ => false,
        }
    }

    pub fn is_transfer_active(self) -> (r: bool)
        ensures r == self.transfer_active(),
    {
        match self {
            ItemState::Eligible | ItemState::PendingOwnerRequired
            | ItemState::PendingOwnerCreated | ItemState::AcceptRequired
            | ItemState::Accepting | ItemState::Transferred | ItemState::Verifying
            | ItemState::RetryableFailed => true,
            _ => false,
        }
    }

    /// The states a transfer leaves half done and that a restart re-reads from Drive.
    pub open spec fn intermediate_checkpoint(self) -> bool {
        matches!(
            self,
            ItemState::PendingOwnerCreated | ItemState::AcceptRequired | ItemState::Accepting
                | ItemState::Transferred | ItemState::Verifying
        )
    }

    pub fn is_intermediate_checkpoint(self) -> (r: bool)
        ensures r == self.intermediate_checkpoint(),
    {
        match self {
            ItemState::PendingOwnerCreated | ItemState::AcceptRequired | ItemState::Accepting
            | ItemState::Transferred | ItemState::Verifying => true,
            _ => false,
        }
    }

    /// The lifecycle's edges: every state may stay where it is, and these moves are allowed.
    pub open spec fn allows(self, next: ItemState) -> bool {
        self == next || match self {
            ItemState::Discovered => next == ItemState::Eligible,
            ItemState::Eligible => matches!(
                next,
                ItemState::PendingOwnerRequired | ItemState::Verifying
                    | ItemState::SkippedAlreadyOwnedByTarget | ItemState::SkippedNotOwnedBySource
                    | ItemState::SkippedSharedDrive | ItemState::SkippedTrashed
                    | ItemState::SkippedIneligible | ItemState::PermanentFailed
                    | ItemState::RetryableFailed | ItemState::Cancelled
            ),
            ItemState::PendingOwnerRequired => matches!(
                next,
                ItemState::PendingOwnerCreated | ItemState::Verifying | ItemState::RetryableFailed
                    | ItemState::PermanentFailed | ItemState::Cancelled | ItemState::SkippedTrashed
                    | ItemState::SkippedSharedDrive | ItemState::SkippedNotOwnedBySource
            ),
            ItemState::PendingOwnerCreated => matches!(
                next,
                ItemState::AcceptRequired | ItemState::Verifying | ItemState::RetryableFailed
                    | ItemState::PermanentFailed | ItemState::Cancelled | ItemState::SkippedTrashed
                    | ItemState::SkippedSharedDrive
            ),
            ItemState::AcceptRequired => matches!(
                next,
                ItemState::Accepting | ItemState::Verifying | ItemState::RetryableFailed
                    | ItemState::PermanentFailed | ItemState::Cancelled | ItemState::SkippedTrashed
            ),
            ItemState::Accepting => matches!(
                next,
                ItemState::Transferred | ItemState::Verifying | ItemState::RetryableFailed
                    | ItemState::PermanentFailed | ItemState::Cancelled | ItemState::SkippedTrashed
            ),
            ItemState::Transferred => matches!(
                next,
                ItemState::Verifying | ItemState::RetryableFailed | ItemState::PermanentFailed
                    | ItemState::Cancelled | ItemState::SkippedTrashed
            ),
            ItemState::Verifying => matches!(
                next,
                ItemState::Verified | ItemState::RetryableFailed | ItemState::PermanentFailed
                    | ItemState::Cancelled | ItemState::SkippedTrashed
            ),
            ItemState::RetryableFailed => matches!(
                next,
                ItemState::PendingOwnerRequired | ItemState::Verifying
                    | ItemState::PermanentFailed | ItemState::Cancelled
            ),
            _ => false,
        }
    }

    pub fn can_transition_to(self, next: ItemState) -> (r: bool)
        ensures r == self.allows(next),
    {
        if self == next {
            return true;
        }
        match self {
            ItemState::Discovered => next == ItemState::Eligible,
            ItemState::Eligible => match next {
                ItemState::PendingOwnerRequired | ItemState::Verifying
                | ItemState::SkippedAlreadyOwnedByTarget | ItemState::SkippedNotOwnedBySource
                | ItemState::SkippedSharedDrive | ItemState::SkippedTrashed
                | ItemState::SkippedIneligible | ItemState::PermanentFailed
                | ItemState::RetryableFailed | ItemState::Cancelled => true,
                _ => false,
            },
            ItemState::PendingOwnerRequired => match next {
                ItemState::PendingOwnerCreated | ItemState::Verifying | ItemState::RetryableFailed
                | ItemState::PermanentFailed | ItemState::Cancelled | ItemState::SkippedTrashed
                | ItemState::SkippedSharedDrive | ItemState::SkippedNotOwnedBySource => true,
                _ => false,
            },
            ItemState::PendingOwnerCreated => match next {
                ItemState::AcceptRequired | ItemState::Verifying | ItemState::RetryableFailed
                | ItemState::PermanentFailed | ItemState::Cancelled | ItemState::SkippedTrashed
                | ItemState::SkippedSharedDrive => true,
                _ => false,
            },
            ItemState::AcceptRequired => match next {
                ItemState::Accepting | ItemState::Verifying | ItemState::RetryableFailed
                | ItemState::PermanentFailed | ItemState::Cancelled
                | ItemState::SkippedTrashed => true,
                _ => false,
            },
            ItemState::Accepting => match next {
                ItemState::Transferred | ItemState::Verifying | ItemState::RetryableFailed
                | ItemState::PermanentFailed | ItemState::Cancelled
                | ItemState::SkippedTrashed => true,
                _ => false,
            },
            ItemState::Transferred => match next {
                ItemState::Verifying | ItemState::RetryableFailed | ItemState::PermanentFailed
                | ItemState::Cancelled | ItemState::SkippedTrashed => true,
                _ => false,
            },
            ItemState::Verifying => match next {
                ItemState::Verified | ItemState::RetryableFailed | ItemState::PermanentFailed
                | ItemState::Cancelled | ItemState::SkippedTrashed => true,
                _ => false,
            },
            ItemState::RetryableFailed => match next {
                ItemState::PendingOwnerRequired | ItemState::Verifying
                | ItemState::PermanentFailed | ItemState::Cancelled => true,
                _ => false,
            },
            _ => false,
        }
    }

    /// Moves to `next` when the lifecycle allows it.
    pub fn transition_to(self, next: ItemState) -> (r: Result<ItemState, ItemError>)
        ensures
            self.allows(next) ==> r == Ok::<ItemState, ItemError>(next),
            !self.allows(next) ==> r == Err::<ItemState, ItemError>(ItemError::IllegalTransition),
    {
        if self.can_transition_to(next) {
            Ok(next)
        } else {
            Err(ItemError::IllegalTransition)
        }
    }

    /// The state a stored name stands for.
    pub open spec fn parse(s: Seq<char>) -> Option<ItemState> {
        if s == "DISCOVERED"@ { Some(ItemState::Discovered) }
        else if s == "ELIGIBLE"@ { Some(ItemState::Eligible) }
        else if s == "PENDING_OWNER_REQUIRED"@ { Some(ItemState::PendingOwnerRequired) }
        else if s == "PENDING_OWNER_CREATED"@ { Some(ItemState::PendingOwnerCreated) }
        else if s == "ACCEPT_REQUIRED"@ { Some(ItemState::AcceptRequired) }
        else if s == "ACCEPTING"@ { Some(ItemState::Accepting) }
        else if s == "TRANSFERRED"@ { Some(ItemState::Transferred) }
        else if s == "VERIFYING"@ { Some(ItemState::Verifying) }
        else if s == "VERIFIED"@ { Some(ItemState::Verified) }
        else if s == "SKIPPED_ALREADY_OWNED_BY_TARGET"@ { Some(ItemState::SkippedAlreadyOwnedByTarget) }
        else if s == "SKIPPED_NOT_OWNED_BY_SOURCE"@ { Some(ItemState::SkippedNotOwnedBySource) }
        else if s == "SKIPPED_SHARED_DRIVE"@ { Some(ItemState::SkippedSharedDrive) }
        else if s == "SKIPPED_SHORTCUT_TARGET"@ { Some(ItemState::SkippedShortcutTarget) }
        else if s == "SKIPPED_TRASHED"@ { Some(ItemState::SkippedTrashed) }
        else if s == "SKIPPED_INELIGIBLE"@ { Some(ItemState::SkippedIneligible) }
        else if s == "RETRYABLE_FAILED"@ { Some(ItemState::RetryableFailed) }
        else if s == "PERMANENT_FAILED"@ { Some(ItemState::PermanentFailed) }
        else if s == "CANCELLED"@ { Some(ItemState::Cancelled) }
        else { None }
    }

    /// Reads a stored state name (`FromStr`).
    pub fn from_str(s: &str) -> (r: Result<ItemState, ItemError>)
        ensures
            r == match ItemState::parse(s@) {
                Some(state) => Ok::<ItemState, ItemError>(state),
                None => Err::<ItemState, ItemError>(ItemError::InvalidItemState),
            },
    {
        if str_eq(s, "DISCOVERED") { Ok(ItemState::Discovered) }
        else if str_eq(s, "ELIGIBLE") { Ok(ItemState::Eligible) }
        else if str_eq(s, "PENDING_OWNER_REQUIRED") { Ok(ItemState::PendingOwnerRequired) }
        else if str_eq(s, "PENDING_OWNER_CREATED") { Ok(ItemState::PendingOwnerCreated) }
        else if str_eq(s, "ACCEPT_REQUIRED") { Ok(ItemState::AcceptRequired) }
        else if str_eq(s, "ACCEPTING") { Ok(ItemState::Accepting) }
        else if str_eq(s, "TRANSFERRED") { Ok(ItemState::Transferred) }
        else if str_eq(s, "VERIFYING") { Ok(ItemState::Verifying) }
        else if str_eq(s, "VERIFIED") { Ok(ItemState::Verified) }
        else if str_eq(s, "SKIPPED_ALREADY_OWNED_BY_TARGET") { Ok(ItemState::SkippedAlreadyOwnedByTarget) }
        else if str_eq(s, "SKIPPED_NOT_OWNED_BY_SOURCE") { Ok(ItemState::SkippedNotOwnedBySource) }
        else if str_eq(s, "SKIPPED_SHARED_DRIVE") { Ok(ItemState::SkippedSharedDrive) }
        else if str_eq(s, "SKIPPED_SHORTCUT_TARGET") { Ok(ItemState::SkippedShortcutTarget) }
        else if str_eq(s, "SKIPPED_TRASHED") { Ok(ItemState::SkippedTrashed) }
        else if str_eq(s, "SKIPPED_INELIGIBLE") { Ok(ItemState::SkippedIneligible) }
        else if str_eq(s, "RETRYABLE_FAILED") { Ok(ItemState::RetryableFailed) }
        else if str_eq(s, "PERMANENT_FAILED") { Ok(ItemState::PermanentFailed) }
        else if str_eq(s, "CANCELLED") { Ok(ItemState::Cancelled) }
        else { Err(ItemError::InvalidItemState) }
    }
}

/// Every state may stay where it is.
pub proof fn lemma_transition_reflexive(state: ItemState)
    ensures state.allows(state),
{
}

/// A terminal state never moves to another state.
pub proof fn lemma_terminal_is_final(state: ItemState, next: ItemState)
    requires state.terminal(), state.allows(next),
    ensures next == state,
{
}

/// No state moves back to `Discovered`.
pub proof fn lemma_discovered_is_initial(state: ItemState)
    requires state.allows(ItemState::Discovered),
    ensures state == ItemState::Discovered,
{
}

/// Skipped states are terminal, and no terminal state takes part in a transfer.
pub proof fn lemma_state_classes(state: ItemState)
    ensures
        state.skipped() ==> state.terminal(),
        !(state.terminal() && state.transfer_active()),
{
}

/// The ownership handshake runs in order: an item becomes eligible only once discovered,
/// gets its pending-owner permission only once one is required, waits for acceptance only
/// once the permission exists, is accepted only while acceptance is required, counts as
/// transferred only after accepting, and is verified only after verifying; no state skips
/// ahead to a later step.
pub proof fn lemma_handshake_steps_in_order(s: ItemState)
    ensures
        s.allows(ItemState::Eligible) ==> s == ItemState::Discovered || s == ItemState::Eligible,
        s.allows(ItemState::PendingOwnerCreated)
            ==> s == ItemState::PendingOwnerRequired || s == ItemState::PendingOwnerCreated,
        s.allows(ItemState::AcceptRequired) ==> s == ItemState::PendingOwnerCreated || s == ItemState::AcceptRequired,
        s.allows(ItemState::Accepting) ==> s == ItemState::AcceptRequired || s == ItemState::Accepting,
        s.allows(ItemState::Transferred) ==> s == ItemState::Accepting || s == ItemState::Transferred,
        s.allows(ItemState::Verified) ==> s == ItemState::Verifying || s == ItemState::Verified,
{
}

/// Reading back the stored name of a state gives the same state.
pub proof fn lemma_name_roundtrip(state: ItemState)
    ensures ItemState::parse(state.name()) == Some(state),
{
    reveal_strlit("DISCOVERED");
    reveal_strlit("ELIGIBLE");
    reveal_strlit("PENDING_OWNER_REQUIRED");
    reveal_strlit("PENDING_OWNER_CREATED");
    reveal_strlit("ACCEPT_REQUIRED");
    reveal_strlit("ACCEPTING");
    reveal_strlit("TRANSFERRED");
    reveal_strlit("VERIFYING");
    reveal_strlit("VERIFIED");
    reveal_strlit("SKIPPED_ALREADY_OWNED_BY_TARGET");
    reveal_strlit("SKIPPED_NOT_OWNED_BY_SOURCE");
    reveal_strlit("SKIPPED_SHARED_DRIVE");
    reveal_strlit("SKIPPED_SHORTCUT_TARGET");
    reveal_strlit("SKIPPED_TRASHED");
    reveal_strlit("SKIPPED_INELIGIBLE");
    reveal_strlit("RETRYABLE_FAILED");
    reveal_strlit("PERMANENT_FAILED");
    reveal_strlit("CANCELLED");
    match state {
        ItemState::Discovered => {
        },
        ItemState::Eligible => {
            assert("ELIGIBLE"@.len() != "DISCOVERED"@.len());
        },
        ItemState::PendingOwnerRequired => {
            assert("PENDING_OWNER_REQUIRED"@.len() != "DISCOVERED"@.len());
            assert("PENDING_OWNER_REQUIRED"@.len() != "ELIGIBLE"@.len());
        },
        ItemState::PendingOwnerCreated => {
            assert("PENDING_OWNER_CREATED"@.len() != "DISCOVERED"@.len());
            assert("PENDING_OWNER_CREATED"@.len() != "ELIGIBLE"@.len());
            assert("PENDING_OWNER_CREATED"@.len() != "PENDING_OWNER_REQUIRED"@.len());
        },
        ItemState::AcceptRequired => {
            assert("ACCEPT_REQUIRED"@.len() != "DISCOVERED"@.len());
            assert("ACCEPT_REQUIRED"@.len() != "ELIGIBLE"@.len());
            assert("ACCEPT_REQUIRED"@.len() != "PENDING_OWNER_REQUIRED"@.len());
            assert("ACCEPT_REQUIRED"@.len() != "PENDING_OWNER_CREATED"@.len());
        },
        ItemState::Accepting => {
            assert("ACCEPTING"@.len() != "DISCOVERED"@.len());
            assert("ACCEPTING"@.len() != "ELIGIBLE"@.len());
            assert("ACCEPTING"@.len() != "PENDING_OWNER_REQUIRED"@.len());
            assert("ACCEPTING"@.len() != "PENDING_OWNER_CREATED"@.len());
            assert("ACCEPTING"@.len() != "ACCEPT_REQUIRED"@.len());
        },
        ItemState::Transferred => {
            assert("TRANSFERRED"@.len() != "DISCOVERED"@.len());
            assert("TRANSFERRED"@.len() != "ELIGIBLE"@.len());
            assert("TRANSFERRED"@.len() != "PENDING_OWNER_REQUIRED"@.len());
            assert("TRANSFERRED"@.len() != "PENDING_OWNER_CREATED"@.len());
            assert("TRANSFERRED"@.len() != "ACCEPT_REQUIRED"@.len());
            assert("TRANSFERRED"@.len() != "ACCEPTING"@.len());
        },
        ItemState::Verifying => {
            assert("VERIFYING"@.len() != "DISCOVERED"@.len());
            assert("VERIFYING"@.len() != "ELIGIBLE"@.len());
            assert("VERIFYING"@.len() != "PENDING_OWNER_REQUIRED"@.len());
            assert("VERIFYING"@.len() != "PENDING_OWNER_CREATED"@.len());
            assert("VERIFYING"@.len() != "ACCEPT_REQUIRED"@.len());
            assert("VERIFYING"@[0] != "ACCEPTING"@[0]);
            assert("VERIFYING"@.len() != "TRANSFERRED"@.len());
        },
        ItemState::Verified => {
            assert("VERIFIED"@.len() != "DISCOVERED"@.len());
            assert("VERIFIED"@[0] != "ELIGIBLE"@[0]);
            assert("VERIFIED"@.len() != "PENDING_OWNER_REQUIRED"@.len());
            assert("VERIFIED"@.len() != "PENDING_OWNER_CREATED"@.len());
            assert("VERIFIED"@.len() != "ACCEPT_REQUIRED"@.len());
            assert("VERIFIED"@.len() != "ACCEPTING"@.len());
            assert("VERIFIED"@.len() != "TRANSFERRED"@.len());
            assert("VERIFIED"@.len() != "VERIFYING"@.len());
        },
        ItemState::SkippedAlreadyOwnedByTarget => {
            assert("SKIPPED_ALREADY_OWNED_BY_TARGET"@.len() != "DISCOVERED"@.len());
            assert("SKIPPED_ALREADY_OWNED_BY_TARGET"@.len() != "ELIGIBLE"@.len());
            assert("SKIPPED_ALREADY_OWNED_BY_TARGET"@.len() != "PENDING_OWNER_REQUIRED"@.len());
            assert("SKIPPED_ALREADY_OWNED_BY_TARGET"@.len() != "PENDING_OWNER_CREATED"@.len());
            assert("SKIPPED_ALREADY_OWNED_BY_TARGET"@.len() != "ACCEPT_REQUIRED"@.len());
            assert("SKIPPED_ALREADY_OWNED_BY_TARGET"@.len() != "ACCEPTING"@.len());
            assert("SKIPPED_ALREADY_OWNED_BY_TARGET"@.len() != "TRANSFERRED"@.len());
            assert("SKIPPED_ALREADY_OWNED_BY_TARGET"@.len() != "VERIFYING"@.len());
            assert("SKIPPED_ALREADY_OWNED_BY_TARGET"@.len() != "VERIFIED"@.len());
        },
        ItemState::SkippedNotOwnedBySource => {
            assert("SKIPPED_NOT_OWNED_BY_SOURCE"@.len() != "DISCOVERED"@.len());
            assert("SKIPPED_NOT_OWNED_BY_SOURCE"@.len() != "ELIGIBLE"@.len());
            assert("SKIPPED_NOT_OWNED_BY_SOURCE"@.len() != "PENDING_OWNER_REQUIRED"@.len());
            assert("SKIPPED_NOT_OWNED_BY_SOURCE"@.len() != "PENDING_OWNER_CREATED"@.len());
            assert("SKIPPED_NOT_OWNED_BY_SOURCE"@.len() != "ACCEPT_REQUIRED"@.len());
            assert("SKIPPED_NOT_OWNED_BY_SOURCE"@.len() != "ACCEPTING"@.len());
            assert("SKIPPED_NOT_OWNED_BY_SOURCE"@.len() != "TRANSFERRED"@.len());
            assert("SKIPPED_NOT_OWNED_BY_SOURCE"@.len() != "VERIFYING"@.len());
            assert("SKIPPED_NOT_OWNED_BY_SOURCE"@.len() != "VERIFIED"@.len());
            assert("SKIPPED_NOT_OWNED_BY_SOURCE"@.len() != "SKIPPED_ALREADY_OWNED_BY_TARGET"@.len());
        },
        ItemState::SkippedSharedDrive => {
            assert("SKIPPED_SHARED_DRIVE"@.len() != "DISCOVERED"@.len());
            assert("SKIPPED_SHARED_DRIVE"@.len() != "ELIGIBLE"@.len());
            assert("SKIPPED_SHARED_DRIVE"@.len() != "PENDING_OWNER_REQUIRED"@.len());
            assert("SKIPPED_SHARED_DRIVE"@.len() != "PENDING_OWNER_CREATED"@.len());
            assert("SKIPPED_SHARED_DRIVE"@.len() != "ACCEPT_REQUIRED"@.len());
            assert("SKIPPED_SHARED_DRIVE"@.len() != "ACCEPTING"@.len());
            assert("SKIPPED_SHARED_DRIVE"@.len() != "TRANSFERRED"@.len());
            assert("SKIPPED_SHARED_DRIVE"@.len() != "VERIFYING"@.len());
            assert("SKIPPED_SHARED_DRIVE"@.len() != "VERIFIED"@.len());
            assert("SKIPPED_SHARED_DRIVE"@.len() != "SKIPPED_ALREADY_OWNED_BY_TARGET"@.len());
            assert("SKIPPED_SHARED_DRIVE"@.len() != "SKIPPED_NOT_OWNED_BY_SOURCE"@.len());
        },
        ItemState::SkippedShortcutTarget => {
            assert("SKIPPED_SHORTCUT_TARGET"@.len() != "DISCOVERED"@.len());
            assert("SKIPPED_SHORTCUT_TARGET"@.len() != "ELIGIBLE"@.len());
            assert("SKIPPED_SHORTCUT_TARGET"@.len() != "PENDING_OWNER_REQUIRED"@.len());
            assert("SKIPPED_SHORTCUT_TARGET"@.len() != "PENDING_OWNER_CREATED"@.len());
            assert("SKIPPED_SHORTCUT_TARGET"@.len() != "ACCEPT_REQUIRED"@.len());
            assert("SKIPPED_SHORTCUT_TARGET"@.len() != "ACCEPTING"@.len());
            assert("SKIPPED_SHORTCUT_TARGET"@.len() != "TRANSFERRED"@.len());
            assert("SKIPPED_SHORTCUT_TARGET"@.len() != "VERIFYING"@.len());
            assert("SKIPPED_SHORTCUT_TARGET"@.len() != "VERIFIED"@.len());
            assert("SKIPPED_SHORTCUT_TARGET"@.len() != "SKIPPED_ALREADY_OWNED_BY_TARGET"@.len());
            assert("SKIPPED_SHORTCUT_TARGET"@.len() != "SKIPPED_NOT_OWNED_BY_SOURCE"@.len());
            assert("SKIPPED_SHORTCUT_TARGET"@.len() != "SKIPPED_SHARED_DRIVE"@.len());
        },
        ItemState::SkippedTrashed => {
            assert("SKIPPED_TRASHED"@.len() != "DISCOVERED"@.len());
            assert("SKIPPED_TRASHED"@.len() != "ELIGIBLE"@.len());
            assert("SKIPPED_TRASHED"@.len() != "PENDING_OWNER_REQUIRED"@.len());
            assert("SKIPPED_TRASHED"@.len() != "PENDING_OWNER_CREATED"@.len());
            assert("SKIPPED_TRASHED"@[0] != "ACCEPT_REQUIRED"@[0]);
            assert("SKIPPED_TRASHED"@.len() != "ACCEPTING"@.len());
            assert("SKIPPED_TRASHED"@.len() != "TRANSFERRED"@.len());
            assert("SKIPPED_TRASHED"@.len() != "VERIFYING"@.len());
            assert("SKIPPED_TRASHED"@.len() != "VERIFIED"@.len());
            assert("SKIPPED_TRASHED"@.len() != "SKIPPED_ALREADY_OWNED_BY_TARGET"@.len());
            assert("SKIPPED_TRASHED"@.len() != "SKIPPED_NOT_OWNED_BY_SOURCE"@.len());
            assert("SKIPPED_TRASHED"@.len() != "SKIPPED_SHARED_DRIVE"@.len());
            assert("SKIPPED_TRASHED"@.len() != "SKIPPED_SHORTCUT_TARGET"@.len());
        },
        ItemState::SkippedIneligible => {
            assert("SKIPPED_INELIGIBLE"@.len() != "DISCOVERED"@.len());
            assert("SKIPPED_INELIGIBLE"@.len() != "ELIGIBLE"@.len());
            assert("SKIPPED_INELIGIBLE"@.len() != "PENDING_OWNER_REQUIRED"@.len());
            assert("SKIPPED_INELIGIBLE"@.len() != "PENDING_OWNER_CREATED"@.len());
            assert("SKIPPED_INELIGIBLE"@.len() != "ACCEPT_REQUIRED"@.len());
            assert("SKIPPED_INELIGIBLE"@.len() != "ACCEPTING"@.len());
            assert("SKIPPED_INELIGIBLE"@.len() != "TRANSFERRED"@.len());
            assert("SKIPPED_INELIGIBLE"@.len() != "VERIFYING"@.len());
            assert("SKIPPED_INELIGIBLE"@.len() != "VERIFIED"@.len());
            assert("SKIPPED_INELIGIBLE"@.len() != "SKIPPED_ALREADY_OWNED_BY_TARGET"@.len());
            assert("SKIPPED_INELIGIBLE"@.len() != "SKIPPED_NOT_OWNED_BY_SOURCE"@.len());
            assert("SKIPPED_INELIGIBLE"@.len() != "SKIPPED_SHARED_DRIVE"@.len());
            assert("SKIPPED_INELIGIBLE"@.len() != "SKIPPED_SHORTCUT_TARGET"@.len());
            assert("SKIPPED_INELIGIBLE"@.len() != "SKIPPED_TRASHED"@.len());
        },
        ItemState::RetryableFailed => {
            assert("RETRYABLE_FAILED"@.len() != "DISCOVERED"@.len());
            assert("RETRYABLE_FAILED"@.len() != "ELIGIBLE"@.len());
            assert("RETRYABLE_FAILED"@.len() != "PENDING_OWNER_REQUIRED"@.len());
            assert("RETRYABLE_FAILED"@.len() != "PENDING_OWNER_CREATED"@.len());
            assert("RETRYABLE_FAILED"@.len() != "ACCEPT_REQUIRED"@.len());
            assert("RETRYABLE_FAILED"@.len() != "ACCEPTING"@.len());
            assert("RETRYABLE_FAILED"@.len() != "TRANSFERRED"@.len());
            assert("RETRYABLE_FAILED"@.len() != "VERIFYING"@.len());
            assert("RETRYABLE_FAILED"@.len() != "VERIFIED"@.len());
            assert("RETRYABLE_FAILED"@.len() != "SKIPPED_ALREADY_OWNED_BY_TARGET"@.len());
            assert("RETRYABLE_FAILED"@.len() != "SKIPPED_NOT_OWNED_BY_SOURCE"@.len());
            assert("RETRYABLE_FAILED"@.len() != "SKIPPED_SHARED_DRIVE"@.len());
            assert("RETRYABLE_FAILED"@.len() != "SKIPPED_SHORTCUT_TARGET"@.len());
            assert("RETRYABLE_FAILED"@.len() != "SKIPPED_TRASHED"@.len());
            assert("RETRYABLE_FAILED"@.len() != "SKIPPED_INELIGIBLE"@.len());
        },
        ItemState::PermanentFailed => {
            assert("PERMANENT_FAILED"@.len() != "DISCOVERED"@.len());
            assert("PERMANENT_FAILED"@.len() != "ELIGIBLE"@.len());
            assert("PERMANENT_FAILED"@.len() != "PENDING_OWNER_REQUIRED"@.len());
            assert("PERMANENT_FAILED"@.len() != "PENDING_OWNER_CREATED"@.len());
            assert("PERMANENT_FAILED"@.len() != "ACCEPT_REQUIRED"@.len());
            assert("PERMANENT_FAILED"@.len() != "ACCEPTING"@.len());
            assert("PERMANENT_FAILED"@.len() != "TRANSFERRED"@.len());
            assert("PERMANENT_FAILED"@.len() != "VERIFYING"@.len());
            assert("PERMANENT_FAILED"@.len() != "VERIFIED"@.len());
            assert("PERMANENT_FAILED"@.len() != "SKIPPED_ALREADY_OWNED_BY_TARGET"@.len());
            assert("PERMANENT_FAILED"@.len() != "SKIPPED_NOT_OWNED_BY_SOURCE"@.len());
            assert("PERMANENT_FAILED"@.len() != "SKIPPED_SHARED_DRIVE"@.len());
            assert("PERMANENT_FAILED"@.len() != "SKIPPED_SHORTCUT_TARGET"@.len());
            assert("PERMANENT_FAILED"@.len() != "SKIPPED_TRASHED"@.len());
            assert("PERMANENT_FAILED"@.len() != "SKIPPED_INELIGIBLE"@.len());
            assert("PERMANENT_FAILED"@[0] != "RETRYABLE_FAILED"@[0]);
        },
        ItemState::Cancelled => {
            assert("CANCELLED"@.len() != "DISCOVERED"@.len());
            assert("CANCELLED"@.len() != "ELIGIBLE"@.len());
            assert("CANCELLED"@.len() != "PENDING_OWNER_REQUIRED"@.len());
            assert("CANCELLED"@.len() != "PENDING_OWNER_CREATED"@.len());
            assert("CANCELLED"@.len() != "ACCEPT_REQUIRED"@.len());
            assert("CANCELLED"@[0] != "ACCEPTING"@[0]);
            assert("CANCELLED"@.len() != "TRANSFERRED"@.len());
            assert("CANCELLED"@[0] != "VERIFYING"@[0]);
            assert("CANCELLED"@.len() != "VERIFIED"@.len());
            assert("CANCELLED"@.len() != "SKIPPED_ALREADY_OWNED_BY_TARGET"@.len());
            assert("CANCELLED"@.len() != "SKIPPED_NOT_OWNED_BY_SOURCE"@.len());
            assert("CANCELLED"@.len() != "SKIPPED_SHARED_DRIVE"@.len());
            assert("CANCELLED"@.len() != "SKIPPED_SHORTCUT_TARGET"@.len());
            assert("CANCELLED"@.len() != "SKIPPED_TRASHED"@.len());
            assert("CANCELLED"@.len() != "SKIPPED_INELIGIBLE"@.len());
            assert("CANCELLED"@.len() != "RETRYABLE_FAILED"@.len());
            assert("CANCELLED"@.len() != "PERMANENT_FAILED"@.len());
        },
    }
}

/// One discovered item of a migration job.
#[derive(Clone, Debug, PartialEq, Eq)]
pub struct MigrationItem {
    pub id: ItemId,
    pub job_id: JobId,
    pub file_id: String,
    pub name: String,
    pub mime_type: String,
    pub depth: i64,
    pub original_parent_ids: Vec<String>,
    pub original_owner_permission_id: Option<GooglePermissionId>,
    pub quota_bytes_used: Option<i64>,
    pub target_permission_id: Option<GooglePermissionId>,
    pub state: ItemState,
    pub canary_selected: bool,
    pub created_at: String,
    pub updated_at: String,
}

/// Where a folder listing stopped.
#[derive(Clone, Debug, PartialEq, Eq)]
pub struct ScanCheckpoint {
    pub job_id: JobId,
    pub folder_id: String,
    pub page_token: Option<String>,
    pub depth: i64,
}

} // verus!
