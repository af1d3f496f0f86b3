//! The decisions of the ownership transfer: how each Drive answer moves an item on, when a
//! request is retried, and when a run stops.

use vstd::prelude::*;
use crate::backoff::{backoff_delay_secs, backoff_secs, MAX_RETRY_ATTEMPTS};
use crate::domain::{GooglePermissionId, JobError, JobStatus};
use crate::drive::{is_owner, owned_by, DriveFileSnapshot, DrivePermission, DriveTransferError};
use crate::item::{ItemState, MigrationItem};
use crate::item_store::ItemStoreError;
use crate::text::{chars_eq_ignore_ascii_case, chars_of, eq_ignore_ascii_case};

verus! {

/// The request a Drive error came from.
#[derive(Clone, Copy, Debug, PartialEq, Eq, Structural)]
pub enum TransferPhase {
    Reconcile,
    PendingOwner,
    Accept,
    Verify,
}

/// Why a transfer run stopped.
#[derive(Clone, Debug, PartialEq, Eq)]
pub enum TransferHalt {
    Exhausted { verified: usize, failed: usize },
    SharingRateLimited { message: String },
    WaitingForQuota { message: String },
    AuthRequired { message: String },
    Paused,
    Cancelled,
}

/// Errors that end a transfer run.
#[derive(Clone, Debug, PartialEq, Eq)]
pub enum TransferError {
    Drive(DriveTransferError),
    Store(ItemStoreError),
    Job(JobError),
    InvalidItemState,
}

/// How one step of an item ended when it did not succeed.
#[derive(Clone, Debug, PartialEq, Eq)]
pub enum StepOutcome {
    Retryable,
    Permanent,
    Halt(TransferHalt),
    Store(ItemStoreError),
    InvalidState,
}

/// How an item ended when it did not succeed.
#[derive(Clone, Debug, PartialEq, Eq)]
pub enum StepError {
    Halt(TransferHalt),
    Failed,
    Fatal(TransferError),
}

impl StepError {
    pub open spec fn as_transfer(self) -> TransferError {
        match self {
            StepError::Fatal(err) => err,
            _ => TransferError::InvalidItemState,
        }
    }

    /// The run-level error an item-level failure stands for.
    pub fn into_transfer(self) -> (r: TransferError)
        ensures r == self.as_transfer(),
    {
        match self {
            StepError::Fatal(err) => err,
            StepError::Halt(_) | StepError::Failed => TransferError::InvalidItemState,
        }
    }
}

/// The outcome a Drive error stands for in a given phase.
pub open spec fn outcome_of(err: DriveTransferError, phase: TransferPhase) -> StepOutcome {
    match err {
        DriveTransferError::SharingRateLimitExceeded =>
            StepOutcome::Halt(TransferHalt::SharingRateLimited { message: arbitrary() }),
        DriveTransferError::StorageQuotaExceeded =>
            StepOutcome::Halt(TransferHalt::WaitingForQuota { message: arbitrary() }),
        DriveTransferError::Unauthorized =>
            StepOutcome::Halt(TransferHalt::AuthRequired { message: arbitrary() }),
        DriveTransferError::NotFound => match phase {
            TransferPhase::Verify | TransferPhase::Accept => StepOutcome::Retryable,
            _ => StepOutcome::Permanent,
        },
        DriveTransferError::RateLimited | DriveTransferError::ServerUnavailable
        | DriveTransferError::Transport => StepOutcome::Retryable,
        _ => StepOutcome::Permanent,
    }
}

/// `outcome` is what `err` stands for in `phase`; a halt carries the error's message.
pub open spec fn classifies_as(err: DriveTransferError, phase: TransferPhase, outcome: StepOutcome) -> bool {
    match err {
        DriveTransferError::SharingRateLimitExceeded => outcome matches StepOutcome::Halt(TransferHalt::SharingRateLimited { message }) && message@ == err.message(),
        DriveTransferError::StorageQuotaExceeded => outcome matches StepOutcome::Halt(TransferHalt::WaitingForQuota { message }) && message@ == err.message(),
        DriveTransferError::Unauthorized => outcome matches StepOutcome::Halt(TransferHalt::AuthRequired { message }) && message@ == err.message(),
        _ => outcome == outcome_of(err, phase),
    }
}

/// Only passing failures are retried: rate limits, an unavailable server and transport
/// failures, and a file not found while it is being accepted or verified (its ownership may
/// still be settling). The sharing rate limit, a full quota and a rejected token stop the
/// run; every other error fails the item for good.
pub proof fn lemma_only_passing_failures_are_retried(err: DriveTransferError, phase: TransferPhase, r: StepOutcome)
    requires classifies_as(err, phase, r),
    ensures
        (r == StepOutcome::Retryable) <==> (err == DriveTransferError::RateLimited
            || err == DriveTransferError::ServerUnavailable || err == DriveTransferError::Transport
            || (err == DriveTransferError::NotFound && (phase == TransferPhase::Accept || phase == TransferPhase::Verify))),
        (r is Halt) <==> (err == DriveTransferError::SharingRateLimitExceeded
            || err == DriveTransferError::StorageQuotaExceeded || err == DriveTransferError::Unauthorized),
        err == DriveTransferError::Unauthorized ==> r matches StepOutcome::Halt(TransferHalt::AuthRequired { .. }),
        err == DriveTransferError::SharingRateLimitExceeded
            ==> r matches StepOutcome::Halt(TransferHalt::SharingRateLimited { .. }),
        err == DriveTransferError::StorageQuotaExceeded ==> r matches StepOutcome::Halt(TransferHalt::WaitingForQuota { .. }),
        (r == StepOutcome::Permanent) <==> !(r == StepOutcome::Retryable || r is Halt),
{
}

/// What a Drive error means for the item in `phase`.
pub fn classify(err: DriveTransferError, phase: TransferPhase) -> (r: StepOutcome)
    ensures classifies_as(err, phase, r),
{
    match err {
        DriveTransferError::SharingRateLimitExceeded => StepOutcome::Halt(
            TransferHalt::SharingRateLimited { message: err.to_string() },
        ),
        DriveTransferError::StorageQuotaExceeded => StepOutcome::Halt(
            TransferHalt::WaitingForQuota { message: err.to_string() },
        ),
        DriveTransferError::Unauthorized => StepOutcome::Halt(
            TransferHalt::AuthRequired { message: err.to_string() },
        ),
        DriveTransferError::NotFound => match phase {
            TransferPhase::Verify | TransferPhase::Accept => StepOutcome::Retryable,
            TransferPhase::Reconcile | TransferPhase::PendingOwner => StepOutcome::Permanent,
        },
        DriveTransferError::RateLimited | DriveTransferError::ServerUnavailable
        | DriveTransferError::Transport => StepOutcome::Retryable,
        DriveTransferError::Forbidden | DriveTransferError::InvalidResponse
        | DriveTransferError::UnexpectedStatus(_) => StepOutcome::Permanent,
    }
}

/// After a failed request: the pause in seconds before trying again, or `None` when the
/// outcome stands. Only retryable outcomes are retried, and at most six times.
pub fn retry_pause(outcome: &StepOutcome, attempt: u32, jitter_secs: u64) -> (r: Option<u64>)
    ensures
        r == if *outcome == StepOutcome::Retryable && attempt < MAX_RETRY_ATTEMPTS {
            Some(backoff_secs(attempt, jitter_secs))
        } else {
            None::<u64>
        },
{
    match outcome {
        StepOutcome::Retryable => {
            if attempt < MAX_RETRY_ATTEMPTS {
                Some(backoff_delay_secs(attempt, jitter_secs))
            } else {
                None
            }
        },
        _ => None,
    }
}

/// The first permission that is the target's, by identifier or by e-mail address.
pub open spec fn is_target_permission(p: DrivePermission, email: Seq<char>, target: Seq<char>) -> bool {
    p.id@ == target || (p.email_address matches Some(e) && eq_ignore_ascii_case(e@, email))
}

/// `found` is the index of the first target permission in `permissions`, if there is one.
pub open spec fn first_target_permission(permissions: Seq<DrivePermission>, email: Seq<char>, target: Seq<char>, found: Option<usize>) -> bool {
    match found {
        Some(i) => i < permissions.len()
            && is_target_permission(permissions[i as int], email, target)
            && forall|k: int| 0 <= k < i ==> !is_target_permission(#[trigger] permissions[k], email, target),
        None => forall|k: int| 0 <= k < permissions.len() ==> !is_target_permission(#[trigger] permissions[k], email, target),
    }
}

/// The index of the first target permission, if there is one.
pub open spec fn first_target_index(permissions: Seq<DrivePermission>, email: Seq<char>, target: Seq<char>) -> Option<usize> {
    choose|found: Option<usize>| first_target_permission(permissions, email, target, found)
}

/// There is exactly one answer to which permission comes first.
pub proof fn lemma_first_target_permission_unique(
    permissions: Seq<DrivePermission>, email: Seq<char>, target: Seq<char>, a: Option<usize>,
)
    requires first_target_permission(permissions, email, target, a),
    ensures first_target_index(permissions, email, target) == a,
{
    let b = first_target_index(permissions, email, target);
    assert(first_target_permission(permissions, email, target, b));
    match (a, b) {
        (Some(i), Some(j)) => {
            if i < j {
                assert(!is_target_permission(permissions[i as int], email, target));
            } else if j < i {
                assert(!is_target_permission(permissions[j as int], email, target));
            }
        },
        (Some(i), None) => {
            assert(!is_target_permission(permissions[i as int], email, target));
        },
        (None, Some(j)) => {
            assert(!is_target_permission(permissions[j as int], email, target));
        },
        (None, None) => {},
    }
}

/// Finds the permission the target account already holds on a file.
pub fn find_target_permission(
    permissions: &Vec<DrivePermission>,
    target_email: &str,
    target_permission_id: &GooglePermissionId,
) -> (r: Option<usize>)
    ensures
        first_target_permission(permissions@, target_email@, target_permission_id.value@, r),
        r == first_target_index(permissions@, target_email@, target_permission_id.value@),
{
    let email = chars_of(target_email);
    let mut i: usize = 0;
    while i < permissions.len()
        invariant
            i <= permissions.len(),
            email@ == target_email@,
            forall|k: int| 0 <= k < i ==> !is_target_permission(#[trigger] permissions@[k], target_email@, target_permission_id.value@),
        decreases permissions.len() - i,
    {
        let p = &permissions[i];
        let mut hit = p.id == target_permission_id.value;
        match &p.email_address {
            Some(e) => {
                let e_chars = chars_of(e.as_str());
                if chars_eq_ignore_ascii_case(&e_chars, &email) {
                    hit = true;
                }
            },
            None => {},
        }
        if hit {
            proof { lemma_first_target_permission_unique(permissions@, target_email@, target_permission_id.value@, Some(i)); }
            return Some(i);
        }
        i += 1;
    }
    proof { lemma_first_target_permission_unique(permissions@, target_email@, target_permission_id.value@, None); }
    None
}

/// How often `x` occurs in `s`.
pub open spec fn occurrences(s: Seq<String>, x: Seq<char>) -> nat
    decreases s.len(),
{
    if s.len() == 0 {
        0
    } else {
        occurrences(s.drop_last(), x) + if s.last()@ == x { 1nat } else { 0nat }
    }
}

fn count_occurrences(s: &Vec<String>, x: &String) -> (r: usize)
    ensures r as nat == occurrences(s@, x@),
{
    let mut n: usize = 0;
    let mut i: usize = 0;
    while i < s.len()
        invariant
            i <= s.len(),
            n <= i,
            n as nat == occurrences(s@.take(i as int), x@),
        decreases s.len() - i,
    {
        assert(s@.take(i + 1).drop_last() =~= s@.take(i as int));
        if s[i] == *x {
            n += 1;
        }
        i += 1;
    }
    assert(s@.take(s.len() as int) =~= s@);
    n
}

/// The same parents, each as often, in any order.
pub open spec fn same_parent_sets(a: Seq<String>, b: Seq<String>) -> bool {
    forall|x: Seq<char>| #[trigger] occurrences(a, x) == occurrences(b, x)
}

proof fn lemma_occurrences_positive(s: Seq<String>, x: Seq<char>)
    ensures occurrences(s, x) > 0 <==> exists|i: int| 0 <= i < s.len() && (#[trigger] s[i])@ == x,
    decreases s.len(),
{
    if s.len() > 0 {
        lemma_occurrences_positive(s.drop_last(), x);
        if occurrences(s.drop_last(), x) > 0 {
            let i = choose|i: int| 0 <= i < s.drop_last().len() && (#[trigger] s.drop_last()[i])@ == x;
            assert(s[i] == s.drop_last()[i]);
        }
        if exists|i: int| 0 <= i < s.len() && (#[trigger] s[i])@ == x {
            let i = choose|i: int| 0 <= i < s.len() && (#[trigger] s[i])@ == x;
            if i < s.len() - 1 {
                assert(s.drop_last()[i] == s[i]);
            }
        }
    }
}

proof fn lemma_occurrences_count(s: Seq<String>, x: Seq<char>)
    ensures occurrences(s, x) == s.map_values(|p: String| p@).to_multiset().count(x),
    decreases s.len(),
{
    broadcast use vstd::seq_lib::group_to_multiset_ensures, vstd::multiset::group_multiset_axioms;
    if s.len() == 0 {
        assert(s.map_values(|p: String| p@) =~= Seq::<Seq<char>>::empty());
    } else {
        lemma_occurrences_count(s.drop_last(), x);
        assert(s.map_values(|p: String| p@) =~= s.drop_last().map_values(|p: String| p@).push(s.last()@));
    }
}

/// Two parent lists are the same exactly when they hold the same parent identifiers,
/// each as often: their multisets are equal, whatever the order.
pub proof fn lemma_same_parents_is_multiset_equality(a: Seq<String>, b: Seq<String>)
    ensures
        same_parent_sets(a, b)
            <==> a.map_values(|p: String| p@).to_multiset() == b.map_values(|p: String| p@).to_multiset(),
{
    broadcast use vstd::multiset::group_multiset_axioms;
    let ma = a.map_values(|p: String| p@).to_multiset();
    let mb = b.map_values(|p: String| p@).to_multiset();
    assert forall|x: Seq<char>| #[trigger] occurrences(a, x) == ma.count(x) && occurrences(b, x) == mb.count(x) by {
        lemma_occurrences_count(a, x);
        lemma_occurrences_count(b, x);
    }
    if same_parent_sets(a, b) {
        assert forall|x: Seq<char>| ma.count(x) == mb.count(x) by {
            assert(occurrences(a, x) == occurrences(b, x));
        }
        assert(ma =~= mb);
    }
    if ma == mb {
        assert forall|x: Seq<char>| #[trigger] occurrences(a, x) == occurrences(b, x) by {
            assert(occurrences(a, x) == ma.count(x));
        }
    }
}

/// Whether the remote parents are the original ones, in any order.
pub fn same_parents(original: &Vec<String>, remote: &Vec<String>) -> (r: bool)
    ensures r == same_parent_sets(original@, remote@),
{
    let mut i: usize = 0;
    while i < original.len()
        invariant
            i <= original.len(),
            forall|k: int| 0 <= k < i ==> occurrences(original@, (#[trigger] original@[k])@) == occurrences(remote@, original@[k]@),
        decreases original.len() - i,
    {
        if count_occurrences(original, &original[i]) != count_occurrences(remote, &original[i]) {
            assert(occurrences(original@, original@[i as int]@) != occurrences(remote@, original@[i as int]@));
            return false;
        }
        i += 1;
    }
    let mut j: usize = 0;
    while j < remote.len()
        invariant
            j <= remote.len(),
            forall|k: int| 0 <= k < original.len() ==> occurrences(original@, (#[trigger] original@[k])@) == occurrences(remote@, original@[k]@),
            forall|k: int| 0 <= k < j ==> occurrences(original@, (#[trigger] remote@[k])@) == occurrences(remote@, remote@[k]@),
        decreases remote.len() - j,
    {
        if count_occurrences(original, &remote[j]) != count_occurrences(remote, &remote[j]) {
            assert(occurrences(original@, remote@[j as int]@) != occurrences(remote@, remote@[j as int]@));
            return false;
        }
        j += 1;
    }
    assert forall|x: Seq<char>| #[trigger] occurrences(original@, x) == occurrences(remote@, x) by {
        lemma_occurrences_positive(original@, x);
        lemma_occurrences_positive(remote@, x);
        if occurrences(original@, x) > 0 {
            let k = choose|k: int| 0 <= k < original@.len() && (#[trigger] original@[k])@ == x;
            assert(occurrences(original@, original@[k]@) == occurrences(remote@, original@[k]@));
        } else if occurrences(remote@, x) > 0 {
            let k = choose|k: int| 0 <= k < remote@.len() && (#[trigger] remote@[k])@ == x;
            assert(occurrences(original@, remote@[k]@) == occurrences(remote@, remote@[k]@));
        }
    }
    true
}

/// Moves an item up to `AcceptRequired` through the states it passes on the way.
pub open spec fn accept_required_from(state: ItemState) -> Option<ItemState> {
    match state {
        ItemState::Eligible | ItemState::RetryableFailed | ItemState::PendingOwnerRequired
        | ItemState::PendingOwnerCreated => Some(ItemState::AcceptRequired),
        ItemState::AcceptRequired | ItemState::Accepting => Some(state),
        _ => None,
    }
}

/// The state an item holds once its pending-owner request exists, or `InvalidState` when it
/// cannot get there.
pub fn advance_to_accept_required(state: ItemState) -> (r: Result<ItemState, StepOutcome>)
    ensures
        match accept_required_from(state) {
            Some(next) => r == Ok::<ItemState, StepOutcome>(next),
            None => r == Err::<ItemState, StepOutcome>(StepOutcome::InvalidState),
        },
{
    match state {
        ItemState::Eligible | ItemState::RetryableFailed | ItemState::PendingOwnerRequired
        | ItemState::PendingOwnerCreated => Ok(ItemState::AcceptRequired),
        ItemState::AcceptRequired | ItemState::Accepting => Ok(state),
        _ => Err(StepOutcome::InvalidState),
    }
}

/// The way to `AcceptRequired` keeps to the item lifecycle: each of the steps it stands for
/// is an allowed move.
pub proof fn lemma_accept_path_is_lawful(state: ItemState)
    requires accept_required_from(state) is Some,
    ensures
        (state == ItemState::Eligible || state == ItemState::RetryableFailed) ==>
            state.allows(ItemState::PendingOwnerRequired),
        state.allows(ItemState::PendingOwnerRequired) || state == ItemState::PendingOwnerCreated
            || state == ItemState::AcceptRequired || state == ItemState::Accepting,
        ItemState::PendingOwnerRequired.allows(ItemState::PendingOwnerCreated),
        ItemState::PendingOwnerCreated.allows(ItemState::AcceptRequired),
{
}

} // verus!

verus! {

/// The first move for an item, before Drive is asked anything.
#[derive(Clone, Debug, PartialEq, Eq)]
pub enum ReconcileStart {
    /// Ownership already moved; the item goes to `Verifying` and is checked.
    VerifyOnly,
    /// The target still has to accept the pending-owner permission it holds.
    Accept { permission_id: String },
    /// The item waits for acceptance but the permission is not known: a permanent failure.
    MissingPermission,
    /// The source file has to be read first.
    ReadSource,
}

/// Where an item resumes.
pub fn plan_reconcile(item: &MigrationItem) -> (r: ReconcileStart)
    ensures
        r == match item.state {
            ItemState::Transferred | ItemState::Verifying => ReconcileStart::VerifyOnly,
            ItemState::AcceptRequired | ItemState::Accepting => match item.target_permission_id {
                Some(id) => ReconcileStart::Accept { permission_id: id.value },
                None => ReconcileStart::MissingPermission,
            },
            _ => ReconcileStart::ReadSource,
        },
{
    match item.state {
        ItemState::Transferred | ItemState::Verifying => ReconcileStart::VerifyOnly,
        ItemState::AcceptRequired | ItemState::Accepting => match &item.target_permission_id {
            Some(id) => ReconcileStart::Accept { permission_id: id.value.clone() },
            None => ReconcileStart::MissingPermission,
        },
        _ => ReconcileStart::ReadSource,
    }
}

/// What the source file says about the next move.
#[derive(Clone, Copy, Debug, PartialEq, Eq, Structural)]
pub enum SourceDecision {
    /// The file is trashed or in a shared drive: the item is skipped with this state.
    Skip(ItemState),
    /// The target owns the file and the source does not: only verification is left.
    AlreadyTransferred,
    /// The source no longer owns the file: a permanent failure.
    NotOwnedBySource,
    /// The target holds permission `i`, already pending owner or owner: accept it.
    AcceptExisting(usize),
    /// The target holds permission `i` with another role: make it pending owner.
    UpdateExisting(usize),
    /// The target holds no permission: create a pending-owner permission.
    CreatePendingOwner,
}

/// The rules that read the source file, in the order they apply.
pub open spec fn source_decision(
    snapshot: DriveFileSnapshot,
    source: Seq<char>,
    target: Seq<char>,
    email: Seq<char>,
    found: Option<usize>,
) -> SourceDecision {
    if snapshot.trashed {
        SourceDecision::Skip(ItemState::SkippedTrashed)
    } else if snapshot.drive_id is Some {
        SourceDecision::Skip(ItemState::SkippedSharedDrive)
    } else if owned_by(snapshot.owners@, target) && !owned_by(snapshot.owners@, source) {
        SourceDecision::AlreadyTransferred
    } else if !owned_by(snapshot.owners@, source) {
        SourceDecision::NotOwnedBySource
    } else {
        match found {
            Some(i) => if snapshot.permissions@[i as int].pending_owner
                || eq_ignore_ascii_case(snapshot.permissions@[i as int].role@, "owner"@) {
                SourceDecision::AcceptExisting(i)
            } else {
                SourceDecision::UpdateExisting(i)
            },
            None => SourceDecision::CreatePendingOwner,
        }
    }
}

/// On a file the source owns, not trashed and outside shared drives, the target's first
/// permission (by identifier, or by e-mail address in any case) decides the step: it is
/// accepted at once only when it is already pending owner or has the role `owner` (in any
/// case); any other role is first made pending owner; and with no such permission a
/// pending-owner permission is created.
pub proof fn lemma_source_step_follows_target_permission(
    snapshot: DriveFileSnapshot,
    source: Seq<char>,
    target: Seq<char>,
    email: Seq<char>,
    found: Option<usize>,
)
    requires
        !snapshot.trashed,
        snapshot.drive_id is None,
        exists|k: int| 0 <= k < snapshot.owners@.len() && (#[trigger] snapshot.owners@[k]).permission_id.value@ == source,
        match found {
            Some(i) => i < snapshot.permissions@.len()
                && (snapshot.permissions@[i as int].id@ == target
                    || (snapshot.permissions@[i as int].email_address matches Some(e) && eq_ignore_ascii_case(e@, email)))
                && forall|k: int| 0 <= k < i ==> !((#[trigger] snapshot.permissions@[k]).id@ == target
                    || (snapshot.permissions@[k].email_address matches Some(e) && eq_ignore_ascii_case(e@, email))),
            None => forall|k: int| 0 <= k < snapshot.permissions@.len() ==> !((#[trigger] snapshot.permissions@[k]).id@ == target
                || (snapshot.permissions@[k].email_address matches Some(e) && eq_ignore_ascii_case(e@, email))),
        },
    ensures
        ({
            let d = source_decision(snapshot, source, target, email,
                first_target_index(snapshot.permissions@, email, target));
            match found {
                Some(i) => {
                    &&& (snapshot.permissions@[i as int].pending_owner
                        || eq_ignore_ascii_case(snapshot.permissions@[i as int].role@, "owner"@))
                        ==> d == SourceDecision::AcceptExisting(i)
                    &&& !(snapshot.permissions@[i as int].pending_owner
                        || eq_ignore_ascii_case(snapshot.permissions@[i as int].role@, "owner"@))
                        ==> d == SourceDecision::UpdateExisting(i)
                },
                None => d == SourceDecision::CreatePendingOwner,
            }
        }),
{
    assert(first_target_permission(snapshot.permissions@, email, target, found));
    lemma_first_target_permission_unique(snapshot.permissions@, email, target, found);
    assert(owned_by(snapshot.owners@, source));
}

/// Decides the next move from the source file.
pub fn decide_on_source(
    snapshot: &DriveFileSnapshot,
    source_permission_id: &GooglePermissionId,
    target_permission_id: &GooglePermissionId,
    target_email: &str,
) -> (r: SourceDecision)
    ensures
        r == source_decision(*snapshot, source_permission_id.value@, target_permission_id.value@, target_email@,
            first_target_index(snapshot.permissions@, target_email@, target_permission_id.value@)),
{
    let found = find_target_permission(&snapshot.permissions, target_email, target_permission_id);
    if snapshot.trashed {
        return SourceDecision::Skip(ItemState::SkippedTrashed);
    }
    if snapshot.drive_id.is_some() {
        return SourceDecision::Skip(ItemState::SkippedSharedDrive);
    }
    let target_owns = is_owner(&snapshot.owners, target_permission_id);
    let source_owns = is_owner(&snapshot.owners, source_permission_id);
    if target_owns && !source_owns {
        return SourceDecision::AlreadyTransferred;
    }
    if !source_owns {
        return SourceDecision::NotOwnedBySource;
    }
    match found {
        Some(i) => {
            let role = chars_of(snapshot.permissions[i].role.as_str());
            let owner = chars_of("owner");
            if snapshot.permissions[i].pending_owner || chars_eq_ignore_ascii_case(&role, &owner) {
                SourceDecision::AcceptExisting(i)
            } else {
                SourceDecision::UpdateExisting(i)
            }
        },
        None => SourceDecision::CreatePendingOwner,
    }
}

/// What the target's view of the file says during verification.
#[derive(Clone, Copy, Debug, PartialEq, Eq, Structural)]
pub enum VerifyDecision {
    /// The file was trashed meanwhile: the item is skipped.
    Trashed,
    /// The target owns the file, the source does not, and the parents are unchanged.
    Confirmed,
    /// Neither account owns the file: a permanent failure.
    Lost,
    /// Ownership has not settled yet: look again after a pause.
    Pending,
}

pub open spec fn verify_decision(snapshot: DriveFileSnapshot, original_parents: Seq<String>, source: Seq<char>, target: Seq<char>) -> VerifyDecision {
    let target_owns = owned_by(snapshot.owners@, target);
    let source_owns = owned_by(snapshot.owners@, source);
    if snapshot.trashed {
        VerifyDecision::Trashed
    } else if target_owns && !source_owns && same_parent_sets(original_parents, snapshot.parents@) {
        VerifyDecision::Confirmed
    } else if !target_owns && !source_owns {
        VerifyDecision::Lost
    } else {
        VerifyDecision::Pending
    }
}

/// Verification confirms a transfer exactly when the file is not trashed, one of its
/// owners is the target, none is the source, and its parents are the original ones; a
/// trashed file is always skipped, whoever owns it.
pub proof fn lemma_verification_confirms_only_a_settled_transfer(
    snapshot: DriveFileSnapshot,
    original_parents: Seq<String>,
    source: Seq<char>,
    target: Seq<char>,
)
    ensures
        (verify_decision(snapshot, original_parents, source, target) == VerifyDecision::Confirmed) <==> {
            &&& !snapshot.trashed
            &&& exists|k: int| 0 <= k < snapshot.owners@.len() && (#[trigger] snapshot.owners@[k]).permission_id.value@ == target
            &&& forall|k: int| 0 <= k < snapshot.owners@.len() ==> (#[trigger] snapshot.owners@[k]).permission_id.value@ != source
            &&& same_parent_sets(original_parents, snapshot.parents@)
        },
        snapshot.trashed ==> verify_decision(snapshot, original_parents, source, target) == VerifyDecision::Trashed,
{
}

/// Reads the outcome of a transfer from the target's view of the file.
pub fn decide_verification(
    snapshot: &DriveFileSnapshot,
    original_parents: &Vec<String>,
    source_permission_id: &GooglePermissionId,
    target_permission_id: &GooglePermissionId,
) -> (r: VerifyDecision)
    ensures r == verify_decision(*snapshot, original_parents@, source_permission_id.value@, target_permission_id.value@),
{
    if snapshot.trashed {
        return VerifyDecision::Trashed;
    }
    let target_owns = is_owner(&snapshot.owners, target_permission_id);
    let source_owns = is_owner(&snapshot.owners, source_permission_id);
    let parents_ok = same_parents(original_parents, &snapshot.parents);
    if target_owns && !source_owns && parents_ok {
        VerifyDecision::Confirmed
    } else if !target_owns && !source_owns {
        VerifyDecision::Lost
    } else {
        VerifyDecision::Pending
    }
}

/// While ownership has not settled: the pause before looking again, or `None` when the six
/// retries are spent and the item is left retryable.
pub fn verification_pause(attempt: u32, jitter_secs: u64) -> (r: Option<u64>)
    ensures r == if attempt < MAX_RETRY_ATTEMPTS { Some(backoff_secs(attempt, jitter_secs)) } else { None::<u64> },
{
    if attempt >= MAX_RETRY_ATTEMPTS { None } else { Some(backoff_delay_secs(attempt, jitter_secs)) }
}

/// The state an item ends in after an unsuccessful step, and how the step counts.
pub open spec fn finalize_spec(state: ItemState, err: StepOutcome) -> (Option<ItemState>, StepError) {
    match err {
        StepOutcome::Halt(halt) => (None, StepError::Halt(halt)),
        StepOutcome::Store(e) => (None, StepError::Fatal(TransferError::Store(e))),
        StepOutcome::InvalidState => (None, StepError::Fatal(TransferError::InvalidItemState)),
        StepOutcome::Permanent => if state.terminal() {
            (None, StepError::Failed)
        } else if state.allows(ItemState::PermanentFailed) {
            (Some(ItemState::PermanentFailed), StepError::Failed)
        } else {
            (None, StepError::Fatal(TransferError::InvalidItemState))
        },
        StepOutcome::Retryable => if state.terminal() {
            (None, StepError::Failed)
        } else if state.allows(ItemState::RetryableFailed) {
            (Some(ItemState::RetryableFailed), StepError::Failed)
        } else {
            (None, StepError::Fatal(TransferError::InvalidItemState))
        },
    }
}

/// How a failed step leaves its item: a halt changes no item and stops the run with that
/// halt; a permanent failure of an unfinished item past discovery marks it
/// `PermanentFailed`, and a passing one marks it `RetryableFailed`, both counting as a
/// failed item.
pub proof fn lemma_failed_steps_mark_their_items(state: ItemState, err: StepOutcome)
    ensures
        err matches StepOutcome::Halt(h) ==> finalize_spec(state, err) == (None::<ItemState>, StepError::Halt(h)),
        (!state.terminal() && state != ItemState::Discovered && err == StepOutcome::Permanent)
            ==> finalize_spec(state, err) == (Some(ItemState::PermanentFailed), StepError::Failed),
        (!state.terminal() && state != ItemState::Discovered && err == StepOutcome::Retryable)
            ==> finalize_spec(state, err) == (Some(ItemState::RetryableFailed), StepError::Failed),
{
}

/// Ends an unsuccessful step: the new state to store, if any, and the failure to report.
pub fn finalize_outcome(state: ItemState, err: StepOutcome) -> (r: (Option<ItemState>, StepError))
    ensures r == finalize_spec(state, err),
{
    match err {
        StepOutcome::Halt(halt) => (None, StepError::Halt(halt)),
        StepOutcome::Store(e) => (None, StepError::Fatal(TransferError::Store(e))),
        StepOutcome::InvalidState => (None, StepError::Fatal(TransferError::InvalidItemState)),
        StepOutcome::Permanent => {
            if state.is_terminal() {
                (None, StepError::Failed)
            } else if state.can_transition_to(ItemState::PermanentFailed) {
                (Some(ItemState::PermanentFailed), StepError::Failed)
            } else {
                (None, StepError::Fatal(TransferError::InvalidItemState))
            }
        },
        StepOutcome::Retryable => {
            if state.is_terminal() {
                (None, StepError::Failed)
            } else if state.can_transition_to(ItemState::RetryableFailed) {
                (Some(ItemState::RetryableFailed), StepError::Failed)
            } else {
                (None, StepError::Fatal(TransferError::InvalidItemState))
            }
        },
    }
}

/// A failed step never rewrites an item that has already finished.
pub proof fn lemma_finalize_keeps_terminal(state: ItemState, err: StepOutcome)
    requires state.terminal(),
    ensures finalize_spec(state, err).0 is None,
{
}

/// What a restart stores for an item left half done.
#[derive(Clone, Debug, PartialEq, Eq)]
pub struct CheckpointUpdate {
    pub state: ItemState,
    pub target_permission_id: Option<String>,
}

/// Restarts read half-done items with the target's token once ownership may have moved.
pub fn reads_with_target_token(state: ItemState) -> (r: bool)
    ensures r == (state == ItemState::Transferred || state == ItemState::Verifying),
{
    match state {
        ItemState::Transferred | ItemState::Verifying => true,
        _ => false,
    }
}

/// The rules for a half-done item read back after a restart; nothing is changed on Drive.
pub open spec fn checkpoint_update(
    state: ItemState,
    fetched: Result<DriveFileSnapshot, DriveTransferError>,
    stored_permission: Option<String>,
    source: Seq<char>,
    target: Seq<char>,
    email: Seq<char>,
) -> Result<(ItemState, Option<Seq<char>>), TransferError> {
    let keep = match stored_permission { Some(p) => Some(p@), None => None::<Seq<char>> };
    match fetched {
        Err(DriveTransferError::NotFound) => if state.allows(ItemState::PermanentFailed) {
            Ok((ItemState::PermanentFailed, keep))
        } else {
            Err(TransferError::InvalidItemState)
        },
        Err(e) => Err(TransferError::Drive(e)),
        Ok(snapshot) => if snapshot.trashed {
            if state.allows(ItemState::SkippedTrashed) { Ok((ItemState::SkippedTrashed, keep)) } else { Err(TransferError::InvalidItemState) }
        } else if owned_by(snapshot.owners@, target) && !owned_by(snapshot.owners@, source) {
            let next = if state == ItemState::PendingOwnerCreated || state == ItemState::Accepting { ItemState::Verifying } else { state };
            if state.allows(next) { Ok((next, keep)) } else { Err(TransferError::InvalidItemState) }
        } else {
            match first_target_index(snapshot.permissions@, email, target) {
                Some(i) => {
                    let p = snapshot.permissions@[i as int];
                    if p.pending_owner && state == ItemState::PendingOwnerCreated {
                        Ok((ItemState::AcceptRequired, Some(p.id@)))
                    } else {
                        Ok((state, Some(p.id@)))
                    }
                },
                None => Ok((state, keep)),
            }
        },
    }
}

/// Reconciles one half-done item with what Drive reports after a restart.
pub fn reconcile_checkpoint_item(
    item: &MigrationItem,
    fetched: Result<DriveFileSnapshot, DriveTransferError>,
    source_permission_id: &GooglePermissionId,
    target_permission_id: &GooglePermissionId,
    target_email: &str,
) -> (r: Result<CheckpointUpdate, TransferError>)
    ensures
        match (r, checkpoint_update(
                item.state, fetched,
                match item.target_permission_id { Some(p) => Some(p.value), None => None::<String> },
                source_permission_id.value@, target_permission_id.value@, target_email@,
            )) {
                (Ok(u), Ok((state, perm))) => u.state == state
                    && match (u.target_permission_id, perm) {
                        (Some(a), Some(b)) => a@ == b,
                        (None, None) => true,
                        _ => false,
                    },
                (Err(a), Err(b)) => a == b,
                _ => false,
            },
{
    let state = item.state;
    let keep: Option<String> = match &item.target_permission_id {
        Some(p) => Some(p.value.clone()),
        None => None,
    };
    let snapshot = match fetched {
        Ok(snapshot) => snapshot,
        Err(DriveTransferError::NotFound) => {
            return if state.can_transition_to(ItemState::PermanentFailed) {
                Ok(CheckpointUpdate { state: ItemState::PermanentFailed, target_permission_id: keep })
            } else {
                Err(TransferError::InvalidItemState)
            };
        },
        Err(e) => return Err(TransferError::Drive(e)),
    };
    let found = find_target_permission(&snapshot.permissions, target_email, target_permission_id);
    if snapshot.trashed {
        return if state.can_transition_to(ItemState::SkippedTrashed) {
            Ok(CheckpointUpdate { state: ItemState::SkippedTrashed, target_permission_id: keep })
        } else {
            Err(TransferError::InvalidItemState)
        };
    }
    let target_owns = is_owner(&snapshot.owners, target_permission_id);
    let source_owns = is_owner(&snapshot.owners, source_permission_id);
    if target_owns && !source_owns {
        let next = match state {
            ItemState::PendingOwnerCreated | ItemState::Accepting => ItemState::Verifying,
            _ => state,
        };
        return if state.can_transition_to(next) {
            Ok(CheckpointUpdate { state: next, target_permission_id: keep })
        } else {
            Err(TransferError::InvalidItemState)
        };
    }
    match found {
        Some(i) => {
            let id = snapshot.permissions[i].id.clone();
            if snapshot.permissions[i].pending_owner && state == ItemState::PendingOwnerCreated {
                Ok(CheckpointUpdate { state: ItemState::AcceptRequired, target_permission_id: Some(id) })
            } else {
                Ok(CheckpointUpdate { state, target_permission_id: Some(id) })
            }
        },
        None => Ok(CheckpointUpdate { state, target_permission_id: keep }),
    }
}

} // verus!

verus! {

/// Stops a run before its next item: cancellation first, then pause.
pub fn stop_requested(cancel: Option<bool>, pause: Option<bool>) -> (r: Option<TransferHalt>)
    ensures
        r == if cancel == Some(true) {
            Some(TransferHalt::Cancelled)
        } else if pause == Some(true) {
            Some(TransferHalt::Paused)
        } else {
            None::<TransferHalt>
        },
{
    if cancel == Some(true) {
        return Some(TransferHalt::Cancelled);
    }
    if pause == Some(true) {
        return Some(TransferHalt::Paused);
    }
    None
}

/// How one item of a run ended.
#[derive(Clone, Debug, PartialEq, Eq)]
pub enum ItemResult {
    Finished(ItemState),
    Failed(StepError),
}

/// What a run does after one item.
#[derive(Clone, Debug, PartialEq, Eq)]
pub enum RunStep {
    Continue { verified: usize, failed: usize },
    Stop(TransferHalt),
    Abort(TransferError),
}

/// Counts one item of a run: a verified item and a failed item are counted, a halt stops the
/// run, and a fatal error aborts it.
pub fn count_item(verified: usize, failed: usize, result: ItemResult) -> (r: RunStep)
    requires verified < usize::MAX, failed < usize::MAX,
    ensures
        r == match result {
            ItemResult::Finished(ItemState::Verified) => RunStep::Continue { verified: (verified + 1) as usize, failed },
            ItemResult::Finished(_) => RunStep::Continue { verified, failed },
            ItemResult::Failed(StepError::Halt(halt)) => RunStep::Stop(halt),
            ItemResult::Failed(StepError::Failed) => RunStep::Continue { verified, failed: (failed + 1) as usize },
            ItemResult::Failed(StepError::Fatal(err)) => RunStep::Abort(err),
        },
{
    match result {
        ItemResult::Finished(ItemState::Verified) => RunStep::Continue { verified: verified + 1, failed },
        ItemResult::Finished(_) => RunStep::Continue { verified, failed },
        ItemResult::Failed(StepError::Halt(halt)) => RunStep::Stop(halt),
        ItemResult::Failed(StepError::Failed) => RunStep::Continue { verified, failed: failed + 1 },
        ItemResult::Failed(StepError::Fatal(err)) => RunStep::Abort(err),
    }
}

/// The change a halted run makes to its job.
#[derive(Clone, Debug, PartialEq, Eq)]
pub enum JobTransition {
    CompleteCanary,
    CompleteTransfer { had_errors: bool },
    PauseSharingRateLimit { message: String },
    WaitForQuota { message: String },
    RequireAuth { message: String },
    PauseTransfer,
    Cancel,
}

/// What a halt means for the job: an exhausted canary waits for review, an exhausted bulk run
/// completes (with errors when an item failed), and the other halts pause or cancel the job.
pub fn job_transition_for(status: JobStatus, halt: &TransferHalt) -> (r: JobTransition)
    ensures
        r == match *halt {
            TransferHalt::Exhausted { failed, .. } => if status == JobStatus::RunningCanary {
                JobTransition::CompleteCanary
            } else {
                JobTransition::CompleteTransfer { had_errors: failed > 0 }
            },
            TransferHalt::SharingRateLimited { message } => JobTransition::PauseSharingRateLimit { message },
            TransferHalt::WaitingForQuota { message } => JobTransition::WaitForQuota { message },
            TransferHalt::AuthRequired { message } => JobTransition::RequireAuth { message },
            TransferHalt::Paused => JobTransition::PauseTransfer,
            TransferHalt::Cancelled => JobTransition::Cancel,
        },
{
    match halt {
        TransferHalt::Exhausted { failed, .. } => {
            if status == JobStatus::RunningCanary {
                JobTransition::CompleteCanary
            } else {
                JobTransition::CompleteTransfer { had_errors: *failed > 0 }
            }
        },
        TransferHalt::SharingRateLimited { message } => JobTransition::PauseSharingRateLimit { message: message.clone() },
        TransferHalt::WaitingForQuota { message } => JobTransition::WaitForQuota { message: message.clone() },
        TransferHalt::AuthRequired { message } => JobTransition::RequireAuth { message: message.clone() },
        TransferHalt::Paused => JobTransition::PauseTransfer,
        TransferHalt::Cancelled => JobTransition::Cancel,
    }
}

/// Which items a canary run takes.
#[derive(Clone, Debug, PartialEq, Eq)]
pub enum CanaryBatch {
    /// Indices into the stored canary cohort: its unfinished members.
    Cohort(Vec<usize>),
    /// Indices into the transferable items: those already past `Eligible`.
    InProgress(Vec<usize>),
    /// The first `n` transferable items, selected now.
    Fresh(usize),
}

/// The indices `i` of `s`, in order, for which `p(s[i])` holds.
pub open spec fn indices_where(s: Seq<MigrationItem>, p: spec_fn(MigrationItem) -> bool) -> Seq<usize>
    decreases s.len(),
{
    if s.len() == 0 {
        Seq::empty()
    } else {
        let rest = indices_where(s.drop_last(), p);
        if p(s.last()) { rest.push((s.len() - 1) as usize) } else { rest }
    }
}

/// The positions of a stored cohort's members that have not finished.
pub open spec fn unfinished_members(cohort: Seq<MigrationItem>) -> Seq<usize> {
    indices_where(cohort, |m: MigrationItem| !m.state.terminal())
}

/// The positions of the transferable items already past `Eligible`.
pub open spec fn started_items(items: Seq<MigrationItem>) -> Seq<usize> {
    indices_where(items, |m: MigrationItem| m.state != ItemState::Eligible)
}

proof fn lemma_indices_where_members(s: Seq<MigrationItem>, p: spec_fn(MigrationItem) -> bool)
    requires s.len() <= usize::MAX,
    ensures
        forall|k: int| 0 <= k < indices_where(s, p).len()
            ==> (#[trigger] indices_where(s, p)[k]) < s.len() && p(s[indices_where(s, p)[k] as int]),
        forall|j: int| 0 <= j < s.len() && p(#[trigger] s[j]) ==> indices_where(s, p).contains(j as usize),
        forall|a: int, b: int| 0 <= a < b < indices_where(s, p).len()
            ==> #[trigger] indices_where(s, p)[a] < #[trigger] indices_where(s, p)[b],
    decreases s.len(),
{
    if s.len() > 0 {
        let rest = s.drop_last();
        lemma_indices_where_members(rest, p);
        let r = indices_where(s, p);
        let rr = indices_where(rest, p);
        let last = (s.len() - 1) as usize;
        assert(last as int == s.len() - 1);
        if p(s.last()) {
            assert(r == rr.push(last));
        } else {
            assert(r == rr);
        }
        assert forall|k: int| 0 <= k < r.len() implies (#[trigger] r[k]) < s.len() && p(s[r[k] as int]) by {
            if k < rr.len() {
                assert(r[k] == rr[k]);
                assert(rest[rr[k] as int] == s[rr[k] as int]);
            }
        }
        assert forall|j: int| 0 <= j < s.len() && p(#[trigger] s[j]) implies r.contains(j as usize) by {
            if j < s.len() - 1 {
                assert(rest[j] == s[j]);
                assert(rr.contains(j as usize));
                let k = choose|k: int| 0 <= k < rr.len() && rr[k] == j as usize;
                assert(r[k] == rr[k]);
            } else {
                assert(r[r.len() - 1] == j as usize);
            }
        }
        assert forall|a: int, b: int| 0 <= a < b < r.len() implies #[trigger] r[a] < #[trigger] r[b] by {
            if b < rr.len() {
                assert(r[a] == rr[a] && r[b] == rr[b]);
            } else {
                assert(r[a] == rr[a]);
                assert(rr[a] < rest.len());
            }
        }
    }
}

/// A resumed canary takes exactly the cohort members that have not finished, each once and
/// in cohort order: a verified, failed, cancelled or skipped member is never taken again,
/// and every other member is.
pub proof fn lemma_cohort_batch_is_its_unfinished_members(cohort: Seq<MigrationItem>)
    requires cohort.len() <= usize::MAX,
    ensures
        forall|k: int| 0 <= k < unfinished_members(cohort).len() ==> (#[trigger] unfinished_members(cohort)[k]) < cohort.len()
            && !cohort[unfinished_members(cohort)[k] as int].state.terminal(),
        forall|j: int| 0 <= j < cohort.len() && !(#[trigger] cohort[j]).state.terminal()
            ==> unfinished_members(cohort).contains(j as usize),
        forall|a: int, b: int| 0 <= a < b < unfinished_members(cohort).len()
            ==> #[trigger] unfinished_members(cohort)[a] < #[trigger] unfinished_members(cohort)[b],
{
    lemma_indices_where_members(cohort, |m: MigrationItem| !m.state.terminal());
}

/// The items in progress are exactly those already past `Eligible`, each once and in order.
pub proof fn lemma_started_items_are_past_eligible(items: Seq<MigrationItem>)
    requires items.len() <= usize::MAX,
    ensures
        forall|k: int| 0 <= k < started_items(items).len() ==> (#[trigger] started_items(items)[k]) < items.len()
            && items[started_items(items)[k] as int].state != ItemState::Eligible,
        forall|j: int| 0 <= j < items.len() && (#[trigger] items[j]).state != ItemState::Eligible
            ==> started_items(items).contains(j as usize),
        forall|a: int, b: int| 0 <= a < b < started_items(items).len()
            ==> #[trigger] started_items(items)[a] < #[trigger] started_items(items)[b],
{
    lemma_indices_where_members(items, |m: MigrationItem| m.state != ItemState::Eligible);
}

fn collect_unfinished(items: &Vec<MigrationItem>) -> (r: Vec<usize>)
    ensures r@ == indices_where(items@, |m: MigrationItem| !m.state.terminal()),
{
    let mut out: Vec<usize> = Vec::new();
    let mut i: usize = 0;
    while i < items.len()
        invariant
            i <= items.len(),
            out@ == indices_where(items@.take(i as int), |m: MigrationItem| !m.state.terminal()),
        decreases items.len() - i,
    {
        assert(items@.take(i + 1).drop_last() =~= items@.take(i as int));
        if !items[i].state.is_terminal() {
            out.push(i);
        }
        i += 1;
    }
    assert(items@.take(items.len() as int) =~= items@);
    out
}

fn collect_started(items: &Vec<MigrationItem>) -> (r: Vec<usize>)
    ensures r@ == indices_where(items@, |m: MigrationItem| m.state != ItemState::Eligible),
{
    let mut out: Vec<usize> = Vec::new();
    let mut i: usize = 0;
    while i < items.len()
        invariant
            i <= items.len(),
            out@ == indices_where(items@.take(i as int), |m: MigrationItem| m.state != ItemState::Eligible),
        decreases items.len() - i,
    {
        assert(items@.take(i + 1).drop_last() =~= items@.take(i as int));
        if items[i].state != ItemState::Eligible {
            out.push(i);
        }
        i += 1;
    }
    assert(items@.take(items.len() as int) =~= items@);
    out
}

/// Chooses a canary batch: an existing cohort is resumed with its unfinished members; else
/// items already in progress are taken; else the first `canary_size` items are selected.
pub fn plan_canary_batch(cohort: &Vec<MigrationItem>, items: &Vec<MigrationItem>, canary_size: usize) -> (r: CanaryBatch)
    ensures
        cohort.len() > 0 ==> (r matches CanaryBatch::Cohort(v) && v@ == unfinished_members(cohort@)),
        cohort.len() == 0 && started_items(items@).len() > 0 ==>
            (r matches CanaryBatch::InProgress(v) && v@ == started_items(items@)),
        cohort.len() == 0 && started_items(items@).len() == 0 ==>
            r == CanaryBatch::Fresh(if canary_size < items.len() { canary_size } else { items.len() }),
{
    if cohort.len() > 0 {
        return CanaryBatch::Cohort(collect_unfinished(cohort));
    }
    let started = collect_started(items);
    if started.len() > 0 {
        return CanaryBatch::InProgress(started);
    }
    CanaryBatch::Fresh(if canary_size < items.len() { canary_size } else { items.len() })
}

/// After a canary that ran out of items: when every transferable item belonged to the canary,
/// the job completes at once, with errors when a cohort member failed.
pub fn canary_completes_job(remaining: &Vec<MigrationItem>, cohort: &Vec<MigrationItem>) -> (r: Option<bool>)
    ensures
        r == if forall|i: int| 0 <= i < remaining.len() ==> (#[trigger] remaining@[i]).canary_selected {
            Some(exists|j: int| 0 <= j < cohort.len() && ((#[trigger] cohort@[j]).state == ItemState::RetryableFailed || cohort@[j].state == ItemState::PermanentFailed))
        } else {
            None::<bool>
        },
{
    let mut i: usize = 0;
    while i < remaining.len()
        invariant
            i <= remaining.len(),
            forall|k: int| 0 <= k < i ==> (#[trigger] remaining@[k]).canary_selected,
        decreases remaining.len() - i,
    {
        if !remaining[i].canary_selected {
            return None;
        }
        i += 1;
    }
    let mut j: usize = 0;
    while j < cohort.len()
        invariant
            j <= cohort.len(),
            forall|k: int| 0 <= k < remaining.len() ==> (#[trigger] remaining@[k]).canary_selected,
            forall|k: int| 0 <= k < j ==> !((#[trigger] cohort@[k]).state == ItemState::RetryableFailed || cohort@[k].state == ItemState::PermanentFailed),
        decreases cohort.len() - j,
    {
        if cohort[j].state == ItemState::RetryableFailed || cohort[j].state == ItemState::PermanentFailed {
            assert(cohort@[j as int].state == ItemState::RetryableFailed || cohort@[j as int].state == ItemState::PermanentFailed);
            return Some(true);
        }
        j += 1;
    }
    Some(false)
}

} // verus!
