//! Scanning the folders of a migration job: what one listed page adds to the item store
//! and to the work queue, how roots seed a fresh scan, and how the scan ends.

use vstd::prelude::*;
use crate::drive::{DriveFolderLookupError, DriveTreeError};
use crate::classifier::{classification, classify_drive_child, ScanDisposition};
use crate::domain::{GooglePermissionId, JobId, MigrationRoot};
use crate::drive::{DriveChild, DriveChildPage, FOLDER_MIME_TYPE, SCAN_CHECKPOINT_BATCH_SIZE};
use crate::item::{ItemId, ItemState, MigrationItem, ScanCheckpoint};
use crate::item_store::{ItemBatchCommit, ItemStoreError};
use crate::text::str_eq;

verus! {

/// How a scan run ended without an error.
#[derive(Clone, Copy, Debug, PartialEq, Eq, Structural)]
pub enum ScanOutcome {
    Completed,
    Paused,
}

/// Errors that stop a scan run.
#[derive(Clone, Debug, PartialEq, Eq)]
pub enum ScanError {
    RateLimited,
    Drive(DriveTreeError),
    Store(ItemStoreError),
}

impl ScanError {
    pub open spec fn message(&self) -> Seq<char> {
        match self {
            ScanError::RateLimited => "Google Drive rate limit reached during scan"@,
            ScanError::Drive(err) => "Drive listing failed: "@ + err.message(),
            ScanError::Store(err) => "scan persistence failed: "@ + err.message(),
        }
    }

    /// The message shown for this error.
    pub fn to_string(&self) -> (r: String)
        ensures r@ == self.message(),
    {
        match self {
            ScanError::RateLimited => String::from_str("Google Drive rate limit reached during scan"),
            ScanError::Drive(err) => String::from_str("Drive listing failed: ").concat(err.to_string().as_str()),
            ScanError::Store(err) => String::from_str("scan persistence failed: ").concat(err.to_string().as_str()),
        }
    }

    pub open spec fn of_drive(err: DriveTreeError) -> ScanError {
        match err {
            DriveFolderLookupError::RateLimited => ScanError::RateLimited,
            other => ScanError::Drive(other),
        }
    }

    /// A listing error as a scan error: a rate limit is its own kind, anything else is
    /// carried as it is.
    pub fn from_drive(err: DriveTreeError) -> (r: ScanError)
        ensures r == Self::of_drive(err),
    {
        match err {
            DriveFolderLookupError::RateLimited => ScanError::RateLimited,
            other => ScanError::Drive(other),
        }
    }

    /// A store error as a scan error.
    pub fn from_store(err: ItemStoreError) -> (r: ScanError)
        ensures r == ScanError::Store(err),
    {
        ScanError::Store(err)
    }
}


/// A folder page still to be listed.
#[derive(Clone, Debug, PartialEq, Eq)]
pub struct WorkItem {
    pub folder_id: String,
    pub page_token: Option<String>,
    pub depth: i64,
}

/// The views of a sequence of strings.
pub open spec fn views(s: Seq<String>) -> Seq<Seq<char>> {
    s.map_values(|x: String| x@)
}

/// The identifiers of a sequence of children.
pub open spec fn child_ids(files: Seq<DriveChild>) -> Seq<Seq<char>> {
    files.map_values(|c: DriveChild| c.id@)
}

/// The children of `files` met for the first time, in order: neither in `seen` nor
/// earlier in `files`.
pub open spec fn discovered(seen: Seq<Seq<char>>, files: Seq<DriveChild>) -> Seq<DriveChild>
    decreases files.len(),
{
    if files.len() == 0 {
        Seq::empty()
    } else {
        let earlier = discovered(seen, files.drop_last());
        if (seen + child_ids(earlier)).contains(files.last().id@) {
            earlier
        } else {
            earlier.push(files.last())
        }
    }
}

/// The permission identifier of the first listed owner.
pub open spec fn first_owner(child: DriveChild) -> Option<GooglePermissionId> {
    if child.owners@.len() > 0 { Some(child.owners@[0].permission_id) } else { None }
}

/// The item a discovered child becomes, one level below the listed folder.
pub open spec fn discovered_item(
    job_id: JobId,
    id: ItemId,
    child: DriveChild,
    depth: i64,
    source: Seq<char>,
    target: Seq<char>,
    now: String,
) -> MigrationItem {
    MigrationItem {
        id,
        job_id,
        file_id: child.id,
        name: child.name,
        mime_type: child.mime_type,
        depth: (depth + 1) as i64,
        original_parent_ids: child.parents,
        original_owner_permission_id: first_owner(child),
        quota_bytes_used: child.quota_bytes_used,
        target_permission_id: None,
        state: classification(child, source, target).state(),
        canary_selected: false,
        created_at: now,
        updated_at: now,
    }
}

/// The items of the discovered children; the `j`-th takes the `j`-th fresh identifier.
pub open spec fn discovered_items(
    job_id: JobId,
    ids: Seq<ItemId>,
    children: Seq<DriveChild>,
    depth: i64,
    source: Seq<char>,
    target: Seq<char>,
    now: String,
) -> Seq<MigrationItem> {
    Seq::new(children.len(), |j: int| discovered_item(job_id, ids[j], children[j], depth, source, target, now))
}

/// A checkpoint for a folder to list from its first page.
pub open spec fn folder_checkpoint(job_id: JobId, child: DriveChild, depth: i64) -> ScanCheckpoint {
    ScanCheckpoint { job_id, folder_id: child.id, page_token: None, depth: (depth + 1) as i64 }
}

/// Checkpoints for the discovered children that are eligible folders, in order.
pub open spec fn recursing(
    job_id: JobId,
    children: Seq<DriveChild>,
    depth: i64,
    source: Seq<char>,
    target: Seq<char>,
) -> Seq<ScanCheckpoint>
    decreases children.len(),
{
    if children.len() == 0 {
        Seq::empty()
    } else {
        let earlier = recursing(job_id, children.drop_last(), depth, source, target);
        if classification(children.last(), source, target) == ScanDisposition::EligibleFolder {
            earlier.push(folder_checkpoint(job_id, children.last(), depth))
        } else {
            earlier
        }
    }
}

proof fn lemma_recursing_len(job_id: JobId, children: Seq<DriveChild>, depth: i64, source: Seq<char>, target: Seq<char>)
    ensures recursing(job_id, children, depth, source, target).len() <= children.len(),
    decreases children.len(),
{
    if children.len() > 0 {
        lemma_recursing_len(job_id, children.drop_last(), depth, source, target);
    }
}

fn contains_id(visited: &Vec<String>, id: &str) -> (r: bool)
    ensures r == views(visited@).contains(id@),
{
    let mut i: usize = 0;
    while i < visited.len()
        invariant
            i <= visited.len(),
            forall|k: int| 0 <= k < i ==> (#[trigger] visited@[k])@ != id@,
        decreases visited.len() - i,
    {
        if str_eq(visited[i].as_str(), id) {
            assert(views(visited@)[i as int] == id@);
            return true;
        }
        i += 1;
    }
    assert forall|k: int| 0 <= k < views(visited@).len() implies views(visited@)[k] != id@ by {
        assert(views(visited@)[k] == visited@[k]@);
    }
    false
}

/// Takes the children of one page in order, records each new identifier in `visited`,
/// and builds the items and the folder checkpoints of the children met for the first time.
fn discover_children(
    visited: &mut Vec<String>,
    files: Vec<DriveChild>,
    job_id: JobId,
    source: &GooglePermissionId,
    target: &GooglePermissionId,
    depth: i64,
    ids: &Vec<ItemId>,
    now: &String,
) -> (r: (Vec<MigrationItem>, Vec<ScanCheckpoint>))
    requires
        ids@.len() >= files@.len(),
        depth < i64::MAX,
    ensures
        views(final(visited)@) == views(old(visited)@) + child_ids(discovered(views(old(visited)@), files@)),
        r.0@ == discovered_items(job_id, ids@, discovered(views(old(visited)@), files@), depth, source.value@, target.value@, *now),
        r.1@ == recursing(job_id, discovered(views(old(visited)@), files@), depth, source.value@, target.value@),
{
    let ghost all = files@;
    let ghost seen0 = views(visited@);
    let mut files = files;
    let mut items: Vec<MigrationItem> = Vec::new();
    let mut folders: Vec<ScanCheckpoint> = Vec::new();
    let mut i: usize = 0;
    let total: usize = files.len();
    assert(all.skip(0) =~= all);
    while files.len() > 0
        invariant
            i <= all.len(),
            all.len() == total,
            files@ == all.skip(i as int),
            ids@.len() >= all.len(),
            depth < i64::MAX,
            views(visited@) == seen0 + child_ids(discovered(seen0, all.take(i as int))),
            items@ == discovered_items(job_id, ids@, discovered(seen0, all.take(i as int)), depth, source.value@, target.value@, *now),
            folders@ == recursing(job_id, discovered(seen0, all.take(i as int)), depth, source.value@, target.value@),
            discovered(seen0, all.take(i as int)).len() <= i,
        decreases files.len(),
    {
        let ghost before = discovered(seen0, all.take(i as int));
        let child = files.remove(0);
        assert(child == all[i as int]);
        assert(all.take(i + 1).drop_last() =~= all.take(i as int));
        assert(all.take(i + 1).last() == child);
        assert(files@ =~= all.skip(i + 1));
        let seen = contains_id(visited, child.id.as_str());
        if !seen {
            let ghost after = before.push(child);
            let ghost old_visited = visited@;
            visited.push(child.id.clone());
            assert(views(visited@) =~= views(old_visited).push(child.id@));
            assert(child_ids(after) =~= child_ids(before).push(child.id@));
            let disposition = classify_drive_child(&child, source, target);
            let recurse = disposition.should_recurse();
            let state = disposition.item_state();
            let checkpoint_id = child.id.clone();
            let item_id = ids[items.len()];
            let ghost spec_item = discovered_item(job_id, item_id, child, depth, source.value@, target.value@, *now);
            let DriveChild { id, name, mime_type, parents, owners, quota_bytes_used, .. } = child;
            let mut owners = owners;
            let owner = if owners.len() > 0 { Some(owners.remove(0).permission_id) } else { None };
            let item = MigrationItem {
                id: item_id,
                job_id,
                file_id: id,
                name,
                mime_type,
                depth: depth + 1,
                original_parent_ids: parents,
                original_owner_permission_id: owner,
                quota_bytes_used,
                target_permission_id: None,
                state,
                canary_selected: false,
                created_at: now.clone(),
                updated_at: now.clone(),
            };
            assert(item == spec_item);
            items.push(item);
            assert(items@ =~= discovered_items(job_id, ids@, after, depth, source.value@, target.value@, *now));
            if recurse {
                folders.push(ScanCheckpoint { job_id, folder_id: checkpoint_id, page_token: None, depth: depth + 1 });
            }
            assert(after.drop_last() =~= before);
            assert(folders@ =~= recursing(job_id, after, depth, source.value@, target.value@));
        }
        i += 1;
    }
    assert(all.take(all.len() as int) =~= all);
    (items, folders)
}


pub open spec fn min_int(a: int, b: int) -> int {
    if a <= b { a } else { b }
}

/// `batches` cut `items` into runs of the checkpoint batch size, in order, and carry the
/// folder checkpoints alongside in runs of the same size; no batch deletes a checkpoint.
pub open spec fn batched(batches: Seq<ItemBatchCommit>, items: Seq<MigrationItem>, folders: Seq<ScanCheckpoint>) -> bool {
    let n = items.len() as int;
    let f = folders.len() as int;
    &&& n <= 100 * batches.len()
    &&& (batches.len() == 0 || 100 * (batches.len() - 1) < n)
    &&& forall|k: int| 0 <= k < batches.len() ==> {
        &&& (#[trigger] batches[k]).items@ == items.subrange(100 * k, min_int(100 * k + 100, n))
        &&& batches[k].checkpoints_upsert@ == folders.subrange(min_int(100 * k, f), min_int(100 * k + 100, f))
        &&& batches[k].checkpoints_delete@.len() == 0
    }
}

fn item_batches(items: Vec<MigrationItem>, folders: Vec<ScanCheckpoint>) -> (r: Vec<ItemBatchCommit>)
    requires folders@.len() <= items@.len(),
    ensures batched(r@, items@, folders@),
{
    let ghost all = items@;
    let ghost all_f = folders@;
    let n: usize = items.len();
    let f: usize = folders.len();
    let mut rest = items;
    let mut frest = folders;
    let mut out: Vec<ItemBatchCommit> = Vec::new();
    let mut off: usize = 0;
    let mut foff: usize = 0;
    assert(all.subrange(0, n as int) =~= all);
    assert(all_f.subrange(0, f as int) =~= all_f);
    while rest.len() > 0
        invariant
            n == all.len(),
            f == all_f.len(),
            f <= n,
            off <= n,
            foff == min_int(off as int, f as int),
            rest@ == all.subrange(off as int, n as int),
            frest@ == all_f.subrange(foff as int, f as int),
            off == n || off == 100 * out@.len(),
            off <= 100 * out@.len(),
            out@.len() == 0 || 100 * (out@.len() - 1) < off,
            forall|k: int| 0 <= k < out@.len() ==> {
                &&& (#[trigger] out@[k]).items@ == all.subrange(100 * k, min_int(100 * k + 100, n as int))
                &&& out@[k].checkpoints_upsert@ == all_f.subrange(min_int(100 * k, f as int), min_int(100 * k + 100, f as int))
                &&& out@[k].checkpoints_delete@.len() == 0
            },
        decreases rest.len(),
    {
        let take: usize = if rest.len() < SCAN_CHECKPOINT_BATCH_SIZE { rest.len() } else { SCAN_CHECKPOINT_BATCH_SIZE };
        let ftake: usize = if frest.len() < take { frest.len() } else { take };
        let tail = rest.split_off(take);
        let ftail = frest.split_off(ftake);
        let ghost k = out@.len() as int;
        assert(off == 100 * k);
        assert(rest@ =~= all.subrange(100 * k, min_int(100 * k + 100, n as int)));
        assert(frest@ =~= all_f.subrange(min_int(100 * k, f as int), min_int(100 * k + 100, f as int)));
        out.push(ItemBatchCommit { items: rest, checkpoints_upsert: frest, checkpoints_delete: Vec::new() });
        rest = tail;
        frest = ftail;
        off = off + take;
        foff = foff + ftake;
        assert(rest@ =~= all.subrange(off as int, n as int));
        assert(frest@ =~= all_f.subrange(foff as int, f as int));
    }
    out
}

/// What one listed page changes: the store writes, in order, and the pages still to list.
#[derive(Clone, Debug, PartialEq, Eq)]
pub struct PagePlan {
    pub commits: Vec<ItemBatchCommit>,
    pub enqueue: Vec<WorkItem>,
}

/// The work item that lists a checkpointed folder.
pub open spec fn work_of(checkpoint: ScanCheckpoint) -> WorkItem {
    WorkItem { folder_id: checkpoint.folder_id, page_token: checkpoint.page_token, depth: checkpoint.depth }
}

/// The write that closes a listed page: the next page is checkpointed when there is one,
/// otherwise the folder's checkpoint is deleted.
pub open spec fn page_commit_matches(
    commit: ItemBatchCommit,
    job_id: JobId,
    folder_id: String,
    depth: i64,
    next_page_token: Option<String>,
) -> bool {
    &&& commit.items@.len() == 0
    &&& match next_page_token {
        Some(next) => {
            &&& commit.checkpoints_upsert@ == seq![ScanCheckpoint { job_id, folder_id, page_token: Some(next), depth }]
            &&& commit.checkpoints_delete@.len() == 0
        },
        None => {
            &&& commit.checkpoints_upsert@.len() == 0
            &&& commit.checkpoints_delete@ == seq![folder_id]
        },
    }
}

/// The pages to list after this one: its next page first, when there is one, then each
/// new eligible folder from its first page.
pub open spec fn enqueued_after(
    folder_id: String,
    depth: i64,
    next_page_token: Option<String>,
    folders: Seq<ScanCheckpoint>,
) -> Seq<WorkItem> {
    let next = match next_page_token {
        Some(next) => seq![WorkItem { folder_id, page_token: Some(next), depth }],
        None => Seq::empty(),
    };
    next + folders.map_values(|c: ScanCheckpoint| work_of(c))
}

/// Plans the writes and the follow-up work for one listed page of `folder_id`.
///
/// Children met for the first time (not in `visited`, not earlier on the page) become
/// items one level deeper, classified against the source and target accounts; the `j`-th
/// of them takes `ids[j]`. Their identifiers join `visited`. Items go to the store in
/// batches of the checkpoint batch size, each with the matching run of new folder
/// checkpoints; a last write checkpoints the next page or deletes the folder's checkpoint.
pub fn plan_page(
    visited: &mut Vec<String>,
    job_id: JobId,
    source: &GooglePermissionId,
    target: &GooglePermissionId,
    folder_id: String,
    depth: i64,
    page: DriveChildPage,
    ids: &Vec<ItemId>,
    now: &String,
) -> (r: PagePlan)
    requires
        ids@.len() >= page.files@.len(),
        depth < i64::MAX,
    ensures
        ({
            let children = discovered(views(old(visited)@), page.files@);
            let items = discovered_items(job_id, ids@, children, depth, source.value@, target.value@, *now);
            let folders = recursing(job_id, children, depth, source.value@, target.value@);
            &&& views(final(visited)@) == views(old(visited)@) + child_ids(children)
            &&& r.commits@.len() >= 1
            &&& batched(r.commits@.drop_last(), items, folders)
            &&& page_commit_matches(r.commits@.last(), job_id, folder_id, depth, page.next_page_token)
            &&& r.enqueue@ == enqueued_after(folder_id, depth, page.next_page_token, folders)
        }),
{
    let DriveChildPage { files, next_page_token } = page;
    let (items, folders) = discover_children(visited, files, job_id, source, target, depth, ids, now);
    proof {
        let children = discovered(views(old(visited)@), page.files@);
        lemma_recursing_len(job_id, children, depth, source.value@, target.value@);
    }
    let mut enqueue: Vec<WorkItem> = Vec::new();
    let last_commit = match &next_page_token {
        Some(next) => {
            enqueue.push(WorkItem { folder_id: folder_id.clone(), page_token: Some(next.clone()), depth });
            let mut upsert: Vec<ScanCheckpoint> = Vec::new();
            upsert.push(ScanCheckpoint { job_id, folder_id: folder_id.clone(), page_token: Some(next.clone()), depth });
            ItemBatchCommit { items: Vec::new(), checkpoints_upsert: upsert, checkpoints_delete: Vec::new() }
        },
        None => {
            let mut delete: Vec<String> = Vec::new();
            delete.push(folder_id.clone());
            ItemBatchCommit { items: Vec::new(), checkpoints_upsert: Vec::new(), checkpoints_delete: delete }
        },
    };
    let ghost head = enqueue@;
    let ghost children = discovered(views(old(visited)@), page.files@);
    let mut k: usize = 0;
    while k < folders.len()
        invariant
            k <= folders@.len(),
            folders@ == recursing(job_id, children, depth, source.value@, target.value@),
            enqueue@ == head + folders@.take(k as int).map_values(|c: ScanCheckpoint| work_of(c)),
        decreases folders@.len() - k,
    {
        enqueue.push(WorkItem { folder_id: folders[k].folder_id.clone(), page_token: None, depth: folders[k].depth });
        proof {
            assert(folders@[k as int].page_token is None) by {
                lemma_recursing_checkpoints(job_id, children, depth, source.value@, target.value@, k as int);
            }
        }
        assert(folders@.take(k + 1).map_values(|c: ScanCheckpoint| work_of(c))
            =~= folders@.take(k as int).map_values(|c: ScanCheckpoint| work_of(c)).push(work_of(folders@[k as int])));
        k += 1;
    }
    assert(folders@.take(folders@.len() as int) =~= folders@);
    let mut commits = item_batches(items, folders);
    let ghost batches = commits@;
    commits.push(last_commit);
    assert(commits@.drop_last() =~= batches);
    PagePlan { commits, enqueue }
}

proof fn lemma_recursing_checkpoints(
    job_id: JobId,
    children: Seq<DriveChild>,
    depth: i64,
    source: Seq<char>,
    target: Seq<char>,
    k: int,
)
    requires 0 <= k < recursing(job_id, children, depth, source, target).len(),
    ensures recursing(job_id, children, depth, source, target)[k].page_token is None,
    decreases children.len(),
{
    if children.len() > 0 {
        let earlier = recursing(job_id, children.drop_last(), depth, source, target);
        if k < earlier.len() {
            lemma_recursing_checkpoints(job_id, children.drop_last(), depth, source, target, k);
        }
    }
}


/// The identifiers of a sequence of roots.
pub open spec fn root_ids(roots: Seq<MigrationRoot>) -> Seq<Seq<char>> {
    roots.map_values(|r: MigrationRoot| r.root_file_id@)
}

/// The roots of `roots` not yet in `seen` and not repeated earlier, in order.
pub open spec fn new_roots(seen: Seq<Seq<char>>, roots: Seq<MigrationRoot>) -> Seq<MigrationRoot>
    decreases roots.len(),
{
    if roots.len() == 0 {
        Seq::empty()
    } else {
        let earlier = new_roots(seen, roots.drop_last());
        if (seen + root_ids(earlier)).contains(roots.last().root_file_id@) {
            earlier
        } else {
            earlier.push(roots.last())
        }
    }
}

/// `item` is what a root becomes: an eligible folder at depth zero, owned by the source
/// account, with no recorded parents.
pub open spec fn is_root_item(item: MigrationItem, job_id: JobId, id: ItemId, root: MigrationRoot, source: GooglePermissionId, now: String) -> bool {
    &&& item.id == id
    &&& item.job_id == job_id
    &&& item.file_id == root.root_file_id
    &&& item.name == root.root_name
    &&& item.mime_type@ == FOLDER_MIME_TYPE@
    &&& item.depth == 0
    &&& item.original_parent_ids@.len() == 0
    &&& item.original_owner_permission_id == Some(source)
    &&& item.quota_bytes_used is None
    &&& item.target_permission_id is None
    &&& item.state == ItemState::Eligible
    &&& !item.canary_selected
    &&& item.created_at == now
    &&& item.updated_at == now
}

/// The checkpoint that lists a root from its first page.
pub open spec fn root_checkpoint(job_id: JobId, root: MigrationRoot) -> ScanCheckpoint {
    ScanCheckpoint { job_id, folder_id: root.root_file_id, page_token: None, depth: 0 }
}

/// The items and checkpoints that seed a fresh scan: one per root met for the first
/// time, the `j`-th item taking `ids[j]`. The roots' identifiers join `visited`; the
/// writes go in batches of the checkpoint batch size, none when no root is new.
pub fn plan_seed(
    visited: &mut Vec<String>,
    job_id: JobId,
    roots: &Vec<MigrationRoot>,
    source: &GooglePermissionId,
    ids: &Vec<ItemId>,
    now: &String,
) -> (r: (Vec<ItemBatchCommit>, Vec<ScanCheckpoint>))
    requires ids@.len() >= roots@.len(),
    ensures
        ({
            let fresh = new_roots(views(old(visited)@), roots@);
            &&& views(final(visited)@) == views(old(visited)@) + root_ids(fresh)
            &&& r.1@ == fresh.map_values(|root: MigrationRoot| root_checkpoint(job_id, root))
            &&& exists|items: Seq<MigrationItem>| {
                &&& items.len() == fresh.len()
                &&& (forall|j: int| 0 <= j < fresh.len() ==>
                    is_root_item(#[trigger] items[j], job_id, ids@[j], fresh[j], *source, *now))
                &&& batched(r.0@, items, r.1@)
            }
        }),
{
    let ghost seen0 = views(visited@);
    let mut items: Vec<MigrationItem> = Vec::new();
    let mut upserts: Vec<ScanCheckpoint> = Vec::new();
    let mut listed: Vec<ScanCheckpoint> = Vec::new();
    let mut i: usize = 0;
    while i < roots.len()
        invariant
            i <= roots@.len(),
            ids@.len() >= roots@.len(),
            views(visited@) == seen0 + root_ids(new_roots(seen0, roots@.take(i as int))),
            items@.len() == new_roots(seen0, roots@.take(i as int)).len(),
            items@.len() <= i,
            forall|j: int| 0 <= j < items@.len() ==>
                is_root_item(#[trigger] items@[j], job_id, ids@[j], new_roots(seen0, roots@.take(i as int))[j], *source, *now),
            upserts@ == new_roots(seen0, roots@.take(i as int)).map_values(|root: MigrationRoot| root_checkpoint(job_id, root)),
            listed@ == upserts@,
        decreases roots@.len() - i,
    {
        let ghost before = new_roots(seen0, roots@.take(i as int));
        let root = &roots[i];
        assert(roots@.take(i + 1).drop_last() =~= roots@.take(i as int));
        assert(roots@.take(i + 1).last() == *root);
        let seen = contains_id(visited, root.root_file_id.as_str());
        if !seen {
            let ghost after = before.push(*root);
            let ghost old_visited = visited@;
            visited.push(root.root_file_id.clone());
            assert(views(visited@) =~= views(old_visited).push(root.root_file_id@));
            assert(root_ids(after) =~= root_ids(before).push(root.root_file_id@));
            let item = MigrationItem {
                id: ids[items.len()],
                job_id,
                file_id: root.root_file_id.clone(),
                name: root.root_name.clone(),
                mime_type: String::from_str(FOLDER_MIME_TYPE),
                depth: 0,
                original_parent_ids: Vec::new(),
                original_owner_permission_id: Some(source.clone()),
                quota_bytes_used: None,
                target_permission_id: None,
                state: ItemState::Eligible,
                canary_selected: false,
                created_at: now.clone(),
                updated_at: now.clone(),
            };
            items.push(item);
            upserts.push(ScanCheckpoint { job_id, folder_id: root.root_file_id.clone(), page_token: None, depth: 0 });
            listed.push(ScanCheckpoint { job_id, folder_id: root.root_file_id.clone(), page_token: None, depth: 0 });
            assert(upserts@ =~= after.map_values(|root: MigrationRoot| root_checkpoint(job_id, root)));
        }
        i += 1;
    }
    assert(roots@.take(roots@.len() as int) =~= roots@);
    let ghost all_items = items@;
    let batches = item_batches(items, upserts);
    (batches, listed)
}


/// The state of a scan run between waves: the pages still to list, first in first out,
/// and the identifiers already met.
pub struct ScanState {
    pub queue: Vec<WorkItem>,
    pub visited: Vec<String>,
}

/// What a scan run does next.
#[derive(Clone, Debug, PartialEq, Eq)]
pub enum ScanStep {
    /// Nothing is left to list.
    Finished,
    /// A pause was requested; the queue is kept for the next run.
    Paused,
    /// These pages are listed together, in order.
    Wave(Vec<WorkItem>),
}

/// How many pages a wave lists: as many as are queued, up to the concurrency, which
/// counts as at least one.
pub open spec fn wave_len(queued: nat, concurrency: usize) -> nat {
    let limit: nat = if concurrency == 0 { 1 } else { concurrency as nat };
    if queued < limit { queued } else { limit }
}

/// Whether a run must seed its roots first: nothing was checkpointed or committed yet.
pub fn needs_seed(checkpoints: &Vec<ScanCheckpoint>, visited: &Vec<String>) -> (r: bool)
    ensures r == (checkpoints@.len() == 0 && visited@.len() == 0),
{
    checkpoints.len() == 0 && visited.len() == 0
}

impl ScanState {
    /// A run that resumes from the stored checkpoints, in their order, with the committed
    /// identifiers as already met.
    pub fn resume(visited: Vec<String>, checkpoints: Vec<ScanCheckpoint>) -> (r: ScanState)
        ensures
            r.visited@ == visited@,
            r.queue@ == checkpoints@.map_values(|c: ScanCheckpoint| work_of(c)),
    {
        let mut queue: Vec<WorkItem> = Vec::new();
        let mut i: usize = 0;
        while i < checkpoints.len()
            invariant
                i <= checkpoints@.len(),
                queue@ == checkpoints@.take(i as int).map_values(|c: ScanCheckpoint| work_of(c)),
            decreases checkpoints@.len() - i,
        {
            let c = &checkpoints[i];
            queue.push(WorkItem { folder_id: c.folder_id.clone(), page_token: c.page_token.clone(), depth: c.depth });
            assert(checkpoints@.take(i + 1).map_values(|c: ScanCheckpoint| work_of(c))
                =~= checkpoints@.take(i as int).map_values(|c: ScanCheckpoint| work_of(c)).push(work_of(checkpoints@[i as int])));
            i += 1;
        }
        assert(checkpoints@.take(checkpoints@.len() as int) =~= checkpoints@);
        ScanState { queue, visited }
    }

    /// Decides the next step: finished when nothing is queued, paused when a pause was
    /// requested, otherwise the front of the queue as the next wave.
    pub fn next_step(&mut self, pause_requested: bool, concurrency: usize) -> (r: ScanStep)
        ensures
            final(self).visited@ == old(self).visited@,
            old(self).queue@.len() == 0 ==> r == ScanStep::Finished && final(self).queue@ == old(self).queue@,
            old(self).queue@.len() > 0 && pause_requested ==> r == ScanStep::Paused && final(self).queue@ == old(self).queue@,
            old(self).queue@.len() > 0 && !pause_requested ==> {
                let k = wave_len(old(self).queue@.len(), concurrency) as int;
                &&& r matches ScanStep::Wave(w) && w@ == old(self).queue@.take(k)
                &&& final(self).queue@ == old(self).queue@.skip(k)
            },
    {
        if self.queue.len() == 0 {
            return ScanStep::Finished;
        }
        if pause_requested {
            return ScanStep::Paused;
        }
        let limit: usize = if concurrency == 0 { 1 } else { concurrency };
        let size: usize = if self.queue.len() < limit { self.queue.len() } else { limit };
        let mut wave = self.queue.split_off(size);
        std::mem::swap(&mut wave, &mut self.queue);
        ScanStep::Wave(wave)
    }

    /// Applies one listed page: plans its writes and queues the pages it leads to behind
    /// the ones already queued.
    pub fn apply_page(
        &mut self,
        job_id: JobId,
        source: &GooglePermissionId,
        target: &GooglePermissionId,
        folder_id: String,
        depth: i64,
        page: DriveChildPage,
        ids: &Vec<ItemId>,
        now: &String,
    ) -> (r: Vec<ItemBatchCommit>)
        requires
            ids@.len() >= page.files@.len(),
            depth < i64::MAX,
        ensures
            ({
                let children = discovered(views(old(self).visited@), page.files@);
                let items = discovered_items(job_id, ids@, children, depth, source.value@, target.value@, *now);
                let folders = recursing(job_id, children, depth, source.value@, target.value@);
                &&& views(final(self).visited@) == views(old(self).visited@) + child_ids(children)
                &&& r@.len() >= 1
                &&& batched(r@.drop_last(), items, folders)
                &&& page_commit_matches(r@.last(), job_id, folder_id, depth, page.next_page_token)
                &&& final(self).queue@ == old(self).queue@ + enqueued_after(folder_id, depth, page.next_page_token, folders)
            }),
    {
        let plan = plan_page(&mut self.visited, job_id, source, target, folder_id, depth, page, ids, now);
        let PagePlan { commits, enqueue } = plan;
        let mut enqueue = enqueue;
        self.queue.append(&mut enqueue);
        commits
    }
}


/// A scan misses no child: after a page, every child listed on it was either seen before
/// or is among the children recorded from it.
pub proof fn lemma_page_children_are_all_recorded(seen: Seq<Seq<char>>, files: Seq<DriveChild>)
    ensures
        forall|j: int| 0 <= j < files.len()
            ==> (seen + child_ids(discovered(seen, files))).contains(#[trigger] files[j].id@),
    decreases files.len(),
{
    if files.len() > 0 {
        let rest = files.drop_last();
        let earlier = discovered(seen, rest);
        lemma_page_children_are_all_recorded(seen, rest);
        let now = discovered(seen, files);
        let c = files.last();
        if !(seen + child_ids(earlier)).contains(c.id@) {
            assert(child_ids(earlier.push(c)) =~= child_ids(earlier).push(c.id@));
            assert((seen + child_ids(now)) =~= (seen + child_ids(earlier)).push(c.id@));
        }
        assert forall|j: int| 0 <= j < files.len()
            implies (seen + child_ids(now)).contains(#[trigger] files[j].id@) by {
            if j < files.len() - 1 {
                assert(rest[j] == files[j]);
                assert((seen + child_ids(earlier)).contains(rest[j].id@));
                let w = choose|w: int| 0 <= w < (seen + child_ids(earlier)).len() && (seen + child_ids(earlier))[w] == rest[j].id@;
                if !(seen + child_ids(earlier)).contains(c.id@) {
                    assert((seen + child_ids(now))[w] == (seen + child_ids(earlier))[w]);
                }
            } else {
                if !(seen + child_ids(earlier)).contains(c.id@) {
                    let k = (seen + child_ids(now)).len() - 1;
                    assert((seen + child_ids(now))[k] == c.id@);
                }
            }
        }
    }
}

/// A scan never records a file twice: when the identifiers met so far are distinct,
/// they stay distinct after a page adds the children it met for the first time, and
/// every one of those children was listed on the page.
pub proof fn lemma_discovered_are_new(seen: Seq<Seq<char>>, files: Seq<DriveChild>)
    requires seen.no_duplicates(),
    ensures
        (seen + child_ids(discovered(seen, files))).no_duplicates(),
        forall|j: int| 0 <= j < discovered(seen, files).len() ==> files.contains(#[trigger] discovered(seen, files)[j]),
    decreases files.len(),
{
    if files.len() > 0 {
        let earlier = discovered(seen, files.drop_last());
        lemma_discovered_are_new(seen, files.drop_last());
        let c = files.last();
        if !(seen + child_ids(earlier)).contains(c.id@) {
            assert(child_ids(earlier.push(c)) =~= child_ids(earlier).push(c.id@));
            assert((seen + child_ids(earlier.push(c))) =~= (seen + child_ids(earlier)).push(c.id@));
        }
        assert forall|j: int| 0 <= j < discovered(seen, files).len() implies files.contains(#[trigger] discovered(seen, files)[j]) by {
            if j < earlier.len() {
                assert(files.drop_last().contains(earlier[j]));
                let w = choose|w: int| 0 <= w < files.drop_last().len() && files.drop_last()[w] == earlier[j];
                assert(files[w] == earlier[j]);
            } else {
                assert(files[files.len() - 1] == c);
            }
        }
    }
}

} // verus!
