//! The migration queue: which job waits at which place, and how queuing, reordering and
//! removing a job renumber the rest.

use vstd::prelude::*;
use vstd::relations::{sorted_by, total_ordering};
use crate::domain::{JobId, JobStatus};
use crate::job_service::{names, JobServiceError};

verus! {

/// What the queue reads of a job.
#[derive(Clone, Copy, Debug, PartialEq, Eq, Structural)]
pub struct QueueEntry {
    pub job_id: JobId,
    pub status: JobStatus,
    pub queue_position: Option<i64>,
}

/// A queued job's place in the waiting order: its position, unpositioned jobs last, then
/// its identifier.
pub open spec fn sort_key(entry: QueueEntry) -> (i64, u128) {
    (match entry.queue_position { Some(p) => p, None => i64::MAX }, entry.job_id.0)
}

/// The waiting order on keys: by position, then by identifier.
pub open spec fn key_le(a: (i64, u128), b: (i64, u128)) -> bool {
    a.0 < b.0 || (a.0 == b.0 && a.1 <= b.1)
}

pub open spec fn key_order() -> spec_fn((i64, u128), (i64, u128)) -> bool {
    |a: (i64, u128), b: (i64, u128)| key_le(a, b)
}

/// The waiting order is a total order.
pub proof fn lemma_key_order_total()
    ensures total_ordering(key_order()),
{
}

/// The other queued jobs, in the store's order.
pub open spec fn other_queued(jobs: Seq<QueueEntry>, job_id: JobId) -> Seq<QueueEntry> {
    jobs.filter(|e: QueueEntry| e.status == JobStatus::Queued && e.job_id != job_id)
}

/// The other queued jobs in waiting order, as keys.
pub open spec fn waiting_keys(jobs: Seq<QueueEntry>, job_id: JobId) -> Seq<(i64, u128)> {
    other_queued(jobs, job_id).map_values(|e: QueueEntry| sort_key(e)).sort_by(key_order())
}

/// The other queued jobs in waiting order.
pub open spec fn waiting_order(jobs: Seq<QueueEntry>, job_id: JobId) -> Seq<JobId> {
    waiting_keys(jobs, job_id).map_values(|k: (i64, u128)| JobId(k.1))
}

/// The first entry for `job_id`.
pub open spec fn find_entry(jobs: Seq<QueueEntry>, job_id: JobId) -> Option<QueueEntry>
    decreases jobs.len(),
{
    if jobs.len() == 0 {
        None
    } else if jobs[0].job_id == job_id {
        Some(jobs[0])
    } else {
        find_entry(jobs.subrange(1, jobs.len() as int), job_id)
    }
}

/// Where a requested position puts a job among `len` waiting jobs: position `p` is index
/// `p - 1`, from the front up to just behind the last; no position means the end.
pub open spec fn insert_index(position: Option<i64>, len: nat) -> Option<int> {
    match position {
        Some(p) => if 1 <= p && p - 1 <= len { Some(p - 1) } else { None },
        None => Some(len as int),
    }
}

/// The outcome of queuing `job_id` at `position` (reordering when `require_queued`): the
/// new waiting order, the job at its place among the others kept in waiting order.
pub open spec fn queue_change(
    jobs: Seq<QueueEntry>,
    job_id: JobId,
    position: Option<i64>,
    require_queued: bool,
) -> Result<Seq<JobId>, JobServiceError> {
    match find_entry(jobs, job_id) {
        None => Err(JobServiceError::JobNotFound(job_id)),
        Some(target) =>
            if require_queued && target.status != JobStatus::Queued {
                Err(JobServiceError::IllegalTransition)
            } else {
                match insert_index(position, waiting_order(jobs, job_id).len()) {
                    None => Err(JobServiceError::IllegalTransition),
                    Some(at) =>
                        if at + 1 > i64::MAX {
                            Err(JobServiceError::IllegalTransition)
                        } else {
                            Ok(waiting_order(jobs, job_id).insert(at, job_id))
                        },
                }
            },
    }
}

/// The waiting order after a queued job leaves the queue; the others keep their order.
pub open spec fn queue_removal(jobs: Seq<QueueEntry>, job_id: JobId) -> Result<Seq<JobId>, JobServiceError> {
    match find_entry(jobs, job_id) {
        None => Err(JobServiceError::JobNotFound(job_id)),
        Some(target) =>
            if target.status != JobStatus::Queued {
                Err(JobServiceError::IllegalTransition)
            } else {
                Ok(waiting_order(jobs, job_id))
            },
    }
}

fn key_less_eq(a: (i64, u128), b: (i64, u128)) -> (r: bool)
    ensures r == key_le(a, b),
{
    a.0 < b.0 || (a.0 == b.0 && a.1 <= b.1)
}

/// Sorts keys into waiting order, keeping equal keys in their given order.
fn sort_keys(keys: &Vec<(i64, u128)>) -> (r: Vec<(i64, u128)>)
    ensures r@ == keys@.sort_by(key_order()),
{
    let mut out: Vec<(i64, u128)> = Vec::new();
    let mut i: usize = 0;
    assert(keys@.take(0) =~= out@);
    while i < keys.len()
        invariant
            i <= keys@.len(),
            sorted_by(out@, key_order()),
            out@.to_multiset() == keys@.take(i as int).to_multiset(),
        decreases keys@.len() - i,
    {
        let k = keys[i];
        let mut j: usize = 0;
        while j < out.len() && key_less_eq(out[j], k)
            invariant
                j <= out@.len(),
                forall|m: int| 0 <= m < j ==> key_le(#[trigger] out@[m], k),
            decreases out@.len() - j,
        {
            j += 1;
        }
        proof {
            lemma_key_order_total();
            assert(j < out@.len() ==> !key_le(out@[j as int], k));
            assert forall|m: int| j <= m < out@.len() implies !key_le(#[trigger] out@[m], k) by {
                if j < out@.len() && !key_le(out@[j as int], k) {
                    assert((key_order())(out@[j as int], out@[m]));
                }
            }
        }
        let ghost before = out@;
        out.insert(j, k);
        proof {
            assert forall|a: int, b: int| 0 <= a < b < out@.len() implies #[trigger] key_le(out@[a], out@[b]) by {
                if b < j {
                    assert((key_order())(before[a], before[b]));
                } else if b == j {
                    assert(key_le(before[a], k));
                } else if a == j {
                    assert(!key_le(before[b - 1], k));
                } else if a < j {
                    assert((key_order())(before[a], before[b - 1]));
                } else {
                    assert((key_order())(before[a - 1], before[b - 1]));
                }
            }
            assert(sorted_by(out@, key_order()));
            vstd::seq_lib::to_multiset_insert(before, j as int, k);
            assert(keys@.take(i + 1) =~= keys@.take(i as int).push(k));
            vstd::seq_lib::to_multiset_build(keys@.take(i as int), k);
        }
        i += 1;
    }
    proof {
        assert(keys@.take(keys@.len() as int) =~= keys@);
        lemma_key_order_total();
        keys@.lemma_sort_by_ensures(key_order());
        vstd::seq_lib::lemma_sorted_unique(out@, keys@.sort_by(key_order()), key_order());
    }
    out
}

fn find_job(jobs: &Vec<QueueEntry>, job_id: JobId) -> (r: Option<QueueEntry>)
    ensures r == find_entry(jobs@, job_id),
{
    let ghost all = jobs@;
    assert(all.subrange(0, all.len() as int) =~= all);
    let mut i: usize = 0;
    while i < jobs.len()
        invariant
            i <= jobs@.len(),
            all == jobs@,
            find_entry(all, job_id) == find_entry(all.subrange(i as int, all.len() as int), job_id),
        decreases jobs@.len() - i,
    {
        let ghost rest = all.subrange(i as int, all.len() as int);
        assert(rest.subrange(1, rest.len() as int) =~= all.subrange(i + 1, all.len() as int));
        if jobs[i].job_id.0 == job_id.0 {
            return Some(jobs[i]);
        }
        i += 1;
    }
    None
}

fn waiting_order_of(jobs: &Vec<QueueEntry>, job_id: JobId) -> (r: Vec<JobId>)
    ensures r@ == waiting_order(jobs@, job_id),
{
    let mut keys: Vec<(i64, u128)> = Vec::new();
    let mut i: usize = 0;
    while i < jobs.len()
        invariant
            i <= jobs@.len(),
            keys@ == other_queued(jobs@.take(i as int), job_id).map_values(|e: QueueEntry| sort_key(e)),
        decreases jobs@.len() - i,
    {
        assert(jobs@.take(i + 1).drop_last() =~= jobs@.take(i as int));
        proof { reveal(Seq::filter); }
        let e = jobs[i];
        if e.status == JobStatus::Queued && e.job_id.0 != job_id.0 {
            let pos: i64 = match e.queue_position { Some(p) => p, None => i64::MAX };
            keys.push((pos, e.job_id.0));
            assert(keys@ =~= other_queued(jobs@.take(i + 1), job_id).map_values(|e: QueueEntry| sort_key(e)));
        } else {
            assert(keys@ =~= other_queued(jobs@.take(i + 1), job_id).map_values(|e: QueueEntry| sort_key(e)));
        }
        i += 1;
    }
    assert(jobs@.take(jobs@.len() as int) =~= jobs@);
    let sorted = sort_keys(&keys);
    let mut order: Vec<JobId> = Vec::new();
    let mut k: usize = 0;
    while k < sorted.len()
        invariant
            k <= sorted@.len(),
            sorted@ == waiting_keys(jobs@, job_id),
            order@ == sorted@.take(k as int).map_values(|key: (i64, u128)| JobId(key.1)),
        decreases sorted@.len() - k,
    {
        order.push(JobId(sorted[k].1));
        assert(order@ =~= sorted@.take(k + 1).map_values(|key: (i64, u128)| JobId(key.1)));
        k += 1;
    }
    assert(sorted@.take(sorted@.len() as int) =~= sorted@);
    order
}

/// A new waiting order and the place it gives the moved job.
#[derive(Clone, Debug, PartialEq, Eq)]
pub struct QueuePlan {
    pub order: Vec<JobId>,
    pub target_position: i64,
}

/// Plans queuing `job_id` at `position` (at the end when none), or, when `require_queued`,
/// moving an already queued job there. The other queued jobs keep their waiting order;
/// positions run from one in the returned order.
pub fn plan_queue_change(
    jobs: &Vec<QueueEntry>,
    job_id: JobId,
    position: Option<i64>,
    require_queued: bool,
) -> (r: Result<QueuePlan, JobServiceError>)
    ensures
        match (r, queue_change(jobs@, job_id, position, require_queued)) {
            (Ok(plan), Ok(order)) => plan.order@ == order
                && plan.target_position == insert_index(position, waiting_order(jobs@, job_id).len()).unwrap() + 1,
            (Err(a), Err(b)) => a == b,
            _ => false,
        },
{
    let target = match find_job(jobs, job_id) {
        Some(t) => t,
        None => return Err(JobServiceError::JobNotFound(job_id)),
    };
    if require_queued && target.status != JobStatus::Queued {
        return Err(JobServiceError::IllegalTransition);
    }
    let mut order = waiting_order_of(jobs, job_id);
    let len = order.len();
    let at: usize = match position {
        Some(p) => {
            if p < 1 || (p as i128) - 1 > (len as i128) {
                return Err(JobServiceError::IllegalTransition);
            }
            (p - 1) as usize
        },
        None => len,
    };
    if (at as u128) + 1 > (i64::MAX as u128) {
        return Err(JobServiceError::IllegalTransition);
    }
    order.insert(at, job_id);
    let target_position: i64 = (at as i64) + 1;
    Ok(QueuePlan { order, target_position })
}

/// Plans taking a queued job out of the queue: the others keep their waiting order and
/// are renumbered from one.
pub fn plan_queue_removal(jobs: &Vec<QueueEntry>, job_id: JobId) -> (r: Result<Vec<JobId>, JobServiceError>)
    ensures
        match (r, queue_removal(jobs@, job_id)) {
            (Ok(order), Ok(expected)) => order@ == expected,
            (Err(a), Err(b)) => a == b,
            _ => false,
        },
{
    let target = match find_job(jobs, job_id) {
        Some(t) => t,
        None => return Err(JobServiceError::JobNotFound(job_id)),
    };
    if target.status != JobStatus::Queued {
        return Err(JobServiceError::IllegalTransition);
    }
    Ok(waiting_order_of(jobs, job_id))
}

/// Where a job goes back to when it leaves the queue: the status it was queued from when
/// that was review or a pause; canary review when it came from there or the latest event
/// entered it; a pause when scan checkpoints exist or the latest event entered a pause; a
/// fresh review when no canary cohort exists and the job was not paused mid-transfer;
/// otherwise a pause.
pub open spec fn restored(
    queued_from: Option<JobStatus>,
    latest_new_state: Option<String>,
    has_scan_checkpoints: bool,
    cohort_empty: bool,
    transfer_pause: bool,
) -> JobStatus {
    if queued_from == Some(JobStatus::ReadyForReview) {
        JobStatus::ReadyForReview
    } else if queued_from == Some(JobStatus::Paused) {
        JobStatus::Paused
    } else if queued_from == Some(JobStatus::CanaryReview) || names(latest_new_state, JobStatus::CanaryReview) {
        JobStatus::CanaryReview
    } else if has_scan_checkpoints || names(latest_new_state, JobStatus::Paused) {
        JobStatus::Paused
    } else if cohort_empty && !transfer_pause {
        JobStatus::ReadyForReview
    } else {
        JobStatus::Paused
    }
}

fn is_status(s: Option<JobStatus>, status: JobStatus) -> (r: bool)
    ensures r == (s == Some(status)),
{
    match s {
        Some(x) => x == status,
        None => false,
    }
}

/// Decides the status a job leaving the queue returns to.
pub fn restored_status(
    queued_from: Option<JobStatus>,
    latest_new_state: &Option<String>,
    has_scan_checkpoints: bool,
    cohort_empty: bool,
    transfer_pause: bool,
) -> (r: JobStatus)
    ensures r == restored(queued_from, *latest_new_state, has_scan_checkpoints, cohort_empty, transfer_pause),
{
    let new_is = |status: JobStatus| -> (b: bool)
        ensures b == names(*latest_new_state, status),
    {
        match latest_new_state {
            Some(s) => crate::text::str_eq(s.as_str(), status.as_str()),
            None => false,
        }
    };
    if is_status(queued_from, JobStatus::ReadyForReview) {
        JobStatus::ReadyForReview
    } else if is_status(queued_from, JobStatus::Paused) {
        JobStatus::Paused
    } else if is_status(queued_from, JobStatus::CanaryReview) || new_is(JobStatus::CanaryReview) {
        JobStatus::CanaryReview
    } else if has_scan_checkpoints || new_is(JobStatus::Paused) {
        JobStatus::Paused
    } else if cohort_empty && !transfer_pause {
        JobStatus::ReadyForReview
    } else {
        JobStatus::Paused
    }
}

/// The waiting order holds exactly the other queued jobs, in waiting order, and never the
/// job being moved.
pub proof fn lemma_waiting_order_is_sorted_permutation(jobs: Seq<QueueEntry>, job_id: JobId)
    ensures
        sorted_by(waiting_keys(jobs, job_id), key_order()),
        waiting_keys(jobs, job_id).to_multiset()
            == other_queued(jobs, job_id).map_values(|e: QueueEntry| sort_key(e)).to_multiset(),
        !waiting_order(jobs, job_id).contains(job_id),
{
    let keys = other_queued(jobs, job_id).map_values(|e: QueueEntry| sort_key(e));
    lemma_key_order_total();
    keys.lemma_sort_by_ensures(key_order());
    broadcast use vstd::seq_lib::group_filter_ensures;
    let order = waiting_order(jobs, job_id);
    if order.contains(job_id) {
        let i = choose|i: int| 0 <= i < order.len() && order[i] == job_id;
        let k = waiting_keys(jobs, job_id)[i];
        assert(waiting_keys(jobs, job_id).contains(k));
        assert(keys.contains(k));
        let w = choose|w: int| 0 <= w < keys.len() && keys[w] == k;
        let e = other_queued(jobs, job_id)[w];
        assert(e.job_id != job_id);
        assert(false);
    }
}

/// Queuing or reordering puts the job at the requested place, at the end when none was
/// requested, and leaves the other queued jobs in waiting order around it; the job
/// appears once.
pub proof fn lemma_queue_change_places_job(
    jobs: Seq<QueueEntry>,
    job_id: JobId,
    position: Option<i64>,
    require_queued: bool,
)
    requires queue_change(jobs, job_id, position, require_queued) is Ok,
    ensures
        ({
            let order = queue_change(jobs, job_id, position, require_queued).unwrap();
            let waiting = waiting_order(jobs, job_id);
            let at = insert_index(position, waiting.len()).unwrap();
            &&& order.len() == waiting.len() + 1
            &&& order[at] == job_id
            &&& order.remove(at) == waiting
            &&& position is None ==> order.last() == job_id
            &&& forall|i: int| 0 <= i < order.len() && i != at ==> order[i] != job_id
            &&& order.to_multiset() == waiting.to_multiset().insert(job_id)
        }),
{
    let order = queue_change(jobs, job_id, position, require_queued).unwrap();
    let waiting = waiting_order(jobs, job_id);
    let at = insert_index(position, waiting.len()).unwrap();
    lemma_waiting_order_is_sorted_permutation(jobs, job_id);
    assert(order.remove(at) =~= waiting);
    assert forall|i: int| 0 <= i < order.len() && i != at implies order[i] != job_id by {
        if i < at {
            assert(order[i] == waiting[i]);
        } else {
            assert(order[i] == waiting[i - 1]);
        }
    }
    vstd::seq_lib::to_multiset_insert(waiting, at, job_id);
}

/// Removing a job from the queue keeps every other queued job, in waiting order.
pub proof fn lemma_queue_removal_keeps_others(jobs: Seq<QueueEntry>, job_id: JobId)
    requires queue_removal(jobs, job_id) is Ok,
    ensures
        queue_removal(jobs, job_id).unwrap() == waiting_order(jobs, job_id),
        !queue_removal(jobs, job_id).unwrap().contains(job_id),
{
    lemma_waiting_order_is_sorted_permutation(jobs, job_id);
}

} // verus!
