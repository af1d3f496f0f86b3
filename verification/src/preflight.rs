//! The dry-run summary shown before any ownership changes, and its plain-text report.

use vstd::prelude::*;
use crate::drive::StorageQuota;
use crate::item_store::ItemAggregates;
use crate::text::{decimal, decimal_u64};

verus! {

/// Counts and quota of a scanned job.
#[derive(Clone, Debug, PartialEq, Eq)]
pub struct PreflightSummary {
    pub total_items: u64,
    pub eligible_items: u64,
    pub eligible_files: u64,
    pub eligible_folders: u64,
    pub skipped_already_owned_by_target: u64,
    pub skipped_not_owned_by_source: u64,
    pub skipped_shared_drive: u64,
    pub skipped_shortcuts: u64,
    pub skipped_trashed: u64,
    pub skipped_ineligible: u64,
    pub estimated_quota_bytes: u64,
    pub target_usage_bytes: u64,
    pub target_limit_bytes: Option<u64>,
    pub target_remaining_bytes: Option<u64>,
    pub quota_warning: bool,
}

/// What is left of a quota: the limit minus the usage, never below zero; none when unlimited.
pub open spec fn remaining_quota(quota: StorageQuota) -> Option<u64> {
    match quota.limit_bytes {
        Some(limit) => Some(if limit >= quota.usage_bytes { (limit - quota.usage_bytes) as u64 } else { 0u64 }),
        None => None,
    }
}

impl PreflightSummary {
    /// The counts of `aggregates` against `quota`.
    pub open spec fn summary_spec(aggregates: ItemAggregates, quota: StorageQuota) -> PreflightSummary {
        PreflightSummary {
            total_items: aggregates.total,
            eligible_items: aggregates.eligible,
            eligible_files: aggregates.eligible_files,
            eligible_folders: aggregates.eligible_folders,
            skipped_already_owned_by_target: aggregates.skipped_already_owned_by_target,
            skipped_not_owned_by_source: aggregates.skipped_not_owned_by_source,
            skipped_shared_drive: aggregates.skipped_shared_drive,
            skipped_shortcuts: aggregates.skipped_shortcuts,
            skipped_trashed: aggregates.skipped_trashed,
            skipped_ineligible: aggregates.skipped_ineligible,
            estimated_quota_bytes: aggregates.estimated_quota_bytes,
            target_usage_bytes: quota.usage_bytes,
            target_limit_bytes: quota.limit_bytes,
            target_remaining_bytes: remaining_quota(quota),
            quota_warning: remaining_quota(quota) matches Some(left) && aggregates.estimated_quota_bytes > left,
        }
    }

    /// The summary of a job's item counts against the target's quota; the quota warns when
    /// the estimated bytes exceed what is left.
    pub fn from_aggregates(aggregates: &ItemAggregates, quota: &StorageQuota) -> (r: Self)
        ensures
            r == Self::summary_spec(*aggregates, *quota),
            r.total_items == aggregates.total,
            r.eligible_items == aggregates.eligible,
            r.eligible_files == aggregates.eligible_files,
            r.eligible_folders == aggregates.eligible_folders,
            r.skipped_already_owned_by_target == aggregates.skipped_already_owned_by_target,
            r.skipped_not_owned_by_source == aggregates.skipped_not_owned_by_source,
            r.skipped_shared_drive == aggregates.skipped_shared_drive,
            r.skipped_shortcuts == aggregates.skipped_shortcuts,
            r.skipped_trashed == aggregates.skipped_trashed,
            r.skipped_ineligible == aggregates.skipped_ineligible,
            r.estimated_quota_bytes == aggregates.estimated_quota_bytes,
            r.target_usage_bytes == quota.usage_bytes,
            r.target_limit_bytes == quota.limit_bytes,
            r.target_remaining_bytes == remaining_quota(*quota),
            r.quota_warning == (remaining_quota(*quota) matches Some(left) && aggregates.estimated_quota_bytes > left),
    {
        let remaining = match quota.limit_bytes {
            Some(limit) => Some(if limit >= quota.usage_bytes { limit - quota.usage_bytes } else { 0 }),
            None => None,
        };
        let quota_warning = match remaining {
            Some(left) => aggregates.estimated_quota_bytes > left,
            None => false,
        };
        PreflightSummary {
            total_items: aggregates.total,
            eligible_items: aggregates.eligible,
            eligible_files: aggregates.eligible_files,
            eligible_folders: aggregates.eligible_folders,
            skipped_already_owned_by_target: aggregates.skipped_already_owned_by_target,
            skipped_not_owned_by_source: aggregates.skipped_not_owned_by_source,
            skipped_shared_drive: aggregates.skipped_shared_drive,
            skipped_shortcuts: aggregates.skipped_shortcuts,
            skipped_trashed: aggregates.skipped_trashed,
            skipped_ineligible: aggregates.skipped_ineligible,
            estimated_quota_bytes: aggregates.estimated_quota_bytes,
            target_usage_bytes: quota.usage_bytes,
            target_limit_bytes: quota.limit_bytes,
            target_remaining_bytes: remaining,
            quota_warning,
        }
    }

    pub open spec fn skipped_sum(&self) -> int {
        self.skipped_already_owned_by_target + self.skipped_not_owned_by_source
            + self.skipped_shared_drive + self.skipped_shortcuts + self.skipped_trashed
            + self.skipped_ineligible
    }

    /// All skipped items together.
    pub fn skipped_total(&self) -> (r: u64)
        requires self.skipped_sum() <= u64::MAX,
        ensures r == self.skipped_sum(),
    {
        self.skipped_already_owned_by_target + self.skipped_not_owned_by_source
            + self.skipped_shared_drive + self.skipped_shortcuts + self.skipped_trashed
            + self.skipped_ineligible
    }

    /// The dry-run report: one line per field, `unlimited` for an absent limit, and
    /// `(none)` when no root folder is given.
    pub open spec fn report(&self, job_id: Seq<char>, source_email: Seq<char>, target_email: Seq<char>, roots: Seq<char>) -> Seq<char> {
        self.report_head(job_id, source_email, target_email, roots) + self.eligible_lines() + self.report_rest()
    }

    /// The report's title, the job and its accounts, the roots, and the item totals.
    pub open spec fn report_head(&self, job_id: Seq<char>, source_email: Seq<char>, target_email: Seq<char>, roots: Seq<char>) -> Seq<char> {
        "GDOM dry-run preflight\n"@
            + "Job: "@ + job_id + "\n"@
            + "Source: "@ + source_email + "\n"@
            + "Target: "@ + target_email + "\n"@
            + "Root folders: "@ + roots + "\n"@
            + "Total items: "@ + decimal(self.total_items as nat) + "\n"@
            + "Eligible items: "@ + decimal(self.eligible_items as nat) + "\n"@
    }

    /// The report's lines on eligible files and folders.
    pub open spec fn eligible_lines(&self) -> Seq<char> {
        "Eligible files: "@ + decimal(self.eligible_files as nat) + "\n"@
            + "Eligible folders: "@ + decimal(self.eligible_folders as nat) + "\n"@
    }

    /// The report's skip counts and quota lines.
    pub open spec fn report_rest(&self) -> Seq<char> {
        let limit = match self.target_limit_bytes { Some(v) => decimal(v as nat), None => "unlimited"@ };
        let remaining = match self.target_remaining_bytes { Some(v) => decimal(v as nat), None => "unlimited"@ };
        "Already target-owned: "@ + decimal(self.skipped_already_owned_by_target as nat) + "\n"@
            + "Not owned by source: "@ + decimal(self.skipped_not_owned_by_source as nat) + "\n"@
            + "Shared Drive: "@ + decimal(self.skipped_shared_drive as nat) + "\n"@
            + "Shortcuts: "@ + decimal(self.skipped_shortcuts as nat) + "\n"@
            + "Trashed or missing: "@ + decimal(self.skipped_trashed as nat) + "\n"@
            + "Other ineligible: "@ + decimal(self.skipped_ineligible as nat) + "\n"@
            + "Estimated quota bytes: "@ + decimal(self.estimated_quota_bytes as nat) + "\n"@
            + "Target usage bytes: "@ + decimal(self.target_usage_bytes as nat) + "\n"@
            + "Target limit bytes: "@ + limit + "\n"@
            + "Target remaining bytes: "@ + remaining + "\n"@
            + "Quota sufficient: "@ + (if self.quota_warning { "no"@ } else { "yes"@ }) + "\n"@
    }

    /// Writes the dry-run report of a job.
    pub fn render_report(&self, job_id: &str, source_email: &str, target_email: &str, roots: &Vec<String>) -> (r: String)
        ensures r@ == self.report(job_id@, source_email@, target_email@, roots_line(roots@)),
    {
        let limit = match self.target_limit_bytes { Some(v) => decimal_u64(v), None => String::from_str("unlimited") };
        let remaining = match self.target_remaining_bytes { Some(v) => decimal_u64(v), None => String::from_str("unlimited") };
        let roots_list = join_roots(roots);
        let mut head = String::from_str("GDOM dry-run preflight\n");
        head = line(head, "Job: ", job_id);
        head = line(head, "Source: ", source_email);
        head = line(head, "Target: ", target_email);
        head = line(head, "Root folders: ", roots_list.as_str());
        head = line(head, "Total items: ", decimal_u64(self.total_items).as_str());
        head = line(head, "Eligible items: ", decimal_u64(self.eligible_items).as_str());
        let mut eligible = String::from_str("Eligible files: ").concat(decimal_u64(self.eligible_files).as_str()).concat("\n");
        eligible = line(eligible, "Eligible folders: ", decimal_u64(self.eligible_folders).as_str());
        let mut rest = String::from_str("Already target-owned: ")
            .concat(decimal_u64(self.skipped_already_owned_by_target).as_str()).concat("\n");
        rest = line(rest, "Not owned by source: ", decimal_u64(self.skipped_not_owned_by_source).as_str());
        rest = line(rest, "Shared Drive: ", decimal_u64(self.skipped_shared_drive).as_str());
        rest = line(rest, "Shortcuts: ", decimal_u64(self.skipped_shortcuts).as_str());
        rest = line(rest, "Trashed or missing: ", decimal_u64(self.skipped_trashed).as_str());
        rest = line(rest, "Other ineligible: ", decimal_u64(self.skipped_ineligible).as_str());
        rest = line(rest, "Estimated quota bytes: ", decimal_u64(self.estimated_quota_bytes).as_str());
        rest = line(rest, "Target usage bytes: ", decimal_u64(self.target_usage_bytes).as_str());
        rest = line(rest, "Target limit bytes: ", limit.as_str());
        rest = line(rest, "Target remaining bytes: ", remaining.as_str());
        rest = line(rest, "Quota sufficient: ", if self.quota_warning { "no" } else { "yes" });
        head.concat(eligible.as_str()).concat(rest.as_str())
    }
}

fn line(out: String, label: &str, value: &str) -> (r: String)
    ensures r@ == out@ + label@ + value@ + "\n"@,
{
    out.concat(label).concat(value).concat("\n")
}

/// `items` joined with `sep` between neighbours.
pub open spec fn joined(items: Seq<String>, sep: Seq<char>) -> Seq<char>
    decreases items.len(),
{
    if items.len() == 0 {
        Seq::empty()
    } else if items.len() == 1 {
        items[0]@
    } else {
        joined(items.drop_last(), sep) + sep + items.last()@
    }
}

/// Joins strings with a separator (`[String]::join`).
pub fn join_strings(items: &Vec<String>, sep: &str) -> (r: String)
    ensures r@ == joined(items@, sep@),
{
    let mut out = String::new();
    let mut i: usize = 0;
    while i < items.len()
        invariant
            i <= items.len(),
            out@ == joined(items@.take(i as int), sep@),
        decreases items.len() - i,
    {
        assert(items@.take(i + 1).drop_last() =~= items@.take(i as int));
        if i > 0 {
            out = out.concat(sep);
        }
        out = out.concat(items[i].as_str());
        i += 1;
    }
    assert(items@.take(items.len() as int) =~= items@);
    out
}

/// The root folder line: their names joined with `, `, or `(none)`.
pub open spec fn roots_line(roots: Seq<String>) -> Seq<char> {
    if roots.len() == 0 { "(none)"@ } else { joined(roots, ", "@) }
}

fn join_roots(roots: &Vec<String>) -> (r: String)
    ensures r@ == roots_line(roots@),
{
    if roots.len() == 0 { String::from_str("(none)") } else { join_strings(roots, ", ") }
}

/// The dry-run report shows the eligible files and the eligible folders on lines of their
/// own, each with its own count: `Eligible files: ` with the number of eligible files, then
/// `Eligible folders: ` with the number of eligible folders.
pub proof fn lemma_report_lists_eligible_files_then_folders(
    summary: PreflightSummary,
    job_id: Seq<char>,
    source_email: Seq<char>,
    target_email: Seq<char>,
    roots: Seq<char>,
)
    ensures
        ({
            let report = summary.report(job_id, source_email, target_email, roots);
            let block = "\n"@ + "Eligible files: "@ + decimal(summary.eligible_files as nat) + "\n"@
                + "Eligible folders: "@ + decimal(summary.eligible_folders as nat) + "\n"@;
            exists|i: int| 0 <= i && i + block.len() <= report.len() && #[trigger] report.subrange(i, i + block.len()) == block
        }),
{
    let head = summary.report_head(job_id, source_email, target_email, roots);
    let block = "\n"@ + "Eligible files: "@ + decimal(summary.eligible_files as nat) + "\n"@
        + "Eligible folders: "@ + decimal(summary.eligible_folders as nat) + "\n"@;
    let report = head + summary.eligible_lines() + summary.report_rest();
    reveal_strlit("\n");
    let i = head.len() - 1;
    assert(head[i] == '\n');
    assert(report.subrange(i, i + block.len()) =~= block);
    assert(summary.report(job_id, source_email, target_email, roots) == report);
    assert(0 <= i && i + block.len() <= report.len());
}

} // verus!
