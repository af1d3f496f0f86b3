//! The final report of a finished job: counts per outcome, and the full inventory as CSV or
//! tab-separated text with every value redacted.

use vstd::prelude::*;
use crate::domain::{JobId, JobStatus};
use crate::item::ItemState;
use crate::preflight::{join_strings, joined};
use crate::redact::{
    avoids, has_marked_char, lemma_avoiding_text_is_unchanged, lemma_avoids_each, marks_every_pattern, redact_secrets,
    redacted_text, secret_keys,
};
use crate::text::{ascii_lower, chars_of, decimal, decimal_i64, decimal_u128, decimal_u64, digit_char, push_char, signed_decimal};

verus! {

/// Items per outcome.
#[derive(Clone, Copy, Debug, PartialEq, Eq, Structural)]
pub struct FinalReportCounts {
    pub total: u64,
    pub verified: u64,
    pub failed: u64,
    pub cancelled: u64,
    pub skipped: u64,
    pub unfinished: u64,
}

/// Where a report was written and what it counted.
#[derive(Clone, Debug, PartialEq, Eq)]
pub struct FinalReportExport {
    pub path: String,
    pub status: JobStatus,
    pub counts: FinalReportCounts,
}

/// One item of a finished job.
#[derive(Clone, Debug, PartialEq, Eq)]
pub struct FinalReportItem {
    pub file_id: String,
    pub name: String,
    pub mime_type: String,
    pub depth: i64,
    pub quota_bytes_used: Option<i64>,
    pub original_parent_ids: Vec<String>,
    pub state: ItemState,
    pub error_code: Option<String>,
    pub error_reason: Option<String>,
    pub error_message: Option<String>,
    pub transferred_at: Option<String>,
    pub verified_at: Option<String>,
}

/// Everything a final report shows.
pub struct FinalReportSnapshot {
    pub job_id: JobId,
    pub status: JobStatus,
    pub source_email: String,
    pub source_display_name: String,
    pub target_email: String,
    pub target_display_name: String,
    pub created_at: String,
    pub started_at: Option<String>,
    pub completed_at: Option<String>,
    pub last_error: Option<String>,
    pub roots: Vec<(String, String)>,
    pub items: Vec<FinalReportItem>,
}

/// The outcome an item counts under.
pub enum Outcome { Verified, Failed, Cancelled, Skipped, Unfinished }

pub open spec fn outcome_of_state(state: ItemState) -> Outcome {
    match state {
        ItemState::Verified => Outcome::Verified,
        ItemState::RetryableFailed | ItemState::PermanentFailed => Outcome::Failed,
        ItemState::Cancelled => Outcome::Cancelled,
        ItemState::SkippedAlreadyOwnedByTarget | ItemState::SkippedNotOwnedBySource
        | ItemState::SkippedSharedDrive | ItemState::SkippedShortcutTarget
        | ItemState::SkippedTrashed | ItemState::SkippedIneligible => Outcome::Skipped,
        _ => Outcome::Unfinished,
    }
}

/// The counts of a list of items.
pub open spec fn counts_of(items: Seq<FinalReportItem>) -> FinalReportCounts
    decreases items.len(),
{
    if items.len() == 0 {
        FinalReportCounts { total: 0, verified: 0, failed: 0, cancelled: 0, skipped: 0, unfinished: 0 }
    } else {
        let c = counts_of(items.drop_last());
        let t = (c.total + 1) as u64;
        match outcome_of_state(items.last().state) {
            Outcome::Verified => FinalReportCounts { total: t, verified: (c.verified + 1) as u64, ..c },
            Outcome::Failed => FinalReportCounts { total: t, failed: (c.failed + 1) as u64, ..c },
            Outcome::Cancelled => FinalReportCounts { total: t, cancelled: (c.cancelled + 1) as u64, ..c },
            Outcome::Skipped => FinalReportCounts { total: t, skipped: (c.skipped + 1) as u64, ..c },
            Outcome::Unfinished => FinalReportCounts { total: t, unfinished: (c.unfinished + 1) as u64, ..c },
        }
    }
}

/// Every item is counted exactly once: the total is the number of items and the sum of the
/// five outcomes.
pub proof fn lemma_counts_partition(items: Seq<FinalReportItem>)
    requires items.len() <= u64::MAX,
    ensures
        counts_of(items).total == items.len(),
        counts_of(items).total == counts_of(items).verified + counts_of(items).failed
            + counts_of(items).cancelled + counts_of(items).skipped + counts_of(items).unfinished,
    decreases items.len(),
{
    if items.len() > 0 {
        lemma_counts_partition(items.drop_last());
    }
}

/// No counts at all.
pub open spec fn no_counts() -> FinalReportCounts {
    FinalReportCounts { total: 0, verified: 0, failed: 0, cancelled: 0, skipped: 0, unfinished: 0 }
}

/// The counts `c` with one more item counted under its outcome.
pub open spec fn tally_item(c: FinalReportCounts, item: FinalReportItem) -> FinalReportCounts {
    let t = (c.total + 1) as u64;
    match outcome_of_state(item.state) {
        Outcome::Verified => FinalReportCounts { total: t, verified: (c.verified + 1) as u64, ..c },
        Outcome::Failed => FinalReportCounts { total: t, failed: (c.failed + 1) as u64, ..c },
        Outcome::Cancelled => FinalReportCounts { total: t, cancelled: (c.cancelled + 1) as u64, ..c },
        Outcome::Skipped => FinalReportCounts { total: t, skipped: (c.skipped + 1) as u64, ..c },
        Outcome::Unfinished => FinalReportCounts { total: t, unfinished: (c.unfinished + 1) as u64, ..c },
    }
}

proof fn lemma_counts_are_a_fold(items: Seq<FinalReportItem>)
    ensures counts_of(items) == items.fold_left(no_counts(), |c: FinalReportCounts, i: FinalReportItem| tally_item(c, i)),
    decreases items.len(),
{
    if items.len() > 0 {
        lemma_counts_are_a_fold(items.drop_last());
    }
}

/// The counts do not depend on the order of the items: any two lists holding the same
/// items, each as often, count the same.
pub proof fn lemma_counts_ignore_order(a: Seq<FinalReportItem>, b: Seq<FinalReportItem>)
    requires a.to_multiset() == b.to_multiset(),
    ensures counts_of(a) == counts_of(b),
{
    let f = |c: FinalReportCounts, i: FinalReportItem| tally_item(c, i);
    assert(vstd::seq_lib::commutative_foldl(f)) by {
        assert forall|x: FinalReportItem, y: FinalReportItem, v: FinalReportCounts|
            #[trigger] f(f(v, x), y) == f(f(v, y), x) by {
            assert(tally_item(tally_item(v, x), y) == tally_item(tally_item(v, y), x));
        }
    }
    vstd::seq_lib::lemma_fold_left_permutation(a, b, f, no_counts());
    lemma_counts_are_a_fold(a);
    lemma_counts_are_a_fold(b);
}

/// Each count is the number of items in its states: verified exactly those in `Verified`;
/// failed those in `RetryableFailed` or `PermanentFailed`; cancelled those in `Cancelled`;
/// skipped those in a skipped state; unfinished every other item, the transferred ones
/// still waiting for verification among them.
pub proof fn lemma_counts_by_state(items: Seq<FinalReportItem>)
    requires items.len() <= u64::MAX,
    ensures
        counts_of(items).verified == items.filter(|i: FinalReportItem| i.state == ItemState::Verified).len(),
        counts_of(items).failed == items.filter(|i: FinalReportItem|
            i.state == ItemState::RetryableFailed || i.state == ItemState::PermanentFailed).len(),
        counts_of(items).cancelled == items.filter(|i: FinalReportItem| i.state == ItemState::Cancelled).len(),
        counts_of(items).skipped == items.filter(|i: FinalReportItem| i.state.skipped()).len(),
        counts_of(items).unfinished == items.filter(|i: FinalReportItem|
            !i.state.terminal() && i.state != ItemState::RetryableFailed).len(),
    decreases items.len(),
{
    reveal(Seq::filter);
    if items.len() > 0 {
        lemma_counts_by_state(items.drop_last());
        lemma_counts_partition(items.drop_last());
    }
}

impl FinalReportSnapshot {
    /// Counts the items per outcome; transferred but unverified items count as unfinished.
    pub fn counts(&self) -> (r: FinalReportCounts)
        requires self.items.len() <= u64::MAX,
        ensures r == counts_of(self.items@),
    {
        let mut counts = FinalReportCounts { total: 0, verified: 0, failed: 0, cancelled: 0, skipped: 0, unfinished: 0 };
        let mut i: usize = 0;
        while i < self.items.len()
            invariant
                i <= self.items.len() <= u64::MAX,
                counts == counts_of(self.items@.take(i as int)),
            decreases self.items.len() - i,
        {
            proof {
                assert(self.items@.take(i + 1).drop_last() =~= self.items@.take(i as int));
                lemma_counts_partition(self.items@.take(i as int));
            }
            counts.total = counts.total + 1;
            match self.items[i].state {
                ItemState::Verified => counts.verified = counts.verified + 1,
                ItemState::RetryableFailed | ItemState::PermanentFailed => counts.failed = counts.failed + 1,
                ItemState::Cancelled => counts.cancelled = counts.cancelled + 1,
                ItemState::SkippedAlreadyOwnedByTarget | ItemState::SkippedNotOwnedBySource
                | ItemState::SkippedSharedDrive | ItemState::SkippedShortcutTarget
                | ItemState::SkippedTrashed | ItemState::SkippedIneligible => counts.skipped = counts.skipped + 1,
                ItemState::Discovered | ItemState::Eligible | ItemState::PendingOwnerRequired
                | ItemState::PendingOwnerCreated | ItemState::AcceptRequired | ItemState::Accepting
                | ItemState::Transferred | ItemState::Verifying => counts.unfinished = counts.unfinished + 1,
            }
            i += 1;
        }
        assert(self.items@.take(self.items.len() as int) =~= self.items@);
        counts
    }
}

} // verus!

verus! {

/// Spreadsheet programs run cells that start with these characters as formulas.
pub open spec fn is_formula_start(c: char) -> bool {
    c == '=' || c == '+' || c == '-' || c == '@' || c == '\t' || c == '\r'
}

/// Characters that force a CSV cell into quotes.
pub open spec fn is_csv_special(c: char) -> bool {
    c == ',' || c == '"' || c == '\n' || c == '\r'
}

/// `s` with every double quote doubled.
pub open spec fn escape_quotes(s: Seq<char>) -> Seq<char>
    decreases s.len(),
{
    if s.len() == 0 {
        Seq::empty()
    } else {
        escape_quotes(s.drop_last()) + if s.last() == '"' { seq!['"', '"'] } else { seq![s.last()] }
    }
}

/// A CSV cell: a value that could start a formula gets a leading `'`; a guarded value, or one
/// holding a comma, quote or line break, is quoted with its quotes doubled.
pub open spec fn csv_cell_text(v: Seq<char>) -> Seq<char> {
    let guard = v.len() > 0 && is_formula_start(v[0]);
    let guarded = if guard { seq!['\''] + v } else { v };
    if guard || exists|i: int| 0 <= i < v.len() && is_csv_special(#[trigger] v[i]) {
        seq!['"'] + escape_quotes(guarded) + seq!['"']
    } else {
        guarded
    }
}

/// Writes one CSV cell.
pub fn csv_cell(value: &str) -> (r: String)
    ensures r@ == csv_cell_text(value@),
{
    let v = chars_of(value);
    let guard = v.len() > 0 && (v[0] == '=' || v[0] == '+' || v[0] == '-' || v[0] == '@' || v[0] == '\t' || v[0] == '\r');
    let mut special = false;
    let mut i: usize = 0;
    while i < v.len()
        invariant
            i <= v.len(),
            special == exists|k: int| 0 <= k < i && is_csv_special(#[trigger] v@[k]),
        decreases v.len() - i,
    {
        if v[i] == ',' || v[i] == '"' || v[i] == '\n' || v[i] == '\r' {
            assert(is_csv_special(v@[i as int]));
            special = true;
        }
        i += 1;
    }
    let ghost guarded = if guard { seq!['\''] + v@ } else { v@ };
    let mut out = String::new();
    if guard || special {
        push_char(&mut out, '"');
        if guard {
            push_char(&mut out, '\'');
            assert(escape_quotes(seq!['\'']) =~= seq!['\'']) by {
                assert(seq!['\''].drop_last() =~= Seq::<char>::empty());
                reveal_with_fuel(escape_quotes, 2);
            }
        } else {
            assert(escape_quotes(Seq::<char>::empty()) == Seq::<char>::empty());
        }
        let ghost lead = if guard { seq!['\''] } else { Seq::<char>::empty() };
        assert(out@ == seq!['"'] + escape_quotes(lead));
        let mut j: usize = 0;
        while j < v.len()
            invariant
                j <= v.len(),
                out@ == seq!['"'] + escape_quotes(lead + v@.take(j as int)),
            decreases v.len() - j,
        {
            assert((lead + v@.take(j + 1)).drop_last() =~= lead + v@.take(j as int));
            push_char(&mut out, v[j]);
            if v[j] == '"' {
                push_char(&mut out, '"');
            }
            assert(out@ =~= seq!['"'] + escape_quotes(lead + v@.take(j + 1)));
            j += 1;
        }
        assert(lead + v@.take(v.len() as int) =~= guarded);
        push_char(&mut out, '"');
    } else {
        let mut j: usize = 0;
        while j < v.len()
            invariant
                j <= v.len(),
                out@ == v@.take(j as int),
            decreases v.len() - j,
        {
            push_char(&mut out, v[j]);
            assert(out@ =~= v@.take(j + 1));
            j += 1;
        }
        assert(v@.take(v.len() as int) =~= v@);
    }
    out
}

/// `s` with carriage returns, line feeds and tabs turned into spaces.
pub open spec fn flatten_controls(s: Seq<char>) -> Seq<char> {
    s.map_values(|c: char| if c == '\r' || c == '\n' || c == '\t' { ' ' } else { c })
}

/// One cell: the redacted value, CSV-escaped or with its control characters flattened.
pub open spec fn cell_text(v: Seq<char>, csv: bool) -> Seq<char> {
    if csv { csv_cell_text(redacted_text(v)) } else { flatten_controls(redacted_text(v)) }
}

/// The cells of a row with the separator between them.
pub open spec fn cells_text(values: Seq<Seq<char>>, csv: bool) -> Seq<char>
    decreases values.len(),
{
    if values.len() == 0 {
        Seq::empty()
    } else if values.len() == 1 {
        cell_text(values[0], csv)
    } else {
        cells_text(values.drop_last(), csv) + (if csv { ","@ } else { "\t"@ }) + cell_text(values.last(), csv)
    }
}

/// One row, ended by a line feed.
pub open spec fn row_text(values: Seq<Seq<char>>, csv: bool) -> Seq<char> {
    cells_text(values, csv) + "\n"@
}

/// The views of a list of strings.
pub open spec fn views(values: Seq<String>) -> Seq<Seq<char>> {
    values.map_values(|s: String| s@)
}

fn flatten(s: &String) -> (r: String)
    ensures r@ == flatten_controls(s@),
{
    let v = chars_of(s.as_str());
    let mut out = String::new();
    let mut i: usize = 0;
    while i < v.len()
        invariant
            i <= v.len(),
            out@ == flatten_controls(v@.take(i as int)),
        decreases v.len() - i,
    {
        let c = v[i];
        push_char(&mut out, if c == '\r' || c == '\n' || c == '\t' { ' ' } else { c });
        assert(out@ =~= flatten_controls(v@.take(i + 1)));
        i += 1;
    }
    assert(v@.take(v.len() as int) =~= v@);
    out
}

/// Appends one row of redacted cells.
pub fn append_row(output: &mut String, values: &Vec<String>, csv: bool)
    ensures final(output)@ == old(output)@ + row_text(views(values@), csv),
{
    let ghost start = output@;
    let mut i: usize = 0;
    while i < values.len()
        invariant
            i <= values.len(),
            output@ == start + cells_text(views(values@.take(i as int)), csv),
        decreases values.len() - i,
    {
        assert(views(values@.take(i + 1)).drop_last() =~= views(values@.take(i as int)));
        assert(views(values@.take(i + 1)).last() == values@[i as int]@);
        if i > 0 {
            output.append(if csv { "," } else { "\t" });
        }
        let sanitized = redact_secrets(values[i].as_str());
        if csv {
            let cell = csv_cell(sanitized.as_str());
            output.append(cell.as_str());
        } else {
            let cell = flatten(&sanitized);
            output.append(cell.as_str());
        }
        proof {
            if i == 0 {
                assert(views(values@.take(1)).len() == 1);
            }
        }
        i += 1;
    }
    assert(values@.take(values.len() as int) =~= values@);
    output.append("\n");
}

} // verus!

verus! {

/// An optional text, empty when absent.
pub open spec fn opt_text(o: Option<String>) -> Seq<char> {
    match o { Some(s) => s@, None => Seq::empty() }
}

/// The cells of one item row.
pub open spec fn item_values(item: FinalReportItem) -> Seq<Seq<char>> {
    seq![
        item.file_id@, item.name@, item.mime_type@, signed_decimal(item.depth as int),
        match item.quota_bytes_used { Some(q) => signed_decimal(q as int), None => Seq::empty() },
        joined(item.original_parent_ids@, ";"@), item.state.name(),
        opt_text(item.error_code), opt_text(item.error_reason), opt_text(item.error_message),
        opt_text(item.transferred_at), opt_text(item.verified_at)
    ]
}

/// The rows of the root section.
pub open spec fn root_rows_text(roots: Seq<(String, String)>, csv: bool) -> Seq<char>
    decreases roots.len(),
{
    if roots.len() == 0 {
        Seq::empty()
    } else {
        root_rows_text(roots.drop_last(), csv) + row_text(seq![roots.last().0@, roots.last().1@], csv)
    }
}

/// The rows of the item section.
pub open spec fn item_rows_text(items: Seq<FinalReportItem>, csv: bool) -> Seq<char>
    decreases items.len(),
{
    if items.len() == 0 {
        Seq::empty()
    } else {
        item_rows_text(items.drop_last(), csv) + row_text(item_values(items.last()), csv)
    }
}

/// The header of the item section.
pub open spec fn item_header() -> Seq<Seq<char>> {
    seq![
        "file_id"@, "name"@, "mime_type"@, "depth"@, "quota_bytes_used"@, "original_parent_ids"@,
        "state"@, "error_code"@, "error_reason"@, "error_message"@, "transferred_at"@, "verified_at"@
    ]
}

/// The name and value rows of the job section.
pub open spec fn metadata_text(snap: &FinalReportSnapshot, counts: FinalReportCounts, csv: bool) -> Seq<char> {
    row_text(seq!["job_id"@, decimal(snap.job_id.0 as nat)], csv)
        + row_text(seq!["status"@, snap.status.name()], csv)
        + row_text(seq!["source_email"@, snap.source_email@], csv)
        + row_text(seq!["source_display_name"@, snap.source_display_name@], csv)
        + row_text(seq!["target_email"@, snap.target_email@], csv)
        + row_text(seq!["target_display_name"@, snap.target_display_name@], csv)
        + row_text(seq!["created_at"@, snap.created_at@], csv)
        + row_text(seq!["started_at"@, opt_text(snap.started_at)], csv)
        + row_text(seq!["completed_at"@, opt_text(snap.completed_at)], csv)
        + row_text(seq!["last_error"@, opt_text(snap.last_error)], csv)
        + row_text(seq!["total"@, decimal(counts.total as nat)], csv)
        + row_text(seq!["verified"@, decimal(counts.verified as nat)], csv)
        + row_text(seq!["failed"@, decimal(counts.failed as nat)], csv)
        + row_text(seq!["cancelled"@, decimal(counts.cancelled as nat)], csv)
        + row_text(seq!["skipped"@, decimal(counts.skipped as nat)], csv)
        + row_text(seq!["unfinished"@, decimal(counts.unfinished as nat)], csv)
}

/// The whole report: the job section, the roots and the items, separated by empty lines.
pub open spec fn report_text(snap: &FinalReportSnapshot, csv: bool) -> Seq<char> {
    metadata_text(snap, counts_of(snap.items@), csv) + "\n"@
        + row_text(seq!["root_file_id"@, "root_name"@], csv) + root_rows_text(snap.roots@, csv) + "\n"@
        + row_text(item_header(), csv) + item_rows_text(snap.items@, csv)
}

fn append_pair(output: &mut String, name: &str, value: String, csv: bool)
    ensures final(output)@ == old(output)@ + row_text(seq![name@, value@], csv),
{
    let mut v: Vec<String> = Vec::new();
    v.push(String::from_str(name));
    v.push(value);
    assert(views(v@) =~= seq![name@, v@[1]@]);
    append_row(output, &v, csv);
}

fn opt_string(o: &Option<String>) -> (r: String)
    ensures r@ == opt_text(*o),
{
    match o {
        Some(s) => s.clone(),
        None => String::new(),
    }
}

fn item_row(item: &FinalReportItem) -> (r: Vec<String>)
    ensures views(r@) == item_values(*item),
{
    let mut v: Vec<String> = Vec::new();
    v.push(item.file_id.clone());
    v.push(item.name.clone());
    v.push(item.mime_type.clone());
    v.push(decimal_i64(item.depth));
    v.push(match item.quota_bytes_used { Some(q) => decimal_i64(q), None => String::new() });
    v.push(join_strings(&item.original_parent_ids, ";"));
    v.push(String::from_str(item.state.as_str()));
    v.push(opt_string(&item.error_code));
    v.push(opt_string(&item.error_reason));
    v.push(opt_string(&item.error_message));
    v.push(opt_string(&item.transferred_at));
    v.push(opt_string(&item.verified_at));
    assert(views(v@) =~= item_values(*item));
    v
}

fn header_row() -> (r: Vec<String>)
    ensures views(r@) == item_header(),
{
    let mut v: Vec<String> = Vec::new();
    v.push(String::from_str("file_id"));
    v.push(String::from_str("name"));
    v.push(String::from_str("mime_type"));
    v.push(String::from_str("depth"));
    v.push(String::from_str("quota_bytes_used"));
    v.push(String::from_str("original_parent_ids"));
    v.push(String::from_str("state"));
    v.push(String::from_str("error_code"));
    v.push(String::from_str("error_reason"));
    v.push(String::from_str("error_message"));
    v.push(String::from_str("transferred_at"));
    v.push(String::from_str("verified_at"));
    assert(views(v@) =~= item_header());
    v
}

#[verifier::spinoff_prover]
#[verifier::rlimit(60)]
fn append_metadata(output: &mut String, snap: &FinalReportSnapshot, counts: FinalReportCounts, csv: bool)
    ensures final(output)@ == old(output)@ + metadata_text(snap, counts, csv),
{
    let ghost start = output@;
    append_pair(output, "job_id", decimal_u128(snap.job_id.0), csv);
    append_pair(output, "status", String::from_str(snap.status.as_str()), csv);
    append_pair(output, "source_email", snap.source_email.clone(), csv);
    append_pair(output, "source_display_name", snap.source_display_name.clone(), csv);
    append_pair(output, "target_email", snap.target_email.clone(), csv);
    append_pair(output, "target_display_name", snap.target_display_name.clone(), csv);
    append_pair(output, "created_at", snap.created_at.clone(), csv);
    append_pair(output, "started_at", opt_string(&snap.started_at), csv);
    let ghost mid = output@;
    assert(mid =~= start
        + row_text(seq!["job_id"@, decimal(snap.job_id.0 as nat)], csv)
        + row_text(seq!["status"@, snap.status.name()], csv)
        + row_text(seq!["source_email"@, snap.source_email@], csv)
        + row_text(seq!["source_display_name"@, snap.source_display_name@], csv)
        + row_text(seq!["target_email"@, snap.target_email@], csv)
        + row_text(seq!["target_display_name"@, snap.target_display_name@], csv)
        + row_text(seq!["created_at"@, snap.created_at@], csv)
        + row_text(seq!["started_at"@, opt_text(snap.started_at)], csv));
    append_pair(output, "completed_at", opt_string(&snap.completed_at), csv);
    append_pair(output, "last_error", opt_string(&snap.last_error), csv);
    append_pair(output, "total", decimal_u64(counts.total), csv);
    append_pair(output, "verified", decimal_u64(counts.verified), csv);
    append_pair(output, "failed", decimal_u64(counts.failed), csv);
    append_pair(output, "cancelled", decimal_u64(counts.cancelled), csv);
    append_pair(output, "skipped", decimal_u64(counts.skipped), csv);
    append_pair(output, "unfinished", decimal_u64(counts.unfinished), csv);
    assert(output@ =~= start + metadata_text(snap, counts, csv));
}

fn append_roots(output: &mut String, roots: &Vec<(String, String)>, csv: bool)
    ensures final(output)@ == old(output)@ + root_rows_text(roots@, csv),
{
    let ghost start = output@;
    let mut i: usize = 0;
    while i < roots.len()
        invariant
            i <= roots.len(),
            output@ == start + root_rows_text(roots@.take(i as int), csv),
        decreases roots.len() - i,
    {
        assert(roots@.take(i + 1).drop_last() =~= roots@.take(i as int));
        let mut row: Vec<String> = Vec::new();
        row.push(roots[i].0.clone());
        row.push(roots[i].1.clone());
        assert(views(row@) =~= seq![roots@[i as int].0@, roots@[i as int].1@]);
        append_row(output, &row, csv);
        assert(output@ =~= start + root_rows_text(roots@.take(i + 1), csv));
        i += 1;
    }
    assert(roots@.take(roots.len() as int) =~= roots@);
}

fn append_items(output: &mut String, items: &Vec<FinalReportItem>, csv: bool)
    ensures final(output)@ == old(output)@ + item_rows_text(items@, csv),
{
    let ghost start = output@;
    let mut k: usize = 0;
    while k < items.len()
        invariant
            k <= items.len(),
            output@ == start + item_rows_text(items@.take(k as int), csv),
        decreases items.len() - k,
    {
        assert(items@.take(k + 1).drop_last() =~= items@.take(k as int));
        let row = item_row(&items[k]);
        append_row(output, &row, csv);
        assert(output@ =~= start + item_rows_text(items@.take(k + 1), csv));
        k += 1;
    }
    assert(items@.take(items.len() as int) =~= items@);
}

impl FinalReportSnapshot {
    /// Writes the report, as CSV when `csv` holds and tab-separated otherwise.
    #[verifier::rlimit(50)]
    pub fn render(&self, csv: bool) -> (r: String)
        requires self.items.len() <= u64::MAX,
        ensures r@ == report_text(self, csv),
    {
        let counts = self.counts();
        let mut output = String::new();
        append_metadata(&mut output, self, counts, csv);
        output.append("\n");
        let mut header: Vec<String> = Vec::new();
        header.push(String::from_str("root_file_id"));
        header.push(String::from_str("root_name"));
        assert(views(header@) =~= seq!["root_file_id"@, "root_name"@]);
        append_row(&mut output, &header, csv);
        append_roots(&mut output, &self.roots, csv);
        output.append("\n");
        let items_header = header_row();
        append_row(&mut output, &items_header, csv);
        append_items(&mut output, &self.items, csv);
        assert(output@ =~= report_text(self, csv));
        output
    }
}

} // verus!
verus! {

/// The punctuation of the redactor's patterns and the control characters a text cell
/// flattens.
pub open spec fn marks_punctuation(c: char) -> bool {
    c == ' ' || c == '.' || c == '/' || c == '=' || c == '\r' || c == '\n' || c == '\t'
}

/// `c, k` and the punctuation: every pattern holds one of them.
pub open spec fn marked_ck(c: char) -> bool {
    c == 'c' || c == 'k' || marks_punctuation(c)
}

/// `f, k, t` and the punctuation: every pattern holds one of them.
pub open spec fn marked_fkt(c: char) -> bool {
    c == 'f' || c == 'k' || c == 't' || marks_punctuation(c)
}

/// `f, k, n` and the punctuation: every pattern holds one of them.
pub open spec fn marked_fkn(c: char) -> bool {
    c == 'f' || c == 'k' || c == 'n' || marks_punctuation(c)
}

/// `c, n` and the punctuation: every pattern holds one of them.
pub open spec fn marked_cn(c: char) -> bool {
    c == 'c' || c == 'n' || marks_punctuation(c)
}

proof fn lemma_marks_ck()
    ensures marks_every_pattern(|c: char| marked_ck(c)),
{
    let marked = |c: char| marked_ck(c);
    reveal_strlit("access_token");
    reveal_strlit("accesstoken");
    reveal_strlit("refresh_token");
    reveal_strlit("refreshtoken");
    reveal_strlit("id_token");
    reveal_strlit("idtoken");
    reveal_strlit("client_secret");
    reveal_strlit("clientsecret");
    reveal_strlit("code_verifier");
    reveal_strlit("codeverifier");
    reveal_strlit("pkce_verifier");
    reveal_strlit("pkceverifier");
    reveal_strlit("authorization_code");
    reveal_strlit("authorizationcode");
    reveal_strlit("pkce");
    assert forall|k: int| 0 <= k < 15 implies #[trigger] has_marked_char(secret_keys()[k], marked) by {
        if k == 0 {
            assert(marked(secret_keys()[0][1]));
        } else if k == 1 {
            assert(marked(secret_keys()[1][1]));
        } else if k == 2 {
            assert(marked(secret_keys()[2][10]));
        } else if k == 3 {
            assert(marked(secret_keys()[3][9]));
        } else if k == 4 {
            assert(marked(secret_keys()[4][5]));
        } else if k == 5 {
            assert(marked(secret_keys()[5][4]));
        } else if k == 6 {
            assert(marked(secret_keys()[6][0]));
        } else if k == 7 {
            assert(marked(secret_keys()[7][0]));
        } else if k == 8 {
            assert(marked(secret_keys()[8][0]));
        } else if k == 9 {
            assert(marked(secret_keys()[9][0]));
        } else if k == 10 {
            assert(marked(secret_keys()[10][1]));
        } else if k == 11 {
            assert(marked(secret_keys()[11][1]));
        } else if k == 12 {
            assert(marked(secret_keys()[12][14]));
        } else if k == 13 {
            assert(marked(secret_keys()[13][13]));
        } else if k == 14 {
            assert(marked(secret_keys()[14][1]));
        }
    }
}

proof fn lemma_marks_fkt()
    ensures marks_every_pattern(|c: char| marked_fkt(c)),
{
    let marked = |c: char| marked_fkt(c);
    reveal_strlit("access_token");
    reveal_strlit("accesstoken");
    reveal_strlit("refresh_token");
    reveal_strlit("refreshtoken");
    reveal_strlit("id_token");
    reveal_strlit("idtoken");
    reveal_strlit("client_secret");
    reveal_strlit("clientsecret");
    reveal_strlit("code_verifier");
    reveal_strlit("codeverifier");
    reveal_strlit("pkce_verifier");
    reveal_strlit("pkceverifier");
    reveal_strlit("authorization_code");
    reveal_strlit("authorizationcode");
    reveal_strlit("pkce");
    assert forall|k: int| 0 <= k < 15 implies #[trigger] has_marked_char(secret_keys()[k], marked) by {
        if k == 0 {
            assert(marked(secret_keys()[0][7]));
        } else if k == 1 {
            assert(marked(secret_keys()[1][6]));
        } else if k == 2 {
            assert(marked(secret_keys()[2][2]));
        } else if k == 3 {
            assert(marked(secret_keys()[3][2]));
        } else if k == 4 {
            assert(marked(secret_keys()[4][3]));
        } else if k == 5 {
            assert(marked(secret_keys()[5][2]));
        } else if k == 6 {
            assert(marked(secret_keys()[6][5]));
        } else if k == 7 {
            assert(marked(secret_keys()[7][5]));
        } else if k == 8 {
            assert(marked(secret_keys()[8][9]));
        } else if k == 9 {
            assert(marked(secret_keys()[9][8]));
        } else if k == 10 {
            assert(marked(secret_keys()[10][1]));
        } else if k == 11 {
            assert(marked(secret_keys()[11][1]));
        } else if k == 12 {
            assert(marked(secret_keys()[12][2]));
        } else if k == 13 {
            assert(marked(secret_keys()[13][2]));
        } else if k == 14 {
            assert(marked(secret_keys()[14][1]));
        }
    }
}

proof fn lemma_marks_fkn()
    ensures marks_every_pattern(|c: char| marked_fkn(c)),
{
    let marked = |c: char| marked_fkn(c);
    reveal_strlit("access_token");
    reveal_strlit("accesstoken");
    reveal_strlit("refresh_token");
    reveal_strlit("refreshtoken");
    reveal_strlit("id_token");
    reveal_strlit("idtoken");
    reveal_strlit("client_secret");
    reveal_strlit("clientsecret");
    reveal_strlit("code_verifier");
    reveal_strlit("codeverifier");
    reveal_strlit("pkce_verifier");
    reveal_strlit("pkceverifier");
    reveal_strlit("authorization_code");
    reveal_strlit("authorizationcode");
    reveal_strlit("pkce");
    assert forall|k: int| 0 <= k < 15 implies #[trigger] has_marked_char(secret_keys()[k], marked) by {
        if k == 0 {
            assert(marked(secret_keys()[0][9]));
        } else if k == 1 {
            assert(marked(secret_keys()[1][8]));
        } else if k == 2 {
            assert(marked(secret_keys()[2][2]));
        } else if k == 3 {
            assert(marked(secret_keys()[3][2]));
        } else if k == 4 {
            assert(marked(secret_keys()[4][5]));
        } else if k == 5 {
            assert(marked(secret_keys()[5][4]));
        } else if k == 6 {
            assert(marked(secret_keys()[6][4]));
        } else if k == 7 {
            assert(marked(secret_keys()[7][4]));
        } else if k == 8 {
            assert(marked(secret_keys()[8][9]));
        } else if k == 9 {
            assert(marked(secret_keys()[9][8]));
        } else if k == 10 {
            assert(marked(secret_keys()[10][1]));
        } else if k == 11 {
            assert(marked(secret_keys()[11][1]));
        } else if k == 12 {
            assert(marked(secret_keys()[12][12]));
        } else if k == 13 {
            assert(marked(secret_keys()[13][12]));
        } else if k == 14 {
            assert(marked(secret_keys()[14][1]));
        }
    }
}

proof fn lemma_marks_cn()
    ensures marks_every_pattern(|c: char| marked_cn(c)),
{
    let marked = |c: char| marked_cn(c);
    reveal_strlit("access_token");
    reveal_strlit("accesstoken");
    reveal_strlit("refresh_token");
    reveal_strlit("refreshtoken");
    reveal_strlit("id_token");
    reveal_strlit("idtoken");
    reveal_strlit("client_secret");
    reveal_strlit("clientsecret");
    reveal_strlit("code_verifier");
    reveal_strlit("codeverifier");
    reveal_strlit("pkce_verifier");
    reveal_strlit("pkceverifier");
    reveal_strlit("authorization_code");
    reveal_strlit("authorizationcode");
    reveal_strlit("pkce");
    assert forall|k: int| 0 <= k < 15 implies #[trigger] has_marked_char(secret_keys()[k], marked) by {
        if k == 0 {
            assert(marked(secret_keys()[0][1]));
        } else if k == 1 {
            assert(marked(secret_keys()[1][1]));
        } else if k == 2 {
            assert(marked(secret_keys()[2][12]));
        } else if k == 3 {
            assert(marked(secret_keys()[3][11]));
        } else if k == 4 {
            assert(marked(secret_keys()[4][7]));
        } else if k == 5 {
            assert(marked(secret_keys()[5][6]));
        } else if k == 6 {
            assert(marked(secret_keys()[6][0]));
        } else if k == 7 {
            assert(marked(secret_keys()[7][0]));
        } else if k == 8 {
            assert(marked(secret_keys()[8][0]));
        } else if k == 9 {
            assert(marked(secret_keys()[9][0]));
        } else if k == 10 {
            assert(marked(secret_keys()[10][2]));
        } else if k == 11 {
            assert(marked(secret_keys()[11][2]));
        } else if k == 12 {
            assert(marked(secret_keys()[12][12]));
        } else if k == 13 {
            assert(marked(secret_keys()[13][12]));
        } else if k == 14 {
            assert(marked(secret_keys()[14][2]));
        }
    }
}

/// A value that avoids a set of characters marking every pattern is its own text cell.
proof fn lemma_plain_cell(v: Seq<char>, marked: spec_fn(char) -> bool)
    requires
        avoids(v, marked),
        marks_every_pattern(marked),
    ensures cell_text(v, false) == v,
{
    lemma_avoiding_text_is_unchanged(v, marked);
    lemma_avoids_each(v, marked);
    assert forall|j: int| 0 <= j < v.len() implies !(v[j] == '\r' || v[j] == '\n' || v[j] == '\t') by {
        assert(!marked(ascii_lower(v[j])));
    }
    assert(flatten_controls(v) =~= v);
}

/// A two-cell text row of plain values is the values with a tab between them.
proof fn lemma_plain_row(a: Seq<char>, b: Seq<char>)
    requires
        cell_text(a, false) == a,
        cell_text(b, false) == b,
    ensures row_text(seq![a, b], false) == plain_row(a, b),
{
    assert(seq![a, b].drop_last() =~= seq![a]);
    assert(cells_text(seq![a], false) == cell_text(a, false));
}

proof fn lemma_digit_unmarked(d: nat)
    requires d < 10,
    ensures !marked_ck(ascii_lower(digit_char(d))),
{
    assert(digit_char(d) as u32 == d + 48);
}

proof fn lemma_decimal_avoids(n: nat)
    ensures avoids(decimal(n), |c: char| marked_ck(c)),
    decreases n,
{
    let marked = |c: char| marked_ck(c);
    if n >= 10 {
        lemma_decimal_avoids(n / 10);
        lemma_digit_unmarked(n % 10);
        assert(decimal(n) == decimal(n / 10).push(digit_char(n % 10)));
        assert(decimal(n).drop_last() =~= decimal(n / 10));
        assert(decimal(n).last() == digit_char(n % 10));
        assert(!marked(ascii_lower(decimal(n).last())));
    } else {
        lemma_digit_unmarked(n);
        assert(decimal(n) == seq![digit_char(n)]);
        assert(decimal(n).drop_last() =~= Seq::<char>::empty());
        assert(!marked(ascii_lower(decimal(n).last())));
        assert(avoids(decimal(n).drop_last(), marked));
    }
}

proof fn lemma_decimal_cell(n: nat)
    ensures cell_text(decimal(n), false) == decimal(n),
{
    lemma_decimal_avoids(n);
    lemma_marks_ck();
    lemma_plain_cell(decimal(n), |c: char| marked_ck(c));
}

proof fn lemma_status_cell(status: JobStatus)
    ensures cell_text(status.name(), false) == status.name(),
{
    match status {
        JobStatus::Draft => {
            reveal_strlit("DRAFT");
            assert(avoids("DRAFT"@, |c: char| marked_ck(c))) by { reveal_with_fuel(avoids, 6); }
            lemma_marks_ck();
            lemma_plain_cell("DRAFT"@, |c: char| marked_ck(c));
        },
        JobStatus::Scanning => {
            reveal_strlit("SCANNING");
            assert(avoids("SCANNING"@, |c: char| marked_fkt(c))) by { reveal_with_fuel(avoids, 9); }
            lemma_marks_fkt();
            lemma_plain_cell("SCANNING"@, |c: char| marked_fkt(c));
        },
        JobStatus::Paused => {
            reveal_strlit("PAUSED");
            assert(avoids("PAUSED"@, |c: char| marked_ck(c))) by { reveal_with_fuel(avoids, 7); }
            lemma_marks_ck();
            lemma_plain_cell("PAUSED"@, |c: char| marked_ck(c));
        },
        JobStatus::ReadyForReview => {
            reveal_strlit("READY_FOR_REVIEW");
            assert(avoids("READY_FOR_REVIEW"@, |c: char| marked_ck(c))) by { reveal_with_fuel(avoids, 17); }
            lemma_marks_ck();
            lemma_plain_cell("READY_FOR_REVIEW"@, |c: char| marked_ck(c));
        },
        JobStatus::Queued => {
            reveal_strlit("QUEUED");
            assert(avoids("QUEUED"@, |c: char| marked_ck(c))) by { reveal_with_fuel(avoids, 7); }
            lemma_marks_ck();
            lemma_plain_cell("QUEUED"@, |c: char| marked_ck(c));
        },
        JobStatus::RunningCanary => {
            reveal_strlit("RUNNING_CANARY");
            assert(avoids("RUNNING_CANARY"@, |c: char| marked_fkt(c))) by { reveal_with_fuel(avoids, 15); }
            lemma_marks_fkt();
            lemma_plain_cell("RUNNING_CANARY"@, |c: char| marked_fkt(c));
        },
        JobStatus::CanaryReview => {
            reveal_strlit("CANARY_REVIEW");
            assert(avoids("CANARY_REVIEW"@, |c: char| marked_fkt(c))) by { reveal_with_fuel(avoids, 14); }
            lemma_marks_fkt();
            lemma_plain_cell("CANARY_REVIEW"@, |c: char| marked_fkt(c));
        },
        JobStatus::Running => {
            reveal_strlit("RUNNING");
            assert(avoids("RUNNING"@, |c: char| marked_ck(c))) by { reveal_with_fuel(avoids, 8); }
            lemma_marks_ck();
            lemma_plain_cell("RUNNING"@, |c: char| marked_ck(c));
        },
        JobStatus::Pausing => {
            reveal_strlit("PAUSING");
            assert(avoids("PAUSING"@, |c: char| marked_ck(c))) by { reveal_with_fuel(avoids, 8); }
            lemma_marks_ck();
            lemma_plain_cell("PAUSING"@, |c: char| marked_ck(c));
        },
        JobStatus::Cancelling => {
            reveal_strlit("CANCELLING");
            assert(avoids("CANCELLING"@, |c: char| marked_fkt(c))) by { reveal_with_fuel(avoids, 11); }
            lemma_marks_fkt();
            lemma_plain_cell("CANCELLING"@, |c: char| marked_fkt(c));
        },
        JobStatus::Completed => {
            reveal_strlit("COMPLETED");
            assert(avoids("COMPLETED"@, |c: char| marked_fkn(c))) by { reveal_with_fuel(avoids, 10); }
            lemma_marks_fkn();
            lemma_plain_cell("COMPLETED"@, |c: char| marked_fkn(c));
        },
        JobStatus::CompletedWithErrors => {
            reveal_strlit("COMPLETED_WITH_ERRORS");
            assert(avoids("COMPLETED_WITH_ERRORS"@, |c: char| marked_fkn(c))) by { reveal_with_fuel(avoids, 22); }
            lemma_marks_fkn();
            lemma_plain_cell("COMPLETED_WITH_ERRORS"@, |c: char| marked_fkn(c));
        },
        JobStatus::Cancelled => {
            reveal_strlit("CANCELLED");
            assert(avoids("CANCELLED"@, |c: char| marked_fkt(c))) by { reveal_with_fuel(avoids, 10); }
            lemma_marks_fkt();
            lemma_plain_cell("CANCELLED"@, |c: char| marked_fkt(c));
        },
        JobStatus::Failed => {
            reveal_strlit("FAILED");
            assert(avoids("FAILED"@, |c: char| marked_ck(c))) by { reveal_with_fuel(avoids, 7); }
            lemma_marks_ck();
            lemma_plain_cell("FAILED"@, |c: char| marked_ck(c));
        },
    }
}

proof fn lemma_label_cells()
    ensures
        cell_text("job_id"@, false) == "job_id"@,
        cell_text("status"@, false) == "status"@,
        cell_text("total"@, false) == "total"@,
        cell_text("verified"@, false) == "verified"@,
        cell_text("failed"@, false) == "failed"@,
        cell_text("cancelled"@, false) == "cancelled"@,
        cell_text("skipped"@, false) == "skipped"@,
        cell_text("unfinished"@, false) == "unfinished"@,
{
    lemma_marks_ck();
    lemma_marks_fkt();
    lemma_marks_cn();
    reveal_strlit("job_id");
    assert(avoids("job_id"@, |c: char| marked_ck(c))) by { reveal_with_fuel(avoids, 7); }
    lemma_plain_cell("job_id"@, |c: char| marked_ck(c));
    reveal_strlit("status");
    assert(avoids("status"@, |c: char| marked_ck(c))) by { reveal_with_fuel(avoids, 7); }
    lemma_plain_cell("status"@, |c: char| marked_ck(c));
    reveal_strlit("total");
    assert(avoids("total"@, |c: char| marked_ck(c))) by { reveal_with_fuel(avoids, 6); }
    lemma_plain_cell("total"@, |c: char| marked_ck(c));
    reveal_strlit("verified");
    assert(avoids("verified"@, |c: char| marked_ck(c))) by { reveal_with_fuel(avoids, 9); }
    lemma_plain_cell("verified"@, |c: char| marked_ck(c));
    reveal_strlit("failed");
    assert(avoids("failed"@, |c: char| marked_ck(c))) by { reveal_with_fuel(avoids, 7); }
    lemma_plain_cell("failed"@, |c: char| marked_ck(c));
    reveal_strlit("cancelled");
    assert(avoids("cancelled"@, |c: char| marked_fkt(c))) by { reveal_with_fuel(avoids, 10); }
    lemma_plain_cell("cancelled"@, |c: char| marked_fkt(c));
    reveal_strlit("skipped");
    assert(avoids("skipped"@, |c: char| marked_cn(c))) by { reveal_with_fuel(avoids, 8); }
    lemma_plain_cell("skipped"@, |c: char| marked_cn(c));
    reveal_strlit("unfinished");
    assert(avoids("unfinished"@, |c: char| marked_ck(c))) by { reveal_with_fuel(avoids, 11); }
    lemma_plain_cell("unfinished"@, |c: char| marked_ck(c));
}

/// A line of a text report: a name, a tab, a value.
pub open spec fn plain_row(name: Seq<char>, value: Seq<char>) -> Seq<char> {
    name + "\t"@ + value + "\n"@
}

/// The first two lines of a text report: the job and its status.
pub open spec fn opening_text(snap: &FinalReportSnapshot) -> Seq<char> {
    plain_row("job_id"@, decimal(snap.job_id.0 as nat)) + plain_row("status"@, snap.status.name())
}

/// The count lines of a text report.
pub open spec fn count_rows_text(c: FinalReportCounts) -> Seq<char> {
    plain_row("total"@, decimal(c.total as nat))
        + plain_row("verified"@, decimal(c.verified as nat))
        + plain_row("failed"@, decimal(c.failed as nat))
        + plain_row("cancelled"@, decimal(c.cancelled as nat))
        + plain_row("skipped"@, decimal(c.skipped as nat))
        + plain_row("unfinished"@, decimal(c.unfinished as nat))
}

/// The first two rows of the job section.
spec fn opening_rows(snap: &FinalReportSnapshot) -> Seq<char> {
    row_text(seq!["job_id"@, decimal(snap.job_id.0 as nat)], false) + row_text(seq!["status"@, snap.status.name()], false)
}

/// The rows between the status and the counts, without the last line feed.
spec fn detail_cells(snap: &FinalReportSnapshot) -> Seq<char> {
    row_text(seq!["source_email"@, snap.source_email@], false)
        + row_text(seq!["source_display_name"@, snap.source_display_name@], false)
        + row_text(seq!["target_email"@, snap.target_email@], false)
        + row_text(seq!["target_display_name"@, snap.target_display_name@], false)
        + row_text(seq!["created_at"@, snap.created_at@], false)
        + row_text(seq!["started_at"@, opt_text(snap.started_at)], false)
        + row_text(seq!["completed_at"@, opt_text(snap.completed_at)], false)
        + cells_text(seq!["last_error"@, opt_text(snap.last_error)], false)
}

/// The count rows of the job section.
spec fn count_rows(c: FinalReportCounts) -> Seq<char> {
    row_text(seq!["total"@, decimal(c.total as nat)], false)
        + row_text(seq!["verified"@, decimal(c.verified as nat)], false)
        + row_text(seq!["failed"@, decimal(c.failed as nat)], false)
        + row_text(seq!["cancelled"@, decimal(c.cancelled as nat)], false)
        + row_text(seq!["skipped"@, decimal(c.skipped as nat)], false)
        + row_text(seq!["unfinished"@, decimal(c.unfinished as nat)], false)
}

/// The roots and items after the job section.
spec fn report_tail(snap: &FinalReportSnapshot) -> Seq<char> {
    "\n"@ + row_text(seq!["root_file_id"@, "root_name"@], false) + root_rows_text(snap.roots@, false) + "\n"@
        + row_text(item_header(), false) + item_rows_text(snap.items@, false)
}

/// Regroups the pieces of a text report: the job section's rows, with the line feed that
/// ends its last detail row moved in front of the count rows, then the rest.
#[verifier::spinoff_prover]
proof fn lemma_regroup(
    o1: Seq<char>, o2: Seq<char>,
    d1: Seq<char>, d2: Seq<char>, d3: Seq<char>, d4: Seq<char>, d5: Seq<char>, d6: Seq<char>, d7: Seq<char>,
    e: Seq<char>, nl: Seq<char>,
    k1: Seq<char>, k2: Seq<char>, k3: Seq<char>, k4: Seq<char>, k5: Seq<char>, k6: Seq<char>,
    t1: Seq<char>, t2: Seq<char>, t3: Seq<char>, t4: Seq<char>, t5: Seq<char>, t6: Seq<char>,
)
    ensures
        o1 + o2 + d1 + d2 + d3 + d4 + d5 + d6 + d7 + (e + nl) + k1 + k2 + k3 + k4 + k5 + k6
            + t1 + t2 + t3 + t4 + t5 + t6
        == (o1 + o2) + (d1 + d2 + d3 + d4 + d5 + d6 + d7 + e) + (nl + (k1 + k2 + k3 + k4 + k5 + k6))
            + (t1 + t2 + t3 + t4 + t5 + t6),
{
    let front = o1 + o2 + d1 + d2 + d3 + d4 + d5 + d6 + d7;
    assert(front =~= (o1 + o2) + (d1 + d2 + d3 + d4 + d5 + d6 + d7));
    let meta = front + (e + nl) + k1 + k2 + k3 + k4 + k5 + k6;
    assert(meta =~= (o1 + o2) + (d1 + d2 + d3 + d4 + d5 + d6 + d7 + e) + (nl + (k1 + k2 + k3 + k4 + k5 + k6)));
    assert(meta + t1 + t2 + t3 + t4 + t5 + t6 =~= meta + (t1 + t2 + t3 + t4 + t5 + t6));
}

proof fn lemma_report_layout(snap: &FinalReportSnapshot)
    ensures
        report_text(snap, false) == opening_rows(snap) + detail_cells(snap)
            + ("\n"@ + count_rows(counts_of(snap.items@))) + report_tail(snap),
{
    let c = counts_of(snap.items@);
    lemma_regroup(
        row_text(seq!["job_id"@, decimal(snap.job_id.0 as nat)], false),
        row_text(seq!["status"@, snap.status.name()], false),
        row_text(seq!["source_email"@, snap.source_email@], false),
        row_text(seq!["source_display_name"@, snap.source_display_name@], false),
        row_text(seq!["target_email"@, snap.target_email@], false),
        row_text(seq!["target_display_name"@, snap.target_display_name@], false),
        row_text(seq!["created_at"@, snap.created_at@], false),
        row_text(seq!["started_at"@, opt_text(snap.started_at)], false),
        row_text(seq!["completed_at"@, opt_text(snap.completed_at)], false),
        cells_text(seq!["last_error"@, opt_text(snap.last_error)], false),
        "\n"@,
        row_text(seq!["total"@, decimal(c.total as nat)], false),
        row_text(seq!["verified"@, decimal(c.verified as nat)], false),
        row_text(seq!["failed"@, decimal(c.failed as nat)], false),
        row_text(seq!["cancelled"@, decimal(c.cancelled as nat)], false),
        row_text(seq!["skipped"@, decimal(c.skipped as nat)], false),
        row_text(seq!["unfinished"@, decimal(c.unfinished as nat)], false),
        "\n"@,
        row_text(seq!["root_file_id"@, "root_name"@], false),
        root_rows_text(snap.roots@, false),
        "\n"@,
        row_text(item_header(), false),
        item_rows_text(snap.items@, false),
    );
}

proof fn lemma_parts(a: Seq<char>, b: Seq<char>, c: Seq<char>, d: Seq<char>)
    ensures
        (a + b + c + d).subrange(0, a.len() as int) == a,
        (a + b + c + d).subrange((a.len() + b.len()) as int, (a.len() + b.len() + c.len()) as int) == c,
{
    assert((a + b + c + d).subrange(0, a.len() as int) =~= a);
    assert((a + b + c + d).subrange((a.len() + b.len()) as int, (a.len() + b.len() + c.len()) as int) =~= c);
}

/// Every text report opens with the job and its status, and shows the counts of its items,
/// one per line, each line led by its name and a tab.
pub proof fn lemma_report_shows_job_and_counts(snap: &FinalReportSnapshot)
    ensures
        opening_text(snap).len() <= report_text(snap, false).len(),
        report_text(snap, false).subrange(0, opening_text(snap).len() as int) == opening_text(snap),
        exists|i: int| 0 <= i && i + ("\n"@ + count_rows_text(counts_of(snap.items@))).len() <= report_text(snap, false).len()
            && #[trigger] report_text(snap, false).subrange(i, i + ("\n"@ + count_rows_text(counts_of(snap.items@))).len())
                == "\n"@ + count_rows_text(counts_of(snap.items@)),
{
    let c = counts_of(snap.items@);
    lemma_label_cells();
    lemma_decimal_cell(snap.job_id.0 as nat);
    lemma_status_cell(snap.status);
    lemma_decimal_cell(c.total as nat);
    lemma_decimal_cell(c.verified as nat);
    lemma_decimal_cell(c.failed as nat);
    lemma_decimal_cell(c.cancelled as nat);
    lemma_decimal_cell(c.skipped as nat);
    lemma_decimal_cell(c.unfinished as nat);
    lemma_plain_row("job_id"@, decimal(snap.job_id.0 as nat));
    lemma_plain_row("status"@, snap.status.name());
    lemma_plain_row("total"@, decimal(c.total as nat));
    lemma_plain_row("verified"@, decimal(c.verified as nat));
    lemma_plain_row("failed"@, decimal(c.failed as nat));
    lemma_plain_row("cancelled"@, decimal(c.cancelled as nat));
    lemma_plain_row("skipped"@, decimal(c.skipped as nat));
    lemma_plain_row("unfinished"@, decimal(c.unfinished as nat));
    assert(opening_rows(snap) == opening_text(snap));
    assert(count_rows(c) == count_rows_text(c));
    lemma_report_layout(snap);
    let a = opening_text(snap);
    let b = detail_cells(snap);
    let block = "\n"@ + count_rows_text(c);
    lemma_parts(a, b, block, report_tail(snap));
    let i: int = (a.len() + b.len()) as int;
    assert(report_text(snap, false).subrange(i, i + block.len()) == block);
}

proof fn lemma_started_at_cells()
    ensures
        cell_text("started_at"@, false) == "started_at"@,
        cell_text(Seq::<char>::empty(), false) == Seq::<char>::empty(),
{
    lemma_marks_ck();
    reveal_strlit("started_at");
    assert(avoids("started_at"@, |c: char| marked_ck(c))) by { reveal_with_fuel(avoids, 11); }
    lemma_plain_cell("started_at"@, |c: char| marked_ck(c));
    lemma_plain_cell(Seq::<char>::empty(), |c: char| marked_ck(c));
}

/// Regroups the pieces of a text report around the started-at row, with the line feed that
/// ends the row before it.
#[verifier::spinoff_prover]
proof fn lemma_regroup_started(
    o1: Seq<char>, o2: Seq<char>, d1: Seq<char>, d2: Seq<char>, d3: Seq<char>, d4: Seq<char>,
    c5: Seq<char>, nl: Seq<char>, st: Seq<char>, d7: Seq<char>, r8: Seq<char>,
    k1: Seq<char>, k2: Seq<char>, k3: Seq<char>, k4: Seq<char>, k5: Seq<char>, k6: Seq<char>,
    t1: Seq<char>, t2: Seq<char>, t3: Seq<char>, t4: Seq<char>, t5: Seq<char>, t6: Seq<char>,
)
    ensures
        o1 + o2 + d1 + d2 + d3 + d4 + (c5 + nl) + st + d7 + r8 + k1 + k2 + k3 + k4 + k5 + k6
            + t1 + t2 + t3 + t4 + t5 + t6
        == (o1 + o2 + d1 + d2 + d3 + d4 + c5) + (nl + st)
            + (d7 + r8 + k1 + k2 + k3 + k4 + k5 + k6 + t1 + t2 + t3 + t4 + t5 + t6),
{
    let front = o1 + o2 + d1 + d2 + d3 + d4;
    assert(front + (c5 + nl) + st =~= (front + c5) + (nl + st));
    let whole = front + (c5 + nl) + st + d7 + r8 + k1 + k2 + k3 + k4 + k5 + k6 + t1 + t2 + t3 + t4 + t5 + t6;
    assert(whole =~= (front + c5) + (nl + st)
        + (d7 + r8 + k1 + k2 + k3 + k4 + k5 + k6 + t1 + t2 + t3 + t4 + t5 + t6));
}

proof fn lemma_middle(a: Seq<char>, b: Seq<char>, c: Seq<char>)
    ensures (a + b + c).subrange(a.len() as int, (a.len() + b.len()) as int) == b,
{
    assert((a + b + c).subrange(a.len() as int, (a.len() + b.len()) as int) =~= b);
}

/// A job that has not started shows an empty start: its text report holds the line
/// `started_at` followed by a tab and nothing else.
pub proof fn lemma_report_shows_empty_start(snap: &FinalReportSnapshot)
    requires snap.started_at is None,
    ensures
        exists|i: int| 0 <= i && i + ("\n"@ + plain_row("started_at"@, Seq::empty())).len() <= report_text(snap, false).len()
            && #[trigger] report_text(snap, false).subrange(i, i + ("\n"@ + plain_row("started_at"@, Seq::empty())).len())
                == "\n"@ + plain_row("started_at"@, Seq::empty()),
{
    let c = counts_of(snap.items@);
    lemma_started_at_cells();
    lemma_plain_row("started_at"@, Seq::empty());
    let started = row_text(seq!["started_at"@, opt_text(snap.started_at)], false);
    assert(opt_text(snap.started_at) == Seq::<char>::empty());
    assert(started == plain_row("started_at"@, Seq::empty()));
    let created = cells_text(seq!["created_at"@, snap.created_at@], false);
    lemma_regroup_started(
        row_text(seq!["job_id"@, decimal(snap.job_id.0 as nat)], false),
        row_text(seq!["status"@, snap.status.name()], false),
        row_text(seq!["source_email"@, snap.source_email@], false),
        row_text(seq!["source_display_name"@, snap.source_display_name@], false),
        row_text(seq!["target_email"@, snap.target_email@], false),
        row_text(seq!["target_display_name"@, snap.target_display_name@], false),
        created,
        "\n"@,
        started,
        row_text(seq!["completed_at"@, opt_text(snap.completed_at)], false),
        row_text(seq!["last_error"@, opt_text(snap.last_error)], false),
        row_text(seq!["total"@, decimal(c.total as nat)], false),
        row_text(seq!["verified"@, decimal(c.verified as nat)], false),
        row_text(seq!["failed"@, decimal(c.failed as nat)], false),
        row_text(seq!["cancelled"@, decimal(c.cancelled as nat)], false),
        row_text(seq!["skipped"@, decimal(c.skipped as nat)], false),
        row_text(seq!["unfinished"@, decimal(c.unfinished as nat)], false),
        "\n"@,
        row_text(seq!["root_file_id"@, "root_name"@], false),
        root_rows_text(snap.roots@, false),
        "\n"@,
        row_text(item_header(), false),
        item_rows_text(snap.items@, false),
    );
    let a = row_text(seq!["job_id"@, decimal(snap.job_id.0 as nat)], false)
        + row_text(seq!["status"@, snap.status.name()], false)
        + row_text(seq!["source_email"@, snap.source_email@], false)
        + row_text(seq!["source_display_name"@, snap.source_display_name@], false)
        + row_text(seq!["target_email"@, snap.target_email@], false)
        + row_text(seq!["target_display_name"@, snap.target_display_name@], false)
        + created;
    let block = "\n"@ + started;
    let rest = row_text(seq!["completed_at"@, opt_text(snap.completed_at)], false)
        + row_text(seq!["last_error"@, opt_text(snap.last_error)], false)
        + row_text(seq!["total"@, decimal(c.total as nat)], false)
        + row_text(seq!["verified"@, decimal(c.verified as nat)], false)
        + row_text(seq!["failed"@, decimal(c.failed as nat)], false)
        + row_text(seq!["cancelled"@, decimal(c.cancelled as nat)], false)
        + row_text(seq!["skipped"@, decimal(c.skipped as nat)], false)
        + row_text(seq!["unfinished"@, decimal(c.unfinished as nat)], false)
        + "\n"@
        + row_text(seq!["root_file_id"@, "root_name"@], false)
        + root_rows_text(snap.roots@, false)
        + "\n"@
        + row_text(item_header(), false)
        + item_rows_text(snap.items@, false);
    assert(report_text(snap, false) == a + block + rest);
    lemma_middle(a, block, rest);
    assert(block == "\n"@ + plain_row("started_at"@, Seq::empty()));
    let i: int = a.len() as int;
    assert(report_text(snap, false).subrange(i, i + block.len()) == block);
}

} // verus!
