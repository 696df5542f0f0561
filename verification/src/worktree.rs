//! Renderers of the worktree commands.

use crate::locale::LocaleContext;
use crate::render;
use crate::render::{
    count_line_of, indented_line_of, line_of, named_line_of, optional_value_line_of,
    positive_count_line_of, value_line_of,
};
use crate::tally;
use crate::tally::tally_of;
use crate::text;
use crate::text::{
    cell, decimal_text, join_text, left_align, pad_to_width, push_cell, signed_decimal_text,
    truncate_bytes, width_of,
};
use vstd::prelude::*;

verus! {

/// What a worktree was made for.
#[derive(Debug, Clone, Copy, PartialEq, Eq, Structural)]
pub enum WorktreeKind {
    Session,
    Ab,
    Pool,
    Fork,
    Manual,
    Subagent,
}

/// Whether a worktree is still on disk.
#[derive(Debug, Clone, Copy, PartialEq, Eq, Structural)]
pub enum WorktreeStatus {
    Alive,
    Dead,
}

/// A worktree as the registry records it.
#[derive(Debug)]
pub struct WorktreeRecord {
    pub id: String,
    pub path: String,
    pub source_repo: String,
    pub repo_name: String,
    pub kind: WorktreeKind,
    pub creation_mode: String,
    pub git_ref: Option<String>,
    pub head_commit: Option<String>,
    pub created_at: i64,
    pub last_accessed_at: Option<i64>,
    pub session_id: Option<String>,
    pub creator_pid: Option<u32>,
    pub status: WorktreeStatus,
    pub label: Option<String>,
}

/// A row of the worktree table: the record, its age and its path as they are shown.
#[derive(Debug)]
pub struct ListedWorktree {
    pub record: WorktreeRecord,
    pub age: String,
    pub shown_path: String,
}

/// The measured size of a worktree that is on disk.
#[derive(Debug)]
pub struct MeasuredSize {
    pub shown_bytes: String,
    pub skipped: u64,
}

/// Statistics of the worktree registry.
#[derive(Debug)]
pub struct DbStats {
    pub total_records: u64,
    pub alive_count: u64,
    pub dead_count: u64,
    pub shown_db_size: String,
}

/// A worktree that a collection kept, and why.
#[derive(Debug)]
pub struct KeptWorktree {
    pub path: String,
    pub reason: String,
}

/// What a collection did.
#[derive(Debug)]
pub struct GcReport {
    pub dead_removed: u64,
    pub expired_removed: u64,
    pub no_repo_paths: u64,
    pub skipped_alive: u64,
    pub never_expiring: u64,
    pub kept_unsafe: u64,
    pub kept_reasons: Vec<(String, u64)>,
    pub kept: Vec<KeptWorktree>,
    pub names_collected: u64,
    pub not_judged: u64,
    pub unnamed: u64,
    pub remove_failed: u64,
}

/// What a rebuild of the registry found.
#[derive(Debug)]
pub struct RebuildReport {
    pub discovered: u64,
    pub registered: u64,
    pub already_tracked: u64,
}

pub const REPO_WIDTH: usize = 6;

pub const BRANCH_WIDTH: usize = 20;

pub const AGE_WIDTH: usize = 10;

pub const ID_WIDTH_MIN: usize = 16;

pub const LABEL_WIDTH_MIN: usize = 5;

pub const LABEL_WIDTH_MAX: usize = 24;

pub const MAX_KEPT_PRINTED: usize = 20;

/// The most bytes of a commit that are shown.
pub const SHORT_COMMIT: usize = 12;

/// The text for a kind.
pub open spec fn kind_text(ctx: LocaleContext, kind: WorktreeKind) -> Seq<char> {
    match kind {
        WorktreeKind::Session => ctx.named("du.kind.session"@, "session"@),
        WorktreeKind::Ab => ctx.named("du.kind.ab"@, "ab"@),
        WorktreeKind::Pool => ctx.named("du.kind.pool"@, "pool"@),
        WorktreeKind::Fork => ctx.named("du.kind.fork"@, "fork"@),
        WorktreeKind::Manual => ctx.named("du.kind.manual"@, "manual"@),
        WorktreeKind::Subagent => ctx.named("du.kind.subagent"@, "subagent"@),
    }
}

/// The text for a status.
pub open spec fn status_text(ctx: LocaleContext, status: WorktreeStatus) -> Seq<char> {
    match status {
        WorktreeStatus::Alive => ctx.named("worktree.status.alive"@, "alive"@),
        WorktreeStatus::Dead => ctx.named("worktree.status.dead"@, "dead"@),
    }
}

/// The text for a kind.
pub fn kind_label<'c>(ctx: LocaleContext<'c>, kind: WorktreeKind) -> (label: &'c str)
    ensures
        label@ == kind_text(ctx, kind),
{
    match kind {
        WorktreeKind::Session => ctx.named_static_text("du.kind.session", "session"),
        WorktreeKind::Ab => ctx.named_static_text("du.kind.ab", "ab"),
        WorktreeKind::Pool => ctx.named_static_text("du.kind.pool", "pool"),
        WorktreeKind::Fork => ctx.named_static_text("du.kind.fork", "fork"),
        WorktreeKind::Manual => ctx.named_static_text("du.kind.manual", "manual"),
        WorktreeKind::Subagent => ctx.named_static_text("du.kind.subagent", "subagent"),
    }
}

/// The text for a status.
pub fn status_label<'c>(ctx: LocaleContext<'c>, status: WorktreeStatus) -> (label: &'c str)
    ensures
        label@ == status_text(ctx, status),
{
    match status {
        WorktreeStatus::Alive => ctx.named_static_text("worktree.status.alive", "alive"),
        WorktreeStatus::Dead => ctx.named_static_text("worktree.status.dead", "dead"),
    }
}

/// How `chrono` writes the second `seconds` after the Unix epoch in UTC, after `format`;
/// nothing for a second outside its calendar.
pub uninterp spec fn utc_time(seconds: i64, format: Seq<char>) -> Option<Seq<char>>;

/// `chrono::DateTime::from_timestamp` with no nanoseconds, then `DateTime::format` and its
/// text. Both are functions of their arguments alone. `format` panics on a string that is no
/// format, so the one format in use is required; which text comes out is left to `chrono`.
#[verifier::external_body]
fn utc_time_text(seconds: i64, format: &str) -> (shown: Option<String>)
    requires
        format@ == "%Y-%m-%d %H:%M:%S UTC"@,
    ensures
        text::optional_text(shown) == utc_time(seconds, format@),
{
    match chrono::DateTime::from_timestamp(seconds, 0) {
        Some(at) => Some(at.format(format).to_string()),
        None => None,
    }
}

/// A timestamp as it is shown, given what the calendar makes of it: the number itself where
/// it lies outside.
pub open spec fn timestamp_text(seconds: i64, calendar: Option<Seq<char>>) -> Seq<char> {
    match calendar {
        Some(shown) => shown,
        None => text::signed_decimal(seconds as int),
    }
}

/// A timestamp in UTC.
pub open spec fn timestamp(seconds: i64) -> Seq<char> {
    timestamp_text(seconds, utc_time(seconds, "%Y-%m-%d %H:%M:%S UTC"@))
}

/// A timestamp as it is shown, given what the calendar makes of it.
pub fn timestamp_or_number(seconds: i64, calendar: Option<String>) -> (shown: String)
    ensures
        shown@ == timestamp_text(seconds, text::optional_text(calendar)),
{
    match calendar {
        Some(shown) => shown,
        None => signed_decimal_text(seconds),
    }
}

/// A timestamp in UTC; the number itself where it lies outside the calendar.
pub fn format_timestamp(seconds: i64) -> (shown: String)
    ensures
        shown@ == timestamp(seconds),
{
    timestamp_or_number(seconds, utc_time_text(seconds, "%Y-%m-%d %H:%M:%S UTC"))
}

/// The largest of the widths, or `floor` where none is larger.
pub open spec fn largest(widths: Seq<usize>, floor: usize) -> usize
    decreases widths.len(),
{
    if widths.len() == 0 {
        floor
    } else {
        let rest = largest(widths.drop_last(), floor);
        if widths.last() > rest {
            widths.last()
        } else {
            rest
        }
    }
}

/// Nothing that is measured is wider than the largest width.
pub proof fn largest_covers_all(widths: Seq<usize>, floor: usize, i: int)
    ensures
        floor <= largest(widths, floor),
        0 <= i < widths.len() ==> widths[i] <= largest(widths, floor),
    decreases widths.len(),
{
    if widths.len() > 0 {
        largest_covers_all(widths.drop_last(), floor, i);
    }
}

/// The largest of the widths, or `floor` where none is larger.
pub fn largest_of(widths: &Vec<usize>, floor: usize) -> (width: usize)
    ensures
        width == largest(widths@, floor),
{
    let mut width: usize = floor;
    let mut i: usize = 0;
    while i < widths.len()
        invariant
            i <= widths@.len(),
            width == largest(widths@.take(i as int), floor),
        decreases widths@.len() - i,
    {
        assert(widths@.take(i + 1).drop_last() =~= widths@.take(i as int));
        if widths[i] > width {
            width = widths[i];
        }
        i = i + 1;
    }
    assert(widths@.take(i as int) =~= widths@);
    width
}

/// The columns that a record's label takes; none without a label.
pub open spec fn record_label_width(record: WorktreeRecord) -> usize {
    match record.label {
        Some(label) => text::display_width(label@),
        None => 0,
    }
}

/// The width of the id column: every id fits.
pub open spec fn id_width(records: Seq<ListedWorktree>) -> usize {
    largest(
        records.map_values(|row: ListedWorktree| text::display_width(row.record.id@)),
        ID_WIDTH_MIN,
    )
}

/// The width of the label column, within its limits.
pub open spec fn label_width(records: Seq<ListedWorktree>) -> usize {
    let widest = largest(
        records.map_values(|row: ListedWorktree| record_label_width(row.record)),
        0,
    );
    if widest < LABEL_WIDTH_MIN {
        LABEL_WIDTH_MIN
    } else if widest > LABEL_WIDTH_MAX {
        LABEL_WIDTH_MAX
    } else {
        widest
    }
}

/// The width of the kind column: the header and every kind fit.
pub open spec fn kind_width(ctx: LocaleContext, records: Seq<ListedWorktree>) -> usize {
    largest(
        records.map_values(
            |row: ListedWorktree| text::display_width(kind_text(ctx, row.record.kind)),
        ),
        text::display_width(ctx.named("worktree.column.type"@, "TYPE"@)),
    )
}

fn id_width_of(records: &Vec<ListedWorktree>) -> (width: usize)
    ensures
        width == id_width(records@),
{
    let ghost all = records@.map_values(
        |row: ListedWorktree| text::display_width(row.record.id@),
    );
    let mut widths: Vec<usize> = Vec::new();
    let mut i: usize = 0;
    while i < records.len()
        invariant
            i <= records@.len(),
            all == records@.map_values(
                |row: ListedWorktree| text::display_width(row.record.id@),
            ),
            widths@ == all.take(i as int),
        decreases records@.len() - i,
    {
        widths.push(width_of(records[i].record.id.as_str()));
        assert(widths@ =~= all.take(i + 1));
        i = i + 1;
    }
    assert(widths@ =~= all);
    largest_of(&widths, ID_WIDTH_MIN)
}

fn label_width_of(records: &Vec<ListedWorktree>) -> (width: usize)
    ensures
        width == label_width(records@),
{
    let ghost all = records@.map_values(|row: ListedWorktree| record_label_width(row.record));
    let mut widths: Vec<usize> = Vec::new();
    let mut i: usize = 0;
    while i < records.len()
        invariant
            i <= records@.len(),
            all == records@.map_values(|row: ListedWorktree| record_label_width(row.record)),
            widths@ == all.take(i as int),
        decreases records@.len() - i,
    {
        let width: usize = match &records[i].record.label {
            Some(label) => width_of(label.as_str()),
            None => 0,
        };
        widths.push(width);
        assert(widths@ =~= all.take(i + 1));
        i = i + 1;
    }
    assert(widths@ =~= all);
    let widest = largest_of(&widths, 0);
    if widest < LABEL_WIDTH_MIN {
        LABEL_WIDTH_MIN
    } else if widest > LABEL_WIDTH_MAX {
        LABEL_WIDTH_MAX
    } else {
        widest
    }
}

fn kind_width_of(ctx: LocaleContext, records: &Vec<ListedWorktree>) -> (width: usize)
    ensures
        width == kind_width(ctx, records@),
{
    let ghost all = records@.map_values(
        |row: ListedWorktree| text::display_width(kind_text(ctx, row.record.kind)),
    );
    let mut widths: Vec<usize> = Vec::new();
    let mut i: usize = 0;
    while i < records.len()
        invariant
            i <= records@.len(),
            all == records@.map_values(
                |row: ListedWorktree| text::display_width(kind_text(ctx, row.record.kind)),
            ),
            widths@ == all.take(i as int),
        decreases records@.len() - i,
    {
        widths.push(width_of(kind_label(ctx, records[i].record.kind)));
        assert(widths@ =~= all.take(i + 1));
        i = i + 1;
    }
    assert(widths@ =~= all);
    largest_of(&widths, width_of(ctx.named_static_text("worktree.column.type", "TYPE")))
}

/// What stands in front of the path in a line of the table: six columns, of which the first is
/// never clipped and the last is padded by characters.
pub open spec fn table_lead(
    id: Seq<char>,
    kind: Seq<char>,
    repo: Seq<char>,
    label: Seq<char>,
    branch: Seq<char>,
    age: Seq<char>,
    ids: usize,
    kinds: usize,
    labels: usize,
) -> Seq<char> {
    "  "@ + text::padded(id, ids as nat) + " "@ + text::cell_text(kind, kinds as nat) + " "@
        + text::cell_text(repo, REPO_WIDTH as nat) + " "@ + text::cell_text(label, labels as nat)
        + " "@ + text::cell_text(branch, BRANCH_WIDTH as nat) + " "@ + age_cell(age) + " "@
}

/// The age column.
pub open spec fn age_cell(age: Seq<char>) -> Seq<char> {
    text::left_aligned(age, AGE_WIDTH as nat)
}

/// A line of the table: what stands in front of the path, and the path.
pub open spec fn table_line(
    id: Seq<char>,
    kind: Seq<char>,
    repo: Seq<char>,
    label: Seq<char>,
    branch: Seq<char>,
    age: Seq<char>,
    path: Seq<char>,
    ids: usize,
    kinds: usize,
    labels: usize,
) -> Seq<char> {
    table_lead(id, kind, repo, label, branch, age, ids, kinds, labels) + path + "\n"@
}

/// The display column at which the path starts, where the age takes `ages` columns.
pub open spec fn path_column(ids: usize, kinds: usize, labels: usize, ages: usize) -> int {
    2 + ids + 1 + kinds + 1 + REPO_WIDTH + 1 + labels + 1 + BRANCH_WIDTH + 1 + ages + 1
}

/// Whether an age fits its column in characters of one column each, as printable ASCII ones
/// are.
pub open spec fn is_even_age(age: Seq<char>) -> bool {
    (text::is_plain(age) || text::is_even(age)) && age.len() <= AGE_WIDTH
}

fn table_line_of(
    id: &str,
    kind: &str,
    repo: &str,
    label: &str,
    branch: &str,
    age: &str,
    path: &str,
    ids: usize,
    kinds: usize,
    labels: usize,
) -> (text: String)
    ensures
        text@ == table_line(id@, kind@, repo@, label@, branch@, age@, path@, ids, kinds, labels),
        text::display_width(id@) <= ids ==> text::display_width(
            table_lead(id@, kind@, repo@, label@, branch@, age@, ids, kinds, labels),
        ) == path_column(ids, kinds, labels, text::display_width(age_cell(age@))),
        is_even_age(age@) ==> text::display_width(age_cell(age@)) == AGE_WIDTH,
{
    let mut out = " ".to_owned();
    let _measured = width_of(out.as_str());
    proof {
        reveal_strlit(" ");
        reveal_strlit("  ");
        assert(text::is_plain(" "@));
        assert(" "@ + " "@ =~= "  "@);
    }
    push_cell(&mut out, pad_to_width(id, ids).as_str());
    push_cell(&mut out, cell(kind, kinds).as_str());
    push_cell(&mut out, cell(repo, REPO_WIDTH).as_str());
    push_cell(&mut out, cell(label, labels).as_str());
    push_cell(&mut out, cell(branch, BRANCH_WIDTH).as_str());
    push_cell(&mut out, left_align(age, AGE_WIDTH).as_str());
    let ghost cells = out@;
    out.append(" ");
    let _measured = width_of(out.as_str());
    assert(out@.drop_last() =~= cells);
    out.append(path);
    out.append("\n");
    out
}

/// The branch shown for a record: a detached one says so.
pub open spec fn branch_text(ctx: LocaleContext, record: WorktreeRecord) -> Seq<char> {
    match record.git_ref {
        Some(branch) => branch@,
        None => ctx.named("worktree.detached"@, "(detached)"@),
    }
}

/// The label shown for a record.
pub open spec fn label_text(record: WorktreeRecord) -> Seq<char> {
    match record.label {
        Some(label) => label@,
        None => ""@,
    }
}

/// What stands in front of the path in the row of one record.
pub open spec fn row_lead(
    ctx: LocaleContext,
    row: ListedWorktree,
    ids: usize,
    kinds: usize,
    labels: usize,
) -> Seq<char> {
    table_lead(
        row.record.id@,
        kind_text(ctx, row.record.kind),
        row.record.repo_name@,
        label_text(row.record),
        branch_text(ctx, row.record),
        row.age@,
        ids,
        kinds,
        labels,
    )
}

/// The row of one record.
pub open spec fn row_text(
    ctx: LocaleContext,
    row: ListedWorktree,
    ids: usize,
    kinds: usize,
    labels: usize,
) -> Seq<char> {
    row_lead(ctx, row, ids, kinds, labels) + row.shown_path@ + "\n"@
}

/// Whether the path of a row starts at the column that the widths give, and at one column for
/// every age in characters of one column each.
pub open spec fn is_aligned(
    ctx: LocaleContext,
    row: ListedWorktree,
    ids: usize,
    kinds: usize,
    labels: usize,
) -> bool {
    let start = text::display_width(row_lead(ctx, row, ids, kinds, labels));
    &&& start == path_column(ids, kinds, labels, text::display_width(age_cell(row.age@)))
    &&& is_even_age(row.age@) ==> start == path_column(ids, kinds, labels, AGE_WIDTH)
}

/// The rows of the records, one after the other.
pub open spec fn rows_text(
    ctx: LocaleContext,
    records: Seq<ListedWorktree>,
    ids: usize,
    kinds: usize,
    labels: usize,
) -> Seq<char>
    decreases records.len(),
{
    if records.len() == 0 {
        Seq::empty()
    } else {
        rows_text(ctx, records.drop_last(), ids, kinds, labels) + row_text(
            ctx,
            records.last(),
            ids,
            kinds,
            labels,
        )
    }
}

/// The header line.
pub open spec fn header_text(
    ctx: LocaleContext,
    ids: usize,
    kinds: usize,
    labels: usize,
) -> Seq<char> {
    table_line(
        ctx.named("worktree.column.id"@, "ID"@),
        ctx.named("worktree.column.type"@, "TYPE"@),
        ctx.named("worktree.column.repo"@, "REPO"@),
        ctx.named("worktree.column.label"@, "LABEL"@),
        ctx.named("worktree.column.branch"@, "BRANCH"@),
        ctx.named("worktree.column.age"@, "AGE"@),
        ctx.named("worktree.column.path"@, "PATH"@),
        ids,
        kinds,
        labels,
    )
}

/// One entry of the summary's breakdown.
pub open spec fn breakdown_entry(ctx: LocaleContext, entry: (Seq<char>, nat)) -> Seq<char> {
    ctx.formatted(
        "worktree.summary.kind"@,
        "{count} {kind}"@,
        seq![("count"@, text::decimal(entry.1)), ("kind"@, entry.0)],
    )
}

/// The kinds of the records, by their texts.
pub open spec fn kind_texts(ctx: LocaleContext, records: Seq<ListedWorktree>) -> Seq<Seq<char>> {
    records.map_values(|row: ListedWorktree| kind_text(ctx, row.record.kind))
}

/// How many records there are of each kind, in the order of the kinds' texts.
pub open spec fn breakdown_text(ctx: LocaleContext, records: Seq<ListedWorktree>) -> Seq<char> {
    text::joined(
        tally::tally(kind_texts(ctx, records)).map_values(
            |entry: (Seq<char>, nat)| breakdown_entry(ctx, entry),
        ),
        ", "@,
    )
}

/// The summary line.
pub open spec fn summary_text(ctx: LocaleContext, records: Seq<ListedWorktree>) -> Seq<char> {
    render::indented_line(
        ctx.formatted(
            "worktree.summary"@,
            "{count} worktrees ({breakdown})"@,
            seq![
                ("count"@, text::decimal(records.len())),
                ("breakdown"@, breakdown_text(ctx, records)),
            ],
        ),
    )
}

/// The worktree table: a header, a row for each record and a summary; one line where there is
/// no record.
pub open spec fn table_text(ctx: LocaleContext, records: Seq<ListedWorktree>) -> Seq<char> {
    if records.len() == 0 {
        render::named_line(ctx, "worktree.empty"@, "No worktrees found."@)
    } else {
        let ids = id_width(records);
        let kinds = kind_width(ctx, records);
        let labels = label_width(records);
        header_text(ctx, ids, kinds, labels) + rows_text(ctx, records, ids, kinds, labels)
            + summary_text(ctx, records)
    }
}

fn header_of(ctx: LocaleContext, ids: usize, kinds: usize, labels: usize) -> (text: String)
    ensures
        text@ == header_text(ctx, ids, kinds, labels),
{
    table_line_of(
        ctx.named_static_text("worktree.column.id", "ID"),
        ctx.named_static_text("worktree.column.type", "TYPE"),
        ctx.named_static_text("worktree.column.repo", "REPO"),
        ctx.named_static_text("worktree.column.label", "LABEL"),
        ctx.named_static_text("worktree.column.branch", "BRANCH"),
        ctx.named_static_text("worktree.column.age", "AGE"),
        ctx.named_static_text("worktree.column.path", "PATH"),
        ids,
        kinds,
        labels,
    )
}

fn row_of(ctx: LocaleContext, row: &ListedWorktree, ids: usize, kinds: usize, labels: usize) -> (text:
    String)
    ensures
        text@ == row_text(ctx, *row, ids, kinds, labels),
        text::display_width(row.record.id@) <= ids ==> is_aligned(ctx, *row, ids, kinds, labels),
{
    let branch: &str = match &row.record.git_ref {
        Some(branch) => branch.as_str(),
        None => ctx.named_static_text("worktree.detached", "(detached)"),
    };
    let label: &str = match &row.record.label {
        Some(label) => label.as_str(),
        None => "",
    };
    table_line_of(
        row.record.id.as_str(),
        kind_label(ctx, row.record.kind),
        row.record.repo_name.as_str(),
        label,
        branch,
        row.age.as_str(),
        row.shown_path.as_str(),
        ids,
        kinds,
        labels,
    )
}

fn rows_of(
    ctx: LocaleContext,
    records: &Vec<ListedWorktree>,
    ids: usize,
    kinds: usize,
    labels: usize,
) -> (text: String)
    requires
        ids == id_width(records@),
    ensures
        text@ == rows_text(ctx, records@, ids, kinds, labels),
        forall|i: int|
            0 <= i < records@.len() ==> is_aligned(
                ctx,
                #[trigger] records@[i],
                ids,
                kinds,
                labels,
            ),
{
    let mut out = String::new();
    let mut i: usize = 0;
    while i < records.len()
        invariant
            i <= records@.len(),
            ids == id_width(records@),
            out@ == rows_text(ctx, records@.take(i as int), ids, kinds, labels),
            forall|j: int|
                0 <= j < i ==> is_aligned(ctx, #[trigger] records@[j], ids, kinds, labels),
        decreases records@.len() - i,
    {
        proof {
            ids_are_never_truncated(records@, i as int);
        }
        assert(records@.take(i + 1).drop_last() =~= records@.take(i as int));
        out.append(row_of(ctx, &records[i], ids, kinds, labels).as_str());
        i = i + 1;
    }
    assert(records@.take(i as int) =~= records@);
    out
}

fn breakdown_of(ctx: LocaleContext, records: &Vec<ListedWorktree>) -> (text: String)
    ensures
        text@ == breakdown_text(ctx, records@),
{
    let ghost all = kind_texts(ctx, records@);
    let mut labels: Vec<String> = Vec::new();
    let mut i: usize = 0;
    while i < records.len()
        invariant
            i <= records@.len(),
            all == kind_texts(ctx, records@),
            text::texts(labels@) == all.take(i as int),
        decreases records@.len() - i,
    {
        let ghost before = labels@;
        labels.push(kind_label(ctx, records[i].record.kind).to_owned());
        assert(text::texts(labels@) =~= text::texts(before).push(all[i as int]));
        assert(text::texts(labels@) =~= all.take(i + 1));
        i = i + 1;
    }
    assert(text::texts(labels@) =~= all);
    let entries = tally_of(&labels);
    let ghost counts = tally::entries_of(entries@);
    let ghost shown = counts.map_values(|entry: (Seq<char>, nat)| breakdown_entry(ctx, entry));
    let mut parts: Vec<String> = Vec::new();
    let mut j: usize = 0;
    while j < entries.len()
        invariant
            j <= entries@.len(),
            counts == tally::entries_of(entries@),
            shown == counts.map_values(
                |entry: (Seq<char>, nat)| breakdown_entry(ctx, entry),
            ),
            text::texts(parts@) == shown.take(j as int),
        decreases entries@.len() - j,
    {
        let count = decimal_text(entries[j].1 as u128);
        let part = ctx.format_two(
            "worktree.summary.kind",
            "{count} {kind}",
            ("count", count.as_str()),
            ("kind", entries[j].0.as_str()),
        );
        assert(shown[j as int] == breakdown_entry(ctx, counts[j as int]));
        let ghost before = parts@;
        parts.push(part);
        assert(text::texts(parts@) =~= text::texts(before).push(shown[j as int]));
        assert(text::texts(parts@) =~= shown.take(j + 1));
        j = j + 1;
    }
    assert(text::texts(parts@) =~= shown);
    join_text(&parts, ", ")
}

fn summary_of(ctx: LocaleContext, records: &Vec<ListedWorktree>) -> (text: String)
    ensures
        text@ == summary_text(ctx, records@),
{
    let count = decimal_text(records.len() as u128);
    let breakdown = breakdown_of(ctx, records);
    let summary = ctx.format_two(
        "worktree.summary",
        "{count} worktrees ({breakdown})",
        ("count", count.as_str()),
        ("breakdown", breakdown.as_str()),
    );
    indented_line_of(summary.as_str())
}

/// The worktree table. The path of a row starts at a display column that depends on the columns
/// of the table and on how wide the row's age is, and on nothing else; for ages in characters
/// of one column each it is one column in every row.
pub fn print_table(ctx: LocaleContext, records: &Vec<ListedWorktree>) -> (text: String)
    ensures
        text@ == table_text(ctx, records@),
        forall|i: int|
            0 <= i < records@.len() ==> is_aligned(
                ctx,
                #[trigger] records@[i],
                id_width(records@),
                kind_width(ctx, records@),
                label_width(records@),
            ),
{
    if records.len() == 0 {
        return named_line_of(ctx, "worktree.empty", "No worktrees found.");
    }
    let ids = id_width_of(records);
    let kinds = kind_width_of(ctx, records);
    let labels = label_width_of(records);
    let mut out = header_of(ctx, ids, kinds, labels);
    out.append(rows_of(ctx, records, ids, kinds, labels).as_str());
    out.append(summary_of(ctx, records).as_str());
    out
}

/// The commit shown for a record: its first bytes.
pub open spec fn short_commit(commit: Option<String>) -> Option<Seq<char>> {
    match commit {
        Some(found) => Some(text::byte_limited(found@, SHORT_COMMIT as nat)),
        None => None,
    }
}

/// The timestamp shown for an optional second.
pub open spec fn optional_timestamp(seconds: Option<i64>) -> Option<Seq<char>> {
    match seconds {
        Some(found) => Some(timestamp(found)),
        None => None,
    }
}

/// The process shown for an optional number.
pub open spec fn optional_number(number: Option<u32>) -> Option<Seq<char>> {
    match number {
        Some(found) => Some(text::decimal(found as nat)),
        None => None,
    }
}

/// The note on entries that the measurement skipped.
pub open spec fn skipped_note(ctx: LocaleContext, skipped: u64) -> Seq<char> {
    if skipped > 0 {
        " "@ + ctx.formatted(
            "worktree.disk_usage.skipped"@,
            "({count} entries skipped)"@,
            seq![("count"@, text::decimal(skipped as nat))],
        )
    } else {
        Seq::empty()
    }
}

/// The line on disk usage; no line for a worktree that is not on disk.
pub open spec fn size_line(ctx: LocaleContext, size: Option<MeasuredSize>) -> Seq<char> {
    match size {
        Some(measured) => ctx.formatted(
            "worktree_cli.show.disk_usage"@,
            "  Disk Usage:     {value}"@,
            seq![("value"@, measured.shown_bytes@)],
        ) + skipped_note(ctx, measured.skipped) + "\n"@,
        None => Seq::empty(),
    }
}

/// Everything that is shown of one record, a line for each value that it holds.
pub open spec fn show_text(
    ctx: LocaleContext,
    rec: WorktreeRecord,
    size: Option<MeasuredSize>,
) -> Seq<char> {
    render::value_line(ctx, "worktree_cli.show.path"@, "  Path:           {value}"@, rec.path@)
        + render::value_line(ctx, "worktree_cli.show.id"@, "  ID:             {value}"@, rec.id@)
        + render::value_line(
        ctx,
        "worktree_cli.show.type"@,
        "  Type:           {value}"@,
        kind_text(ctx, rec.kind),
    ) + render::value_line(
        ctx,
        "worktree_cli.show.source_repo"@,
        "  Source Repo:    {value}"@,
        rec.source_repo@,
    ) + render::value_line(
        ctx,
        "worktree_cli.show.creation_mode"@,
        "  Creation Mode:  {value}"@,
        rec.creation_mode@,
    ) + render::optional_value_line(
        ctx,
        "worktree_cli.show.git_ref"@,
        "  Git Ref:        {value}"@,
        text::optional_text(rec.git_ref),
    ) + render::optional_value_line(
        ctx,
        "worktree_cli.show.head"@,
        "  HEAD:           {value}"@,
        short_commit(rec.head_commit),
    ) + render::value_line(
        ctx,
        "worktree_cli.show.created"@,
        "  Created:        {value}"@,
        timestamp(rec.created_at),
    ) + render::optional_value_line(
        ctx,
        "worktree_cli.show.last_accessed"@,
        "  Last Accessed:  {value}"@,
        optional_timestamp(rec.last_accessed_at),
    ) + render::optional_value_line(
        ctx,
        "worktree_cli.show.session_id"@,
        "  Session ID:     {value}"@,
        text::optional_text(rec.session_id),
    ) + render::optional_value_line(
        ctx,
        "worktree_cli.show.creator_pid"@,
        "  Creator PID:    {value}"@,
        optional_number(rec.creator_pid),
    ) + render::value_line(
        ctx,
        "worktree_cli.show.status"@,
        "  Status:         {value}"@,
        status_text(ctx, rec.status),
    ) + render::optional_value_line(
        ctx,
        "worktree_cli.show.label"@,
        "  Label:          {value}"@,
        text::optional_text(rec.label),
    ) + size_line(ctx, size)
}

fn size_line_of(ctx: LocaleContext, size: &Option<MeasuredSize>) -> (text: String)
    ensures
        text@ == size_line(ctx, *size),
{
    match size {
        Some(measured) => {
            let mut out = ctx.format_one(
                "worktree_cli.show.disk_usage",
                "  Disk Usage:     {value}",
                "value",
                measured.shown_bytes.as_str(),
            );
            let mut note = String::new();
            if measured.skipped > 0 {
                let count = decimal_text(measured.skipped as u128);
                note = " ".to_owned();
                note.append(
                    ctx.format_one(
                        "worktree.disk_usage.skipped",
                        "({count} entries skipped)",
                        "count",
                        count.as_str(),
                    ).as_str(),
                );
            }
            out.append(note.as_str());
            out.append("\n");
            out
        },
        None => String::new(),
    }
}

/// Everything that is shown of one record. `size` is the measured size of a worktree that is
/// on disk.
pub fn print_show(ctx: LocaleContext, rec: &WorktreeRecord, size: &Option<MeasuredSize>) -> (text:
    String)
    requires
        rec.head_commit matches Some(commit) ==> text::cuts_cleanly(
            commit@,
            SHORT_COMMIT as nat,
        ),
    ensures
        text@ == show_text(ctx, *rec, *size),
{
    let short: Option<String> = match &rec.head_commit {
        Some(commit) => Some(truncate_bytes(commit.as_str(), SHORT_COMMIT).to_owned()),
        None => None,
    };
    let accessed: Option<String> = match rec.last_accessed_at {
        Some(seconds) => Some(format_timestamp(seconds)),
        None => None,
    };
    let pid: Option<String> = match rec.creator_pid {
        Some(number) => Some(decimal_text(number as u128)),
        None => None,
    };
    let created = format_timestamp(rec.created_at);
    let mut out = value_line_of(
        ctx,
        "worktree_cli.show.path",
        "  Path:           {value}",
        rec.path.as_str(),
    );
    out.append(
        value_line_of(
            ctx,
            "worktree_cli.show.id",
            "  ID:             {value}",
            rec.id.as_str(),
        ).as_str(),
    );
    out.append(
        value_line_of(
            ctx,
            "worktree_cli.show.type",
            "  Type:           {value}",
            kind_label(ctx, rec.kind),
        ).as_str(),
    );
    out.append(
        value_line_of(
            ctx,
            "worktree_cli.show.source_repo",
            "  Source Repo:    {value}",
            rec.source_repo.as_str(),
        ).as_str(),
    );
    out.append(
        value_line_of(
            ctx,
            "worktree_cli.show.creation_mode",
            "  Creation Mode:  {value}",
            rec.creation_mode.as_str(),
        ).as_str(),
    );
    out.append(
        optional_value_line_of(
            ctx,
            "worktree_cli.show.git_ref",
            "  Git Ref:        {value}",
            &rec.git_ref,
        ).as_str(),
    );
    out.append(
        optional_value_line_of(
            ctx,
            "worktree_cli.show.head",
            "  HEAD:           {value}",
            &short,
        ).as_str(),
    );
    out.append(
        value_line_of(
            ctx,
            "worktree_cli.show.created",
            "  Created:        {value}",
            created.as_str(),
        ).as_str(),
    );
    out.append(
        optional_value_line_of(
            ctx,
            "worktree_cli.show.last_accessed",
            "  Last Accessed:  {value}",
            &accessed,
        ).as_str(),
    );
    out.append(
        optional_value_line_of(
            ctx,
            "worktree_cli.show.session_id",
            "  Session ID:     {value}",
            &rec.session_id,
        ).as_str(),
    );
    out.append(
        optional_value_line_of(
            ctx,
            "worktree_cli.show.creator_pid",
            "  Creator PID:    {value}",
            &pid,
        ).as_str(),
    );
    out.append(
        value_line_of(
            ctx,
            "worktree_cli.show.status",
            "  Status:         {value}",
            status_label(ctx, rec.status),
        ).as_str(),
    );
    out.append(
        optional_value_line_of(
            ctx,
            "worktree_cli.show.label",
            "  Label:          {value}",
            &rec.label,
        ).as_str(),
    );
    out.append(size_line_of(ctx, size).as_str());
    out
}

/// The statistics of the registry.
pub open spec fn stats_text(ctx: LocaleContext, stats: DbStats) -> Seq<char> {
    render::named_line(ctx, "worktree.stats.title"@, "Worktree DB Statistics"@) + render::line(
        "======================"@,
    ) + render::count_line(
        ctx,
        "worktree_cli.stats.total_records"@,
        "  Total records:  {count}"@,
        stats.total_records as nat,
    ) + render::count_line(
        ctx,
        "worktree_cli.stats.alive"@,
        "  Alive:          {count}"@,
        stats.alive_count as nat,
    ) + render::count_line(
        ctx,
        "worktree_cli.stats.dead"@,
        "  Dead:           {count}"@,
        stats.dead_count as nat,
    ) + render::value_line(
        ctx,
        "worktree_cli.stats.db_size"@,
        "  DB size:        {value}"@,
        stats.shown_db_size@,
    )
}

/// The statistics of the registry.
pub fn print_stats(ctx: LocaleContext, stats: &DbStats) -> (text: String)
    ensures
        text@ == stats_text(ctx, *stats),
{
    let mut out = named_line_of(ctx, "worktree.stats.title", "Worktree DB Statistics");
    out.append(line_of("======================").as_str());
    out.append(
        count_line_of(
            ctx,
            "worktree_cli.stats.total_records",
            "  Total records:  {count}",
            stats.total_records,
        ).as_str(),
    );
    out.append(
        count_line_of(
            ctx,
            "worktree_cli.stats.alive",
            "  Alive:          {count}",
            stats.alive_count,
        ).as_str(),
    );
    out.append(
        count_line_of(
            ctx,
            "worktree_cli.stats.dead",
            "  Dead:           {count}",
            stats.dead_count,
        ).as_str(),
    );
    out.append(
        value_line_of(
            ctx,
            "worktree_cli.stats.db_size",
            "  DB size:        {value}",
            stats.shown_db_size.as_str(),
        ).as_str(),
    );
    out
}

/// A reason for keeping worktrees, with how many it kept.
pub open spec fn reason_line(entry: (String, u64)) -> Seq<char> {
    "    "@ + entry.0@ + ": "@ + text::decimal(entry.1 as nat) + "\n"@
}

/// The reasons, one line each.
pub open spec fn reason_lines(entries: Seq<(String, u64)>) -> Seq<char>
    decreases entries.len(),
{
    if entries.len() == 0 {
        Seq::empty()
    } else {
        reason_lines(entries.drop_last()) + reason_line(entries.last())
    }
}

/// A worktree that was kept, with its reason.
pub open spec fn kept_line(kept: KeptWorktree) -> Seq<char> {
    "      "@ + kept.path@ + "  ("@ + kept.reason@ + ")\n"@
}

/// The worktrees that were kept, one line each.
pub open spec fn kept_lines(kept: Seq<KeptWorktree>) -> Seq<char>
    decreases kept.len(),
{
    if kept.len() == 0 {
        Seq::empty()
    } else {
        kept_lines(kept.drop_last()) + kept_line(kept.last())
    }
}

/// How many of the kept worktrees are named.
pub open spec fn printed_count(report: GcReport) -> nat {
    if report.kept@.len() < MAX_KEPT_PRINTED {
        report.kept@.len()
    } else {
        MAX_KEPT_PRINTED as nat
    }
}

/// How many kept worktrees are left unnamed.
pub open spec fn unnamed_count(report: GcReport) -> nat {
    let all: nat = if report.kept_unsafe <= usize::MAX {
        report.kept_unsafe as nat
    } else {
        usize::MAX as nat
    };
    text::monus(all, printed_count(report))
}

/// What is said of kept worktrees: how many, why, which of them, and how many are left
/// unnamed. Nothing where none was kept.
pub open spec fn kept_section(ctx: LocaleContext, report: GcReport) -> Seq<char> {
    if report.kept_unsafe > 0 {
        render::count_line(
            ctx,
            "worktree_cli.gc.kept_unsafe"@,
            "  Kept (not reclaimable):    {count}"@,
            report.kept_unsafe as nat,
        ) + reason_lines(report.kept_reasons@) + kept_lines(
            report.kept@.take(printed_count(report) as int),
        ) + render::positive_count_line(
            ctx,
            "worktree.gc.kept_more"@,
            "      and {count} more, named in the log"@,
            unnamed_count(report),
        )
    } else {
        Seq::empty()
    }
}

/// The report of a collection.
pub open spec fn gc_text(ctx: LocaleContext, report: GcReport) -> Seq<char> {
    render::named_line(ctx, "worktree.gc.title"@, "GC report:"@) + render::count_line(
        ctx,
        "worktree_cli.gc.dead_removed"@,
        "  Dead records removed:      {count}"@,
        report.dead_removed as nat,
    ) + render::count_line(
        ctx,
        "worktree_cli.gc.expired_removed"@,
        "  Expired worktrees removed: {count}"@,
        report.expired_removed as nat,
    ) + render::positive_count_line(
        ctx,
        "worktree_cli.gc.no_repo_paths"@,
        "  Non-repository paths:      {count}"@,
        report.no_repo_paths as nat,
    ) + render::count_line(
        ctx,
        "worktree_cli.gc.skipped_alive"@,
        "  Skipped (guarded):         {count}"@,
        report.skipped_alive as nat,
    ) + render::positive_count_line(
        ctx,
        "worktree_cli.gc.never_expiring"@,
        "  Kept (never expires):      {count}"@,
        report.never_expiring as nat,
    ) + kept_section(ctx, report) + render::positive_count_line(
        ctx,
        "worktree_cli.gc.names_collected"@,
        "  Reclaimed names dropped:   {count}"@,
        report.names_collected as nat,
    ) + render::positive_count_line(
        ctx,
        "worktree_cli.gc.not_judged"@,
        "  Not judged this pass:      {count}"@,
        report.not_judged as nat,
    ) + render::positive_count_line(
        ctx,
        "worktree_cli.gc.unnamed"@,
        "  Naming failed (kept):      {count}"@,
        report.unnamed as nat,
    ) + render::positive_count_line(
        ctx,
        "worktree_cli.gc.remove_failed"@,
        "  Removal failures:          {count}"@,
        report.remove_failed as nat,
    )
}

fn reason_lines_of(entries: &Vec<(String, u64)>) -> (text: String)
    ensures
        text@ == reason_lines(entries@),
{
    let mut out = String::new();
    let mut i: usize = 0;
    while i < entries.len()
        invariant
            i <= entries@.len(),
            out@ == reason_lines(entries@.take(i as int)),
        decreases entries@.len() - i,
    {
        assert(entries@.take(i + 1).drop_last() =~= entries@.take(i as int));
        let mut line = "    ".to_owned();
        line.append(entries[i].0.as_str());
        line.append(": ");
        line.append(decimal_text(entries[i].1 as u128).as_str());
        line.append("\n");
        out.append(line.as_str());
        i = i + 1;
    }
    assert(entries@.take(i as int) =~= entries@);
    out
}

fn kept_lines_of(kept: &Vec<KeptWorktree>, count: usize) -> (text: String)
    requires
        count <= kept@.len(),
    ensures
        text@ == kept_lines(kept@.take(count as int)),
{
    let mut out = String::new();
    let mut i: usize = 0;
    while i < count
        invariant
            i <= count <= kept@.len(),
            out@ == kept_lines(kept@.take(i as int)),
        decreases count - i,
    {
        assert(kept@.take(i + 1).drop_last() =~= kept@.take(i as int));
        let mut line = "      ".to_owned();
        line.append(kept[i].path.as_str());
        line.append("  (");
        line.append(kept[i].reason.as_str());
        line.append(")\n");
        out.append(line.as_str());
        i = i + 1;
    }
    out
}

fn kept_section_of(ctx: LocaleContext, report: &GcReport) -> (text: String)
    ensures
        text@ == kept_section(ctx, *report),
{
    if report.kept_unsafe == 0 {
        return String::new();
    }
    let printed: usize = if report.kept.len() < MAX_KEPT_PRINTED {
        report.kept.len()
    } else {
        MAX_KEPT_PRINTED
    };
    let all: usize = if report.kept_unsafe <= usize::MAX as u64 {
        report.kept_unsafe as usize
    } else {
        usize::MAX
    };
    let rest: usize = if all >= printed {
        all - printed
    } else {
        0
    };
    let mut out = count_line_of(
        ctx,
        "worktree_cli.gc.kept_unsafe",
        "  Kept (not reclaimable):    {count}",
        report.kept_unsafe,
    );
    out.append(reason_lines_of(&report.kept_reasons).as_str());
    out.append(kept_lines_of(&report.kept, printed).as_str());
    out.append(
        positive_count_line_of(
            ctx,
            "worktree.gc.kept_more",
            "      and {count} more, named in the log",
            rest as u64,
        ).as_str(),
    );
    out
}

/// The report of a collection.
pub fn print_gc(ctx: LocaleContext, report: &GcReport) -> (text: String)
    ensures
        text@ == gc_text(ctx, *report),
{
    let mut out = named_line_of(ctx, "worktree.gc.title", "GC report:");
    out.append(
        count_line_of(
            ctx,
            "worktree_cli.gc.dead_removed",
            "  Dead records removed:      {count}",
            report.dead_removed,
        ).as_str(),
    );
    out.append(
        count_line_of(
            ctx,
            "worktree_cli.gc.expired_removed",
            "  Expired worktrees removed: {count}",
            report.expired_removed,
        ).as_str(),
    );
    out.append(
        positive_count_line_of(
            ctx,
            "worktree_cli.gc.no_repo_paths",
            "  Non-repository paths:      {count}",
            report.no_repo_paths,
        ).as_str(),
    );
    out.append(
        count_line_of(
            ctx,
            "worktree_cli.gc.skipped_alive",
            "  Skipped (guarded):         {count}",
            report.skipped_alive,
        ).as_str(),
    );
    out.append(
        positive_count_line_of(
            ctx,
            "worktree_cli.gc.never_expiring",
            "  Kept (never expires):      {count}",
            report.never_expiring,
        ).as_str(),
    );
    out.append(kept_section_of(ctx, report).as_str());
    out.append(
        positive_count_line_of(
            ctx,
            "worktree_cli.gc.names_collected",
            "  Reclaimed names dropped:   {count}",
            report.names_collected,
        ).as_str(),
    );
    out.append(
        positive_count_line_of(
            ctx,
            "worktree_cli.gc.not_judged",
            "  Not judged this pass:      {count}",
            report.not_judged,
        ).as_str(),
    );
    out.append(
        positive_count_line_of(
            ctx,
            "worktree_cli.gc.unnamed",
            "  Naming failed (kept):      {count}",
            report.unnamed,
        ).as_str(),
    );
    out.append(
        positive_count_line_of(
            ctx,
            "worktree_cli.gc.remove_failed",
            "  Removal failures:          {count}",
            report.remove_failed,
        ).as_str(),
    );
    out
}

/// The report of a rebuild.
pub open spec fn rebuild_text(ctx: LocaleContext, report: RebuildReport) -> Seq<char> {
    render::named_line(ctx, "worktree.rebuild.title"@, "Rebuild report:"@) + render::count_line(
        ctx,
        "worktree_cli.rebuild.discovered"@,
        "  Discovered:      {count}"@,
        report.discovered as nat,
    ) + render::count_line(
        ctx,
        "worktree_cli.rebuild.registered"@,
        "  Registered:      {count}"@,
        report.registered as nat,
    ) + render::count_line(
        ctx,
        "worktree_cli.rebuild.already_tracked"@,
        "  Already tracked: {count}"@,
        report.already_tracked as nat,
    )
}

/// The report of a rebuild.
pub fn print_rebuild(ctx: LocaleContext, report: &RebuildReport) -> (text: String)
    ensures
        text@ == rebuild_text(ctx, *report),
{
    let mut out = named_line_of(ctx, "worktree.rebuild.title", "Rebuild report:");
    out.append(
        count_line_of(
            ctx,
            "worktree_cli.rebuild.discovered",
            "  Discovered:      {count}",
            report.discovered,
        ).as_str(),
    );
    out.append(
        count_line_of(
            ctx,
            "worktree_cli.rebuild.registered",
            "  Registered:      {count}",
            report.registered,
        ).as_str(),
    );
    out.append(
        count_line_of(
            ctx,
            "worktree_cli.rebuild.already_tracked",
            "  Already tracked: {count}",
            report.already_tracked,
        ).as_str(),
    );
    out
}

/// Every id fits its column, so that padding it keeps it whole.
pub proof fn ids_are_never_truncated(records: Seq<ListedWorktree>, i: int)
    requires
        0 <= i < records.len(),
    ensures
        text::display_width(records[i].record.id@) <= id_width(records),
        text::padded(records[i].record.id@, id_width(records) as nat).take(
            records[i].record.id@.len() as int,
        ) == records[i].record.id@,
{
    let widths = records.map_values(
        |row: ListedWorktree| text::display_width(row.record.id@),
    );
    largest_covers_all(widths, ID_WIDTH_MIN, i);
    assert(widths[i] == text::display_width(records[i].record.id@));
}

/// The label column stays within its limits, however long a label is.
pub proof fn label_column_is_bounded(records: Seq<ListedWorktree>)
    ensures
        LABEL_WIDTH_MIN <= label_width(records) <= LABEL_WIDTH_MAX,
{
}

/// A collection that kept worktrees accounts for each: what is named and what is left to the
/// log add up to what was kept, where no more are named than were kept.
pub proof fn kept_worktrees_are_accounted_for(report: GcReport)
    requires
        report.kept_unsafe <= usize::MAX,
        report.kept@.len() <= report.kept_unsafe,
    ensures
        printed_count(report) + unnamed_count(report) == report.kept_unsafe,
{
}

/// The largest width is the floor or one of the widths.
pub proof fn largest_is_reached(widths: Seq<usize>, floor: usize)
    ensures
        largest(widths, floor) == floor || exists|i: int|
            0 <= i < widths.len() && #[trigger] widths[i] == largest(widths, floor),
    decreases widths.len(),
{
    if widths.len() > 0 {
        let rest = widths.drop_last();
        largest_is_reached(rest, floor);
        if widths.last() > largest(rest, floor) {
            assert(widths[widths.len() - 1] == largest(widths, floor));
        } else if largest(rest, floor) != floor {
            let i = choose|i: int|
                0 <= i < rest.len() && #[trigger] rest[i] == largest(rest, floor);
            assert(widths[i] == largest(widths, floor));
        }
    }
}

/// Whether the label of a row takes `width` columns.
pub open spec fn has_label_of(row: ListedWorktree, width: usize) -> bool {
    row.record.label is Some && text::display_width(row.record.label->0@) == width
}

/// A label of at most 24 columns is shown whole, wherever in the table it stands, and a longer
/// one makes the column as wide as it gets.
pub proof fn labels_that_fit_are_shown_whole(records: Seq<ListedWorktree>, i: int, width: usize)
    requires
        0 <= i < records.len(),
        has_label_of(records[i], width),
    ensures
        width <= 24 ==> width <= label_width(records),
        width <= 24 ==> text::clipped(records[i].record.label->0@, label_width(records) as nat)
            == records[i].record.label->0@,
        width > 24 ==> label_width(records) == 24,
{
    let widths = records.map_values(|row: ListedWorktree| record_label_width(row.record));
    largest_covers_all(widths, 0, i);
    assert(widths[i] == width);
    text::clipping_keeps_a_beginning(records[i].record.label->0@, label_width(records) as nat);
}

/// The label column is no wider than the labels need: beyond 5 columns some label is as wide as
/// the column, or wider than it can get.
pub proof fn label_column_is_no_wider_than_needed(records: Seq<ListedWorktree>)
    ensures
        5 <= label_width(records) <= 24,
        label_width(records) > 5 ==> exists|i: int, width: usize|
            0 <= i < records.len() && #[trigger] has_label_of(records[i], width) && width
                >= label_width(records),
{
    let widths = records.map_values(|row: ListedWorktree| record_label_width(row.record));
    largest_is_reached(widths, 0);
    if label_width(records) > 5 {
        let i = choose|i: int| 0 <= i < widths.len() && #[trigger] widths[i] == largest(widths, 0);
        assert(widths[i] == record_label_width(records[i].record));
        assert(has_label_of(records[i], widths[i]));
    }
}

/// The id column is as wide as the widest id, and 16 columns where no id is wider.
pub proof fn id_column_is_as_wide_as_needed(records: Seq<ListedWorktree>, i: int)
    ensures
        id_width(records) >= 16,
        0 <= i < records.len() ==> text::display_width(records[i].record.id@) <= id_width(records),
        id_width(records) > 16 ==> exists|j: int|
            0 <= j < records.len() && text::display_width((#[trigger] records[j]).record.id@)
                == id_width(records),
{
    let widths = records.map_values(|row: ListedWorktree| text::display_width(row.record.id@));
    largest_covers_all(widths, ID_WIDTH_MIN, i);
    largest_is_reached(widths, ID_WIDTH_MIN);
    if 0 <= i < records.len() {
        assert(widths[i] == text::display_width(records[i].record.id@));
    }
    if id_width(records) > 16 {
        let j = choose|j: int|
            0 <= j < widths.len() && #[trigger] widths[j] == largest(widths, ID_WIDTH_MIN);
        assert(text::display_width(records[j].record.id@) == id_width(records));
    }
}

/// The kind column is as wide as its title or as the widest kind, whichever is wider.
pub proof fn kind_column_is_as_wide_as_needed(
    ctx: LocaleContext,
    records: Seq<ListedWorktree>,
    i: int,
)
    ensures
        ({
            let title = text::display_width(ctx.named("worktree.column.type"@, "TYPE"@));
            &&& title <= kind_width(ctx, records)
            &&& 0 <= i < records.len() ==> text::display_width(
                kind_text(ctx, records[i].record.kind),
            ) <= kind_width(ctx, records)
            &&& kind_width(ctx, records) > title ==> exists|j: int|
                0 <= j < records.len() && text::display_width(
                    kind_text(ctx, (#[trigger] records[j]).record.kind),
                ) == kind_width(ctx, records)
        }),
{
    let title = text::display_width(ctx.named("worktree.column.type"@, "TYPE"@));
    let widths = records.map_values(
        |row: ListedWorktree| text::display_width(kind_text(ctx, row.record.kind)),
    );
    largest_covers_all(widths, title, i);
    largest_is_reached(widths, title);
    if 0 <= i < records.len() {
        assert(widths[i] == text::display_width(kind_text(ctx, records[i].record.kind)));
    }
    if kind_width(ctx, records) > title {
        let j = choose|j: int|
            0 <= j < widths.len() && #[trigger] widths[j] == largest(widths, title);
        assert(text::display_width(kind_text(ctx, records[j].record.kind)) == kind_width(
            ctx,
            records,
        ));
    }
}

/// Where the context has no words of its own, kinds and statuses show their English names.
pub proof fn kinds_and_statuses_have_their_names(ctx: LocaleContext)
    requires
        forall|id: Seq<char>| #[trigger] ctx.looked_up(id) is None,
    ensures
        kind_text(ctx, WorktreeKind::Session) == "session"@,
        kind_text(ctx, WorktreeKind::Ab) == "ab"@,
        kind_text(ctx, WorktreeKind::Pool) == "pool"@,
        kind_text(ctx, WorktreeKind::Fork) == "fork"@,
        kind_text(ctx, WorktreeKind::Manual) == "manual"@,
        kind_text(ctx, WorktreeKind::Subagent) == "subagent"@,
        status_text(ctx, WorktreeStatus::Alive) == "alive"@,
        status_text(ctx, WorktreeStatus::Dead) == "dead"@,
{
}

/// A row starts with its id behind two spaces and ends in its path. In between it shows its age,
/// and of its kind, repository, label and branch as much as their columns take; without a branch
/// it says that it is detached.
pub proof fn rows_show_their_record(
    ctx: LocaleContext,
    row: ListedWorktree,
    ids: usize,
    kinds: usize,
    labels: usize,
)
    ensures
        ({
            let shown = row_text(ctx, row, ids, kinds, labels);
            &&& ("  "@ + row.record.id@).is_prefix_of(shown)
            &&& (row.shown_path@ + "\n"@).is_suffix_of(shown)
            &&& text::occurs_in(row.age@, shown)
            &&& text::occurs_in(
                text::clipped(kind_text(ctx, row.record.kind), kinds as nat),
                shown,
            )
            &&& text::occurs_in(text::clipped(row.record.repo_name@, 6), shown)
            &&& row.record.label is Some ==> text::occurs_in(
                text::clipped(row.record.label->0@, labels as nat),
                shown,
            )
            &&& row.record.git_ref is Some ==> text::occurs_in(
                text::clipped(row.record.git_ref->0@, 20),
                shown,
            )
            &&& row.record.git_ref is None ==> text::occurs_in(
                text::clipped(ctx.named("worktree.detached"@, "(detached)"@), 20),
                shown,
            )
        }),
{
    broadcast use text::group_occurrences;
    broadcast use text::lemma_starts_with;
    broadcast use text::lemma_starts_with_itself;

    let id = row.record.id@;
    let gap = text::monus(ids as nat, text::display_width(id) as nat);
    text::lemma_regroup("  "@, id, text::spaces(gap));
    let lead = row_lead(ctx, row, ids, kinds, labels);
    text::lemma_regroup(lead, row.shown_path@, "\n"@);
    text::lemma_ends_in(lead, row.shown_path@ + "\n"@);
}

/// The row of a record without a label is that of a record with an empty one.
pub proof fn missing_labels_are_empty(record: WorktreeRecord)
    ensures
        record.label is None ==> label_text(record).len() == 0,
        record.label is Some ==> label_text(record) == record.label->0@,
{
    reveal_strlit("");
}

/// Rows stand one after the other, in the order of the records, and each shows its own record.
pub proof fn rows_add_up(
    ctx: LocaleContext,
    left: Seq<ListedWorktree>,
    right: Seq<ListedWorktree>,
    row: ListedWorktree,
    ids: usize,
    kinds: usize,
    labels: usize,
)
    ensures
        rows_text(ctx, left + right, ids, kinds, labels) == rows_text(ctx, left, ids, kinds, labels)
            + rows_text(ctx, right, ids, kinds, labels),
        rows_text(ctx, seq![row], ids, kinds, labels) == row_text(ctx, row, ids, kinds, labels),
        rows_text(ctx, Seq::empty(), ids, kinds, labels) == Seq::<char>::empty(),
{
    let one = seq![row];
    let none = Seq::<ListedWorktree>::empty();
    assert(one.drop_last() =~= none);
    assert(rows_text(ctx, none, ids, kinds, labels) + row_text(ctx, row, ids, kinds, labels)
        =~= row_text(ctx, row, ids, kinds, labels));
    lemma_rows_concat(ctx, left, right, ids, kinds, labels);
}

proof fn lemma_rows_concat(
    ctx: LocaleContext,
    left: Seq<ListedWorktree>,
    right: Seq<ListedWorktree>,
    ids: usize,
    kinds: usize,
    labels: usize,
)
    ensures
        rows_text(ctx, left + right, ids, kinds, labels) == rows_text(ctx, left, ids, kinds, labels)
            + rows_text(ctx, right, ids, kinds, labels),
    decreases right.len(),
{
    let first = rows_text(ctx, left, ids, kinds, labels);
    if right.len() == 0 {
        assert(left + right =~= left);
        assert(first + Seq::<char>::empty() =~= first);
    } else {
        let front = right.drop_last();
        lemma_rows_concat(ctx, left, front, ids, kinds, labels);
        assert((left + right).drop_last() =~= left + front);
        assert((left + right).last() == right.last());
        let middle = rows_text(ctx, front, ids, kinds, labels);
        let last = row_text(ctx, right.last(), ids, kinds, labels);
        assert(first + middle + last =~= first + (middle + last));
    }
}

proof fn lemma_row_stands(
    ctx: LocaleContext,
    records: Seq<ListedWorktree>,
    i: int,
    ids: usize,
    kinds: usize,
    labels: usize,
)
    requires
        0 <= i < records.len(),
    ensures
        text::occurs_in(
            row_text(ctx, records[i], ids, kinds, labels),
            rows_text(ctx, records, ids, kinds, labels),
        ),
    decreases records.len(),
{
    broadcast use text::group_occurrences;

    if i < records.len() - 1 {
        lemma_row_stands(ctx, records.drop_last(), i, ids, kinds, labels);
    }
}

/// Every worktree has its row in the table, in the columns that all of them share, and beside the
/// rows there are only the titles and the summary; without a worktree the table is one line that
/// says so.
pub proof fn every_worktree_has_its_row(
    ctx: LocaleContext,
    records: Seq<ListedWorktree>,
    i: int,
)
    ensures
        records.len() == 0 ==> table_text(ctx, records) == ctx.named(
            "worktree.empty"@,
            "No worktrees found."@,
        ) + "\n"@,
        0 <= i < records.len() ==> text::occurs_in(
            row_text(
                ctx,
                records[i],
                id_width(records),
                kind_width(ctx, records),
                label_width(records),
            ),
            table_text(ctx, records),
        ),
        records.len() > 0 ==> {
            let ids = id_width(records);
            let kinds = kind_width(ctx, records);
            let labels = label_width(records);
            table_text(ctx, records).len() == header_text(ctx, ids, kinds, labels).len()
                + rows_text(ctx, records, ids, kinds, labels).len() + summary_text(
                ctx,
                records,
            ).len()
        },
{
    broadcast use text::group_occurrences;

    if 0 <= i < records.len() {
        let ids = id_width(records);
        let kinds = kind_width(ctx, records);
        let labels = label_width(records);
        lemma_row_stands(ctx, records, i, ids, kinds, labels);
    }
}

/// The breakdown names the kinds as the tally of them does, each with its count, with a comma and
/// a space between neighbours; the kinds that are tallied are those of the records, one each.
pub proof fn breakdowns_name_the_tally(
    ctx: LocaleContext,
    records: Seq<ListedWorktree>,
    i: int,
)
    requires
        0 <= i < records.len(),
    ensures
        kind_texts(ctx, records).len() == records.len(),
        kind_texts(ctx, records)[i] == kind_text(ctx, records[i].record.kind),
        breakdown_text(ctx, records) == text::joined(
            tally::tally(kind_texts(ctx, records)).map_values(
                |entry: (Seq<char>, nat)|
                    ctx.formatted(
                        "worktree.summary.kind"@,
                        "{count} {kind}"@,
                        seq![("count"@, text::decimal(entry.1)), ("kind"@, entry.0)],
                    ),
            ),
            ", "@,
        ),
{
    let entries = tally::tally(kind_texts(ctx, records));
    assert(entries.map_values(|entry: (Seq<char>, nat)| breakdown_entry(ctx, entry))
        =~= entries.map_values(
        |entry: (Seq<char>, nat)|
            ctx.formatted(
                "worktree.summary.kind"@,
                "{count} {kind}"@,
                seq![("count"@, text::decimal(entry.1)), ("kind"@, entry.0)],
            ),
    ));
}

/// The table starts with the titles of its columns, each as far as its column takes it.
pub proof fn tables_start_with_their_titles(ctx: LocaleContext, records: Seq<ListedWorktree>)
    requires
        records.len() > 0,
    ensures
        ("  "@ + ctx.named("worktree.column.id"@, "ID"@)).is_prefix_of(table_text(ctx, records)),
        ({
            let table = table_text(ctx, records);
            &&& text::occurs_in(ctx.named("worktree.column.type"@, "TYPE"@), table)
            &&& text::occurs_in(
                text::clipped(ctx.named("worktree.column.repo"@, "REPO"@), 6),
                table,
            )
            &&& text::occurs_in(
                text::clipped(
                    ctx.named("worktree.column.label"@, "LABEL"@),
                    label_width(records) as nat,
                ),
                table,
            )
            &&& text::occurs_in(
                text::clipped(ctx.named("worktree.column.branch"@, "BRANCH"@), 20),
                table,
            )
            &&& text::occurs_in(ctx.named("worktree.column.age"@, "AGE"@), table)
            &&& text::occurs_in(ctx.named("worktree.column.path"@, "PATH"@) + "\n"@, table)
        }),
{
    broadcast use text::group_occurrences;
    broadcast use text::lemma_starts_with;
    broadcast use text::lemma_starts_with_itself;

    let ids = id_width(records);
    let kinds = kind_width(ctx, records);
    let labels = label_width(records);
    let id = ctx.named("worktree.column.id"@, "ID"@);
    kind_column_is_as_wide_as_needed(ctx, records, 0);
    text::clipping_keeps_a_beginning(
        ctx.named("worktree.column.type"@, "TYPE"@),
        kinds as nat,
    );
    let gap = text::monus(ids as nat, text::display_width(id) as nat);
    text::lemma_regroup("  "@, id, text::spaces(gap));
    let path = ctx.named("worktree.column.path"@, "PATH"@);
    let ahead = table_lead(
        id,
        ctx.named("worktree.column.type"@, "TYPE"@),
        ctx.named("worktree.column.repo"@, "REPO"@),
        ctx.named("worktree.column.label"@, "LABEL"@),
        ctx.named("worktree.column.branch"@, "BRANCH"@),
        ctx.named("worktree.column.age"@, "AGE"@),
        ids,
        kinds,
        labels,
    );
    text::lemma_regroup(ahead, path, "\n"@);
    assert(text::occurs_in(path + "\n"@, ahead + (path + "\n"@)));
    assert(text::occurs_in(path + "\n"@, header_text(ctx, ids, kinds, labels)));
}

/// The table ends in its summary: how many worktrees there are and, for the kind of each, how
/// many there are of that kind.
pub proof fn tables_end_in_their_summary(
    ctx: LocaleContext,
    records: Seq<ListedWorktree>,
    i: int,
)
    requires
        0 <= i < records.len(),
        ctx.looked_up("worktree.summary"@) is None,
        ctx.looked_up("worktree.summary.kind"@) is None,
    ensures
        ({
            let kind = kind_text(ctx, records[i].record.kind);
            let entry = text::decimal(tally::occurrences(kind_texts(ctx, records), kind)) + " "@
                + kind;
            exists|breakdown: Seq<char>|
                {
                    &&& text::occurs_in(entry, breakdown)
                    &&& (#[trigger] ("  "@ + text::decimal(records.len()) + " worktrees ("@
                        + breakdown + ")\n"@)).is_suffix_of(table_text(ctx, records))
                }
        }),
{
    let kinds = kind_texts(ctx, records);
    let kind = kind_text(ctx, records[i].record.kind);
    let count = tally::occurrences(kinds, kind);
    assert(kinds[i] == kind);
    lemma_occurring(kinds, i);
    tally::every_label_is_named(kinds, kind);
    let entries = tally::tally(kinds);
    let k = choose|k: int| 0 <= k < entries.len() && entries[k] == (kind, count);
    let shown = entries.map_values(|entry: (Seq<char>, nat)| breakdown_entry(ctx, entry));
    assert(shown[k] == breakdown_entry(ctx, (kind, count)));
    text::joining_keeps_every_part(shown, ", "@, k);
    reveal_strlit("{count} {kind}");
    reveal_strlit("count");
    reveal_strlit("kind");
    reveal_strlit(" ");
    reveal_strlit("breakdown");
    reveal_strlit("{count} worktrees ({breakdown})");
    reveal_strlit(" worktrees (");
    reveal_strlit(")");
    reveal_strlit(")\n");
    reveal_strlit("\n");
    let none = Seq::<char>::empty();
    render::lemma_two_values(none, "count"@, " "@, "kind"@, none, (text::decimal(count), kind));
    assert("{count} {kind}"@ =~= none + seq!['{'] + "count"@ + seq!['}'] + (" "@ + seq!['{']
        + "kind"@ + seq!['}'] + none));
    assert(shown[k] =~= text::decimal(count) + " "@ + kind);
    let breakdown = breakdown_text(ctx, records);
    assert("count"@.len() != "breakdown"@.len());
    render::lemma_two_values(
        none,
        "count"@,
        " worktrees ("@,
        "breakdown"@,
        ")"@,
        (text::decimal(records.len()), breakdown),
    );
    assert("{count} worktrees ({breakdown})"@ =~= none + seq!['{'] + "count"@ + seq!['}'] + (
    " worktrees ("@ + seq!['{'] + "breakdown"@ + seq!['}'] + ")"@));
    let summary = "  "@ + text::decimal(records.len()) + " worktrees ("@ + breakdown + ")\n"@;
    assert(summary_text(ctx, records) =~= summary);
    let table = table_text(ctx, records);
    assert(table.subrange(table.len() - summary.len(), table.len() as int) =~= summary);
}

proof fn lemma_occurring(labels: Seq<Seq<char>>, i: int)
    requires
        0 <= i < labels.len(),
    ensures
        tally::occurrences(labels, labels[i]) > 0,
    decreases labels.len(),
{
    if i < labels.len() - 1 {
        lemma_occurring(labels.drop_last(), i);
    }
}

/// Every value that a record holds has its line: the values that every record has, and each
/// optional value where the record has it.
pub proof fn every_value_of_a_record_is_shown(
    ctx: LocaleContext,
    rec: WorktreeRecord,
    size: Option<MeasuredSize>,
)
    ensures
        ({
            let shown = show_text(ctx, rec, size);
            &&& text::occurs_in(
                ctx.formatted(
                    "worktree_cli.show.path"@,
                    "  Path:           {value}"@,
                    seq![("value"@, rec.path@)],
                ) + "\n"@,
                shown,
            )
            &&& text::occurs_in(
                ctx.formatted(
                    "worktree_cli.show.id"@,
                    "  ID:             {value}"@,
                    seq![("value"@, rec.id@)],
                ) + "\n"@,
                shown,
            )
            &&& text::occurs_in(
                ctx.formatted(
                    "worktree_cli.show.type"@,
                    "  Type:           {value}"@,
                    seq![("value"@, kind_text(ctx, rec.kind))],
                ) + "\n"@,
                shown,
            )
            &&& text::occurs_in(
                ctx.formatted(
                    "worktree_cli.show.source_repo"@,
                    "  Source Repo:    {value}"@,
                    seq![("value"@, rec.source_repo@)],
                ) + "\n"@,
                shown,
            )
            &&& text::occurs_in(
                ctx.formatted(
                    "worktree_cli.show.creation_mode"@,
                    "  Creation Mode:  {value}"@,
                    seq![("value"@, rec.creation_mode@)],
                ) + "\n"@,
                shown,
            )
            &&& rec.git_ref is Some ==> text::occurs_in(
                ctx.formatted(
                    "worktree_cli.show.git_ref"@,
                    "  Git Ref:        {value}"@,
                    seq![("value"@, rec.git_ref->0@)],
                ) + "\n"@,
                shown,
            )
            &&& rec.head_commit is Some ==> text::occurs_in(
                ctx.formatted(
                    "worktree_cli.show.head"@,
                    "  HEAD:           {value}"@,
                    seq![("value"@, text::byte_limited(rec.head_commit->0@, 12))],
                ) + "\n"@,
                shown,
            )
            &&& text::occurs_in(
                ctx.formatted(
                    "worktree_cli.show.created"@,
                    "  Created:        {value}"@,
                    seq![("value"@, timestamp(rec.created_at))],
                ) + "\n"@,
                shown,
            )
            &&& rec.last_accessed_at is Some ==> text::occurs_in(
                ctx.formatted(
                    "worktree_cli.show.last_accessed"@,
                    "  Last Accessed:  {value}"@,
                    seq![("value"@, timestamp(rec.last_accessed_at->0))],
                ) + "\n"@,
                shown,
            )
            &&& rec.session_id is Some ==> text::occurs_in(
                ctx.formatted(
                    "worktree_cli.show.session_id"@,
                    "  Session ID:     {value}"@,
                    seq![("value"@, rec.session_id->0@)],
                ) + "\n"@,
                shown,
            )
            &&& rec.creator_pid is Some ==> text::occurs_in(
                ctx.formatted(
                    "worktree_cli.show.creator_pid"@,
                    "  Creator PID:    {value}"@,
                    seq![("value"@, text::decimal(rec.creator_pid->0 as nat))],
                ) + "\n"@,
                shown,
            )
            &&& text::occurs_in(
                ctx.formatted(
                    "worktree_cli.show.status"@,
                    "  Status:         {value}"@,
                    seq![("value"@, status_text(ctx, rec.status))],
                ) + "\n"@,
                shown,
            )
            &&& rec.label is Some ==> text::occurs_in(
                ctx.formatted(
                    "worktree_cli.show.label"@,
                    "  Label:          {value}"@,
                    seq![("value"@, rec.label->0@)],
                ) + "\n"@,
                shown,
            )
            &&& size is Some ==> text::occurs_in(
                ctx.formatted(
                    "worktree_cli.show.disk_usage"@,
                    "  Disk Usage:     {value}"@,
                    seq![("value"@, size->0.shown_bytes@)],
                ),
                shown,
            )
            &&& size is Some && size->0.skipped > 0 ==> text::occurs_in(
                ctx.formatted(
                    "worktree.disk_usage.skipped"@,
                    "({count} entries skipped)"@,
                    seq![("count"@, text::decimal(size->0.skipped as nat))],
                ),
                shown,
            )
        }),
{
    broadcast use text::group_occurrences;

}

/// How long the line of a value is.
pub open spec fn line_length(
    ctx: LocaleContext,
    id: Seq<char>,
    english: Seq<char>,
    name: Seq<char>,
    value: Seq<char>,
) -> nat {
    ctx.formatted(id, english, seq![(name, value)]).len() + 1
}

/// Nothing but the values of a record is shown: the lines of the values that it holds make up
/// the whole length.
pub proof fn nothing_else_of_a_record_is_shown(ctx: LocaleContext, rec: WorktreeRecord)
    ensures
        show_text(ctx, rec, None).len() == line_length(
            ctx,
            "worktree_cli.show.path"@,
            "  Path:           {value}"@,
            "value"@,
            rec.path@,
        ) + line_length(
            ctx,
            "worktree_cli.show.id"@,
            "  ID:             {value}"@,
            "value"@,
            rec.id@,
        ) + line_length(
            ctx,
            "worktree_cli.show.type"@,
            "  Type:           {value}"@,
            "value"@,
            kind_text(ctx, rec.kind),
        ) + line_length(
            ctx,
            "worktree_cli.show.source_repo"@,
            "  Source Repo:    {value}"@,
            "value"@,
            rec.source_repo@,
        ) + line_length(
            ctx,
            "worktree_cli.show.creation_mode"@,
            "  Creation Mode:  {value}"@,
            "value"@,
            rec.creation_mode@,
        ) + (if rec.git_ref is Some {
            line_length(
                ctx,
                "worktree_cli.show.git_ref"@,
                "  Git Ref:        {value}"@,
                "value"@,
                rec.git_ref->0@,
            )
        } else {
            0
        }) + (if rec.head_commit is Some {
            line_length(
                ctx,
                "worktree_cli.show.head"@,
                "  HEAD:           {value}"@,
                "value"@,
                text::byte_limited(rec.head_commit->0@, 12),
            )
        } else {
            0
        }) + line_length(
            ctx,
            "worktree_cli.show.created"@,
            "  Created:        {value}"@,
            "value"@,
            timestamp(rec.created_at),
        ) + (if rec.last_accessed_at is Some {
            line_length(
                ctx,
                "worktree_cli.show.last_accessed"@,
                "  Last Accessed:  {value}"@,
                "value"@,
                timestamp(rec.last_accessed_at->0),
            )
        } else {
            0
        }) + (if rec.session_id is Some {
            line_length(
                ctx,
                "worktree_cli.show.session_id"@,
                "  Session ID:     {value}"@,
                "value"@,
                rec.session_id->0@,
            )
        } else {
            0
        }) + (if rec.creator_pid is Some {
            line_length(
                ctx,
                "worktree_cli.show.creator_pid"@,
                "  Creator PID:    {value}"@,
                "value"@,
                text::decimal(rec.creator_pid->0 as nat),
            )
        } else {
            0
        }) + line_length(
            ctx,
            "worktree_cli.show.status"@,
            "  Status:         {value}"@,
            "value"@,
            status_text(ctx, rec.status),
        ) + (if rec.label is Some {
            line_length(
                ctx,
                "worktree_cli.show.label"@,
                "  Label:          {value}"@,
                "value"@,
                rec.label->0@,
            )
        } else {
            0
        }),
{
    reveal_strlit("\n");
}

/// The size of a worktree that is on disk is the last line: a further one, with a note on the
/// entries that were skipped exactly where there are some.
pub proof fn sizes_are_a_further_line(
    ctx: LocaleContext,
    rec: WorktreeRecord,
    size: MeasuredSize,
)
    ensures
        size.skipped == 0 ==> show_text(ctx, rec, Some(size)) == show_text(ctx, rec, None)
            + ctx.formatted(
            "worktree_cli.show.disk_usage"@,
            "  Disk Usage:     {value}"@,
            seq![("value"@, size.shown_bytes@)],
        ) + "\n"@,
        size.skipped > 0 ==> show_text(ctx, rec, Some(size)) == show_text(ctx, rec, None)
            + ctx.formatted(
            "worktree_cli.show.disk_usage"@,
            "  Disk Usage:     {value}"@,
            seq![("value"@, size.shown_bytes@)],
        ) + " "@ + ctx.formatted(
            "worktree.disk_usage.skipped"@,
            "({count} entries skipped)"@,
            seq![("count"@, text::decimal(size.skipped as nat))],
        ) + "\n"@,
{
    let shown = show_text(ctx, rec, Some(size));
    let others = show_text(ctx, rec, None);
    assert(shown =~= others + size_line(ctx, Some(size)));
    if size.skipped == 0 {
        assert(shown =~= others + ctx.formatted(
            "worktree_cli.show.disk_usage"@,
            "  Disk Usage:     {value}"@,
            seq![("value"@, size.shown_bytes@)],
        ) + "\n"@);
    } else {
        assert(shown =~= others + ctx.formatted(
            "worktree_cli.show.disk_usage"@,
            "  Disk Usage:     {value}"@,
            seq![("value"@, size.shown_bytes@)],
        ) + " "@ + ctx.formatted(
            "worktree.disk_usage.skipped"@,
            "({count} entries skipped)"@,
            seq![("count"@, text::decimal(size.skipped as nat))],
        ) + "\n"@);
    }
}

/// A commit is shown by its first 12 bytes, fewer where a character would be cut, and whole
/// where it is no longer.
pub proof fn commits_are_shortened(commit: String, length: int)
    requires
        0 <= length <= commit@.len(),
    ensures
        ({
            let shown = short_commit(Some(commit));
            &&& shown is Some
            &&& shown->0.is_prefix_of(commit@)
            &&& vstd::utf8::encode_utf8(shown->0).len() <= 12
            &&& length > shown->0.len() ==> vstd::utf8::encode_utf8(commit@.take(length)).len() > 12
            &&& vstd::utf8::encode_utf8(commit@).len() <= 12 ==> shown->0 == commit@
        }),
        short_commit(None) is None,
{
    text::truncation_keeps_what_fits(commit@, 12, length);
    text::truncation_keeps_what_fits(commit@, 12, commit@.len() as int);
    assert(commit@.take(commit@.len() as int) =~= commit@);
    let shown = text::byte_limited(commit@, 12);
    if vstd::utf8::encode_utf8(commit@).len() <= 12 {
        assert(shown =~= commit@);
    }
}

/// A second outside the calendar shows as its number, and any other as the calendar has it.
pub proof fn seconds_outside_the_calendar_show_their_number(seconds: i64)
    ensures
        utc_time(seconds, "%Y-%m-%d %H:%M:%S UTC"@) is Some ==> timestamp(seconds) == utc_time(
            seconds,
            "%Y-%m-%d %H:%M:%S UTC"@,
        )->0,
        utc_time(seconds, "%Y-%m-%d %H:%M:%S UTC"@) is None && seconds >= 0 ==> text::value_of(
            timestamp(seconds),
        ) == seconds,
        utc_time(seconds, "%Y-%m-%d %H:%M:%S UTC"@) is None && seconds < 0 ==> timestamp(
            seconds,
        ).first() == '-' && text::value_of(timestamp(seconds).drop_first()) == -seconds,
{
    text::signs_stand_in_front(seconds as int);
}

/// The statistics show every number under its own name, and nothing else beneath the title.
pub proof fn every_statistic_is_shown(ctx: LocaleContext, stats: DbStats)
    ensures
        ({
            let shown = stats_text(ctx, stats);
            &&& (ctx.named("worktree.stats.title"@, "Worktree DB Statistics"@)
                + "\n"@).is_prefix_of(shown)
            &&& text::occurs_in(
                ctx.formatted(
                    "worktree_cli.stats.total_records"@,
                    "  Total records:  {count}"@,
                    seq![("count"@, text::decimal(stats.total_records as nat))],
                ) + "\n"@,
                shown,
            )
            &&& text::occurs_in(
                ctx.formatted(
                    "worktree_cli.stats.alive"@,
                    "  Alive:          {count}"@,
                    seq![("count"@, text::decimal(stats.alive_count as nat))],
                ) + "\n"@,
                shown,
            )
            &&& text::occurs_in(
                ctx.formatted(
                    "worktree_cli.stats.dead"@,
                    "  Dead:           {count}"@,
                    seq![("count"@, text::decimal(stats.dead_count as nat))],
                ) + "\n"@,
                shown,
            )
            &&& text::occurs_in(
                ctx.formatted(
                    "worktree_cli.stats.db_size"@,
                    "  DB size:        {value}"@,
                    seq![("value"@, stats.shown_db_size@)],
                ) + "\n"@,
                shown,
            )
            &&& shown.len() == ctx.named("worktree.stats.title"@, "Worktree DB Statistics"@).len()
                + 1 + "======================"@.len() + 1 + line_length(
                ctx,
                "worktree_cli.stats.total_records"@,
                "  Total records:  {count}"@,
                "count"@,
                text::decimal(stats.total_records as nat),
            ) + line_length(
                ctx,
                "worktree_cli.stats.alive"@,
                "  Alive:          {count}"@,
                "count"@,
                text::decimal(stats.alive_count as nat),
            ) + line_length(
                ctx,
                "worktree_cli.stats.dead"@,
                "  Dead:           {count}"@,
                "count"@,
                text::decimal(stats.dead_count as nat),
            ) + line_length(
                ctx,
                "worktree_cli.stats.db_size"@,
                "  DB size:        {value}"@,
                "value"@,
                stats.shown_db_size@,
            )
        }),
{
    broadcast use text::group_occurrences;

    reveal_strlit("\n");
    let shown = stats_text(ctx, stats);
    let title = ctx.named("worktree.stats.title"@, "Worktree DB Statistics"@) + "\n"@;
    assert(shown.subrange(0, title.len() as int) =~= title);
}

/// The report of a collection shows every count under its own name, the optional ones exactly
/// where they are not zero, what is said of kept worktrees, and nothing else beneath its title.
pub proof fn every_count_of_a_collection_is_shown(ctx: LocaleContext, report: GcReport)
    ensures
        ({
            let shown = gc_text(ctx, report);
            &&& (ctx.named("worktree.gc.title"@, "GC report:"@) + "\n"@).is_prefix_of(shown)
            &&& text::occurs_in(
                ctx.formatted(
                    "worktree_cli.gc.dead_removed"@,
                    "  Dead records removed:      {count}"@,
                    seq![("count"@, text::decimal(report.dead_removed as nat))],
                ) + "\n"@,
                shown,
            )
            &&& text::occurs_in(
                ctx.formatted(
                    "worktree_cli.gc.expired_removed"@,
                    "  Expired worktrees removed: {count}"@,
                    seq![("count"@, text::decimal(report.expired_removed as nat))],
                ) + "\n"@,
                shown,
            )
            &&& report.no_repo_paths > 0 ==> text::occurs_in(
                ctx.formatted(
                    "worktree_cli.gc.no_repo_paths"@,
                    "  Non-repository paths:      {count}"@,
                    seq![("count"@, text::decimal(report.no_repo_paths as nat))],
                ) + "\n"@,
                shown,
            )
            &&& text::occurs_in(
                ctx.formatted(
                    "worktree_cli.gc.skipped_alive"@,
                    "  Skipped (guarded):         {count}"@,
                    seq![("count"@, text::decimal(report.skipped_alive as nat))],
                ) + "\n"@,
                shown,
            )
            &&& report.never_expiring > 0 ==> text::occurs_in(
                ctx.formatted(
                    "worktree_cli.gc.never_expiring"@,
                    "  Kept (never expires):      {count}"@,
                    seq![("count"@, text::decimal(report.never_expiring as nat))],
                ) + "\n"@,
                shown,
            )
            &&& report.names_collected > 0 ==> text::occurs_in(
                ctx.formatted(
                    "worktree_cli.gc.names_collected"@,
                    "  Reclaimed names dropped:   {count}"@,
                    seq![("count"@, text::decimal(report.names_collected as nat))],
                ) + "\n"@,
                shown,
            )
            &&& report.not_judged > 0 ==> text::occurs_in(
                ctx.formatted(
                    "worktree_cli.gc.not_judged"@,
                    "  Not judged this pass:      {count}"@,
                    seq![("count"@, text::decimal(report.not_judged as nat))],
                ) + "\n"@,
                shown,
            )
            &&& report.unnamed > 0 ==> text::occurs_in(
                ctx.formatted(
                    "worktree_cli.gc.unnamed"@,
                    "  Naming failed (kept):      {count}"@,
                    seq![("count"@, text::decimal(report.unnamed as nat))],
                ) + "\n"@,
                shown,
            )
            &&& report.remove_failed > 0 ==> text::occurs_in(
                ctx.formatted(
                    "worktree_cli.gc.remove_failed"@,
                    "  Removal failures:          {count}"@,
                    seq![("count"@, text::decimal(report.remove_failed as nat))],
                ) + "\n"@,
                shown,
            )
            &&& text::occurs_in(kept_section(ctx, report), shown)
            &&& shown.len() == ctx.named("worktree.gc.title"@, "GC report:"@).len() + 1 + line_length(
                ctx,
                "worktree_cli.gc.dead_removed"@,
                "  Dead records removed:      {count}"@,
                "count"@,
                text::decimal(report.dead_removed as nat),
            ) + line_length(
                ctx,
                "worktree_cli.gc.expired_removed"@,
                "  Expired worktrees removed: {count}"@,
                "count"@,
                text::decimal(report.expired_removed as nat),
            ) + (if report.no_repo_paths > 0 {
                line_length(
                    ctx,
                    "worktree_cli.gc.no_repo_paths"@,
                    "  Non-repository paths:      {count}"@,
                    "count"@,
                    text::decimal(report.no_repo_paths as nat),
                )
            } else {
                0
            }) + line_length(
                ctx,
                "worktree_cli.gc.skipped_alive"@,
                "  Skipped (guarded):         {count}"@,
                "count"@,
                text::decimal(report.skipped_alive as nat),
            ) + (if report.never_expiring > 0 {
                line_length(
                    ctx,
                    "worktree_cli.gc.never_expiring"@,
                    "  Kept (never expires):      {count}"@,
                    "count"@,
                    text::decimal(report.never_expiring as nat),
                )
            } else {
                0
            }) + (if report.names_collected > 0 {
                line_length(
                    ctx,
                    "worktree_cli.gc.names_collected"@,
                    "  Reclaimed names dropped:   {count}"@,
                    "count"@,
                    text::decimal(report.names_collected as nat),
                )
            } else {
                0
            }) + (if report.not_judged > 0 {
                line_length(
                    ctx,
                    "worktree_cli.gc.not_judged"@,
                    "  Not judged this pass:      {count}"@,
                    "count"@,
                    text::decimal(report.not_judged as nat),
                )
            } else {
                0
            }) + (if report.unnamed > 0 {
                line_length(
                    ctx,
                    "worktree_cli.gc.unnamed"@,
                    "  Naming failed (kept):      {count}"@,
                    "count"@,
                    text::decimal(report.unnamed as nat),
                )
            } else {
                0
            }) + (if report.remove_failed > 0 {
                line_length(
                    ctx,
                    "worktree_cli.gc.remove_failed"@,
                    "  Removal failures:          {count}"@,
                    "count"@,
                    text::decimal(report.remove_failed as nat),
                )
            } else {
                0
            }) + kept_section(ctx, report).len()
        }),
{
    broadcast use text::group_occurrences;

    reveal_strlit("\n");
    let shown = gc_text(ctx, report);
    let title = ctx.named("worktree.gc.title"@, "GC report:"@) + "\n"@;
    assert(shown.subrange(0, title.len() as int) =~= title);
}

/// Lines of kept worktrees and of reasons stand one after the other, in order.
pub proof fn kept_lines_add_up(
    left: Seq<KeptWorktree>,
    right: Seq<KeptWorktree>,
    kept: KeptWorktree,
)
    ensures
        kept_lines(left + right) == kept_lines(left) + kept_lines(right),
        kept_lines(seq![kept]) == "      "@ + kept.path@ + "  ("@ + kept.reason@ + ")\n"@,
        kept_lines(Seq::empty()) == Seq::<char>::empty(),
    decreases right.len(),
{
    reveal_with_fuel(kept_lines, 2);
    let one = seq![kept];
    assert(one.drop_last() =~= Seq::empty());
    assert(kept_lines(one) =~= kept_line(kept));
    if right.len() == 0 {
        assert(left + right =~= left);
        assert(kept_lines(left + right) =~= kept_lines(left) + kept_lines(right));
    } else {
        kept_lines_add_up(left, right.drop_last(), kept);
        assert((left + right).drop_last() =~= left + right.drop_last());
        assert((left + right).last() == right.last());
        assert(kept_lines(left + right) =~= kept_lines(left) + kept_lines(right));
    }
}

/// Lines of reasons stand one after the other, in order, each with its count.
pub proof fn reason_lines_add_up(
    left: Seq<(String, u64)>,
    right: Seq<(String, u64)>,
    reason: (String, u64),
)
    ensures
        reason_lines(left + right) == reason_lines(left) + reason_lines(right),
        reason_lines(seq![reason]) == "    "@ + reason.0@ + ": "@ + text::decimal(reason.1 as nat)
            + "\n"@,
        reason_lines(Seq::empty()) == Seq::<char>::empty(),
    decreases right.len(),
{
    reveal_with_fuel(reason_lines, 2);
    let one = seq![reason];
    assert(one.drop_last() =~= Seq::empty());
    assert(reason_lines(one) =~= reason_line(reason));
    if right.len() == 0 {
        assert(left + right =~= left);
        assert(reason_lines(left + right) =~= reason_lines(left) + reason_lines(right));
    } else {
        reason_lines_add_up(left, right.drop_last(), reason);
        assert((left + right).drop_last() =~= left + right.drop_last());
        assert((left + right).last() == right.last());
        assert(reason_lines(left + right) =~= reason_lines(left) + reason_lines(right));
    }
}

/// Where worktrees were kept, the report says how many and why and names the first 20; of any
/// beyond those that are named it says how many there are. Where none was kept it says nothing.
pub proof fn kept_worktrees_are_named_up_to_a_limit(
    ctx: LocaleContext,
    report: GcReport,
    named: Seq<KeptWorktree>,
)
    requires
        report.kept_unsafe <= usize::MAX,
        named.is_prefix_of(report.kept@),
        named.len() == 20 || named.len() < 20 && named.len() == report.kept@.len(),
    ensures
        report.kept_unsafe == 0 ==> kept_section(ctx, report).len() == 0,
        report.kept_unsafe > 0 ==> {
            let start = ctx.formatted(
                "worktree_cli.gc.kept_unsafe"@,
                "  Kept (not reclaimable):    {count}"@,
                seq![("count"@, text::decimal(report.kept_unsafe as nat))],
            ) + "\n"@ + reason_lines(report.kept_reasons@) + kept_lines(named);
            if report.kept_unsafe > named.len() {
                kept_section(ctx, report) == start + (ctx.formatted(
                    "worktree.gc.kept_more"@,
                    "      and {count} more, named in the log"@,
                    seq![("count"@, text::decimal((report.kept_unsafe - named.len()) as nat))],
                ) + "\n"@)
            } else {
                kept_section(ctx, report) == start
            }
        },
{
    assert(report.kept@.take(printed_count(report) as int) =~= named);
    if report.kept_unsafe > 0 {
        let start = ctx.formatted(
            "worktree_cli.gc.kept_unsafe"@,
            "  Kept (not reclaimable):    {count}"@,
            seq![("count"@, text::decimal(report.kept_unsafe as nat))],
        ) + "\n"@ + reason_lines(report.kept_reasons@) + kept_lines(named);
        if report.kept_unsafe <= named.len() {
            assert(kept_section(ctx, report) =~= start);
        }
    }
}

/// The report of a rebuild shows every count under its own name, and nothing else beneath its
/// title.
pub proof fn every_count_of_a_rebuild_is_shown(ctx: LocaleContext, report: RebuildReport)
    ensures
        ({
            let shown = rebuild_text(ctx, report);
            &&& (ctx.named("worktree.rebuild.title"@, "Rebuild report:"@)
                + "\n"@).is_prefix_of(shown)
            &&& text::occurs_in(
                ctx.formatted(
                    "worktree_cli.rebuild.discovered"@,
                    "  Discovered:      {count}"@,
                    seq![("count"@, text::decimal(report.discovered as nat))],
                ) + "\n"@,
                shown,
            )
            &&& text::occurs_in(
                ctx.formatted(
                    "worktree_cli.rebuild.registered"@,
                    "  Registered:      {count}"@,
                    seq![("count"@, text::decimal(report.registered as nat))],
                ) + "\n"@,
                shown,
            )
            &&& text::occurs_in(
                ctx.formatted(
                    "worktree_cli.rebuild.already_tracked"@,
                    "  Already tracked: {count}"@,
                    seq![("count"@, text::decimal(report.already_tracked as nat))],
                ) + "\n"@,
                shown,
            )
            &&& shown.len() == ctx.named("worktree.rebuild.title"@, "Rebuild report:"@).len() + 1
                + line_length(
                ctx,
                "worktree_cli.rebuild.discovered"@,
                "  Discovered:      {count}"@,
                "count"@,
                text::decimal(report.discovered as nat),
            ) + line_length(
                ctx,
                "worktree_cli.rebuild.registered"@,
                "  Registered:      {count}"@,
                "count"@,
                text::decimal(report.registered as nat),
            ) + line_length(
                ctx,
                "worktree_cli.rebuild.already_tracked"@,
                "  Already tracked: {count}"@,
                "count"@,
                text::decimal(report.already_tracked as nat),
            )
        }),
{
    broadcast use text::group_occurrences;

    reveal_strlit("\n");
    let shown = rebuild_text(ctx, report);
    let title = ctx.named("worktree.rebuild.title"@, "Rebuild report:"@) + "\n"@;
    assert(shown.subrange(0, title.len() as int) =~= title);
}

/// A row takes as many characters as its cells and the gaps between them, its age at the left of
/// ten characters.
pub proof fn rows_fill_their_columns(
    ctx: LocaleContext,
    row: ListedWorktree,
    ids: usize,
    kinds: usize,
    labels: usize,
)
    ensures
        ({
            let shown = row_text(ctx, row, ids, kinds, labels);
            let kind = text::cell_text(kind_text(ctx, row.record.kind), kinds as nat);
            let repo = text::cell_text(row.record.repo_name@, 6);
            let label = text::cell_text(label_text(row.record), labels as nat);
            let branch = text::cell_text(branch_text(ctx, row.record), 20);
            let start = "  "@ + text::padded(row.record.id@, ids as nat) + " "@ + kind;
            let end = text::left_aligned(row.age@, 10) + " "@ + row.shown_path@ + "\n"@;
            &&& start.is_prefix_of(shown)
            &&& end.is_suffix_of(shown)
            &&& text::occurs_in(repo, shown)
            &&& text::occurs_in(label, shown)
            &&& text::occurs_in(branch, shown)
            &&& shown.len() == start.len() + repo.len() + label.len() + branch.len() + end.len() + 4
        }),
{
    broadcast use text::group_occurrences;
    broadcast use text::lemma_starts_with;
    broadcast use text::lemma_starts_with_itself;

    reveal_strlit(" ");
    let kind = text::cell_text(kind_text(ctx, row.record.kind), kinds as nat);
    let repo = text::cell_text(row.record.repo_name@, 6);
    let label = text::cell_text(label_text(row.record), labels as nat);
    let branch = text::cell_text(branch_text(ctx, row.record), 20);
    let start = "  "@ + text::padded(row.record.id@, ids as nat) + " "@ + kind;
    let lead = start + " "@ + repo + " "@ + label + " "@ + branch + " "@;
    let age = text::left_aligned(row.age@, 10);
    text::lemma_five_parts(lead, age, " "@, row.shown_path@, "\n"@);
    text::lemma_ends_in(lead, age + " "@ + row.shown_path@ + "\n"@);
}

/// The lines of a record stand in a fixed order, as far as they are there.
pub proof fn values_of_a_record_stand_in_order(ctx: LocaleContext, rec: WorktreeRecord)
    ensures
        ({
            let shown = show_text(ctx, rec, None);
            let path = render::value_line(
                ctx,
                "worktree_cli.show.path"@,
                "  Path:           {value}"@,
                rec.path@,
            );
            let id = render::value_line(
                ctx,
                "worktree_cli.show.id"@,
                "  ID:             {value}"@,
                rec.id@,
            );
            let kind = render::value_line(
                ctx,
                "worktree_cli.show.type"@,
                "  Type:           {value}"@,
                kind_text(ctx, rec.kind),
            );
            let source_repo = render::value_line(
                ctx,
                "worktree_cli.show.source_repo"@,
                "  Source Repo:    {value}"@,
                rec.source_repo@,
            );
            let creation_mode = render::value_line(
                ctx,
                "worktree_cli.show.creation_mode"@,
                "  Creation Mode:  {value}"@,
                rec.creation_mode@,
            );
            let git_ref = render::value_line(
                ctx,
                "worktree_cli.show.git_ref"@,
                "  Git Ref:        {value}"@,
                rec.git_ref->0@,
            );
            let head = render::value_line(
                ctx,
                "worktree_cli.show.head"@,
                "  HEAD:           {value}"@,
                text::byte_limited(rec.head_commit->0@, 12),
            );
            let created = render::value_line(
                ctx,
                "worktree_cli.show.created"@,
                "  Created:        {value}"@,
                timestamp(rec.created_at),
            );
            let last_accessed = render::value_line(
                ctx,
                "worktree_cli.show.last_accessed"@,
                "  Last Accessed:  {value}"@,
                timestamp(rec.last_accessed_at->0),
            );
            let session_id = render::value_line(
                ctx,
                "worktree_cli.show.session_id"@,
                "  Session ID:     {value}"@,
                rec.session_id->0@,
            );
            let creator_pid = render::value_line(
                ctx,
                "worktree_cli.show.creator_pid"@,
                "  Creator PID:    {value}"@,
                text::decimal(rec.creator_pid->0 as nat),
            );
            let status = render::value_line(
                ctx,
                "worktree_cli.show.status"@,
                "  Status:         {value}"@,
                status_text(ctx, rec.status),
            );
            let label = render::value_line(
                ctx,
                "worktree_cli.show.label"@,
                "  Label:          {value}"@,
                rec.label->0@,
            );
            &&& text::stands_before(path, id, shown)
            &&& text::stands_before(id, kind, shown)
            &&& text::stands_before(kind, source_repo, shown)
            &&& text::stands_before(source_repo, creation_mode, shown)
            &&& rec.git_ref is Some ==> text::stands_before(creation_mode, git_ref, shown)
            &&& rec.git_ref is Some && rec.head_commit is Some ==> text::stands_before(
                git_ref,
                head,
                shown,
            )
            &&& rec.head_commit is Some ==> text::stands_before(head, created, shown)
            &&& rec.last_accessed_at is Some ==> text::stands_before(created, last_accessed, shown)
            &&& rec.last_accessed_at is Some && rec.session_id is Some ==> text::stands_before(
                last_accessed,
                session_id,
                shown,
            )
            &&& rec.session_id is Some && rec.creator_pid is Some ==> text::stands_before(
                session_id,
                creator_pid,
                shown,
            )
            &&& rec.creator_pid is Some ==> text::stands_before(creator_pid, status, shown)
            &&& rec.label is Some ==> text::stands_before(status, label, shown)
        }),
{
    broadcast use text::group_order;

}

/// The lines of a collection's report stand in a fixed order, as far as they are there, with what
/// is said of kept worktrees in the middle.
pub proof fn counts_of_a_collection_stand_in_order(ctx: LocaleContext, report: GcReport)
    ensures
        ({
            let shown = gc_text(ctx, report);
            let kept = kept_section(ctx, report);
            let dead_removed = render::count_line(
                ctx,
                "worktree_cli.gc.dead_removed"@,
                "  Dead records removed:      {count}"@,
                report.dead_removed as nat,
            );
            let expired_removed = render::count_line(
                ctx,
                "worktree_cli.gc.expired_removed"@,
                "  Expired worktrees removed: {count}"@,
                report.expired_removed as nat,
            );
            let no_repo_paths = render::count_line(
                ctx,
                "worktree_cli.gc.no_repo_paths"@,
                "  Non-repository paths:      {count}"@,
                report.no_repo_paths as nat,
            );
            let skipped_alive = render::count_line(
                ctx,
                "worktree_cli.gc.skipped_alive"@,
                "  Skipped (guarded):         {count}"@,
                report.skipped_alive as nat,
            );
            let never_expiring = render::count_line(
                ctx,
                "worktree_cli.gc.never_expiring"@,
                "  Kept (never expires):      {count}"@,
                report.never_expiring as nat,
            );
            let names_collected = render::count_line(
                ctx,
                "worktree_cli.gc.names_collected"@,
                "  Reclaimed names dropped:   {count}"@,
                report.names_collected as nat,
            );
            let not_judged = render::count_line(
                ctx,
                "worktree_cli.gc.not_judged"@,
                "  Not judged this pass:      {count}"@,
                report.not_judged as nat,
            );
            let unnamed = render::count_line(
                ctx,
                "worktree_cli.gc.unnamed"@,
                "  Naming failed (kept):      {count}"@,
                report.unnamed as nat,
            );
            let remove_failed = render::count_line(
                ctx,
                "worktree_cli.gc.remove_failed"@,
                "  Removal failures:          {count}"@,
                report.remove_failed as nat,
            );
            &&& text::stands_before(dead_removed, expired_removed, shown)
            &&& report.no_repo_paths > 0 ==> text::stands_before(
                expired_removed,
                no_repo_paths,
                shown,
            )
            &&& report.no_repo_paths > 0 ==> text::stands_before(
                no_repo_paths,
                skipped_alive,
                shown,
            )
            &&& report.never_expiring > 0 ==> text::stands_before(
                skipped_alive,
                never_expiring,
                shown,
            )
            &&& report.never_expiring > 0 ==> text::stands_before(never_expiring, kept, shown)
            &&& report.names_collected > 0 ==> text::stands_before(kept, names_collected, shown)
            &&& report.names_collected > 0 && report.not_judged > 0 ==> text::stands_before(
                names_collected,
                not_judged,
                shown,
            )
            &&& report.not_judged > 0 && report.unnamed > 0 ==> text::stands_before(
                not_judged,
                unnamed,
                shown,
            )
            &&& report.unnamed > 0 && report.remove_failed > 0 ==> text::stands_before(
                unnamed,
                remove_failed,
                shown,
            )
        }),
{
    broadcast use text::group_order;

}

/// Paths line up: in one table the paths of two rows start at one display column where the ages
/// are of printable ASCII characters, at most ten of them.
pub proof fn paths_line_up(
    ctx: LocaleContext,
    left: ListedWorktree,
    right: ListedWorktree,
    ids: usize,
    kinds: usize,
    labels: usize,
)
    requires
        is_aligned(ctx, left, ids, kinds, labels),
        is_aligned(ctx, right, ids, kinds, labels),
        left.age@.len() <= 10,
        right.age@.len() <= 10,
        forall|i: int| 0 <= i < left.age@.len() ==> ' ' <= #[trigger] left.age@[i] <= '~',
        forall|i: int| 0 <= i < right.age@.len() ==> ' ' <= #[trigger] right.age@[i] <= '~',
    ensures
        text::display_width(row_lead(ctx, left, ids, kinds, labels)) == text::display_width(
            row_lead(ctx, right, ids, kinds, labels),
        ),
        text::display_width(row_lead(ctx, left, ids, kinds, labels)) == ids + kinds + labels + 44,
{
    assert(text::is_plain(left.age@));
    assert(text::is_plain(right.age@));
}

/// In every language a kind and a status show the entry of their own id.
pub proof fn kinds_and_statuses_show_their_entry(ctx: LocaleContext)
    ensures
        kind_text(ctx, WorktreeKind::Session) == ctx.named("du.kind.session"@, "session"@),
        kind_text(ctx, WorktreeKind::Ab) == ctx.named("du.kind.ab"@, "ab"@),
        kind_text(ctx, WorktreeKind::Pool) == ctx.named("du.kind.pool"@, "pool"@),
        kind_text(ctx, WorktreeKind::Fork) == ctx.named("du.kind.fork"@, "fork"@),
        kind_text(ctx, WorktreeKind::Manual) == ctx.named("du.kind.manual"@, "manual"@),
        kind_text(ctx, WorktreeKind::Subagent) == ctx.named("du.kind.subagent"@, "subagent"@),
        status_text(ctx, WorktreeStatus::Alive) == ctx.named("worktree.status.alive"@, "alive"@),
        status_text(ctx, WorktreeStatus::Dead) == ctx.named("worktree.status.dead"@, "dead"@),
{
}

/// In every language the table ends in a line that is given the number of worktrees and their
/// breakdown.
pub proof fn summaries_are_given_count_and_breakdown(
    ctx: LocaleContext,
    records: Seq<ListedWorktree>,
)
    requires
        records.len() > 0,
    ensures
        ("  "@ + ctx.formatted(
            "worktree.summary"@,
            "{count} worktrees ({breakdown})"@,
            seq![
                ("count"@, text::decimal(records.len())),
                ("breakdown"@, breakdown_text(ctx, records)),
            ],
        ) + "\n"@).is_suffix_of(table_text(ctx, records)),
{
    let ids = id_width(records);
    let kinds = kind_width(ctx, records);
    let labels = label_width(records);
    text::lemma_ends_in(
        header_text(ctx, ids, kinds, labels) + rows_text(ctx, records, ids, kinds, labels),
        summary_text(ctx, records),
    );
}

} // verus!
