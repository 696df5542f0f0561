//! Renderer of the disk usage report.
//!
//! The report holds plain values: sizes and ages as they are shown, and paths as text.

use crate::locale::LocaleContext;
use crate::render;
use crate::render::{
    indented_line_of, line_of, named_line_of, named_note_of, plural_note_of, Message,
};
use crate::text;
use crate::text::{left_align, pad_to_width, right_align, truncate_to_width, width_of};
use crate::worktree;
use crate::worktree::{kind_label, largest_of, WorktreeKind, WorktreeStatus};
use vstd::prelude::*;

verus! {

pub const SIZE_WIDTH: usize = 10;

pub const AGE_WIDTH: usize = 10;

pub const LABEL_WIDTH_MAX: usize = 24;

/// A number of bytes and how it is shown.
#[derive(Debug)]
pub struct Amount {
    pub bytes: u64,
    pub shown: String,
}

/// A directory below the home directory; no size where nothing was measured.
#[derive(Debug)]
pub struct DirUsage {
    pub name: String,
    pub shown_bytes: Option<String>,
}

/// What the registry knows of a worktree.
#[derive(Debug, Clone, Copy, PartialEq, Eq, Structural)]
pub enum Registration {
    Unregistered,
    Registered(WorktreeStatus),
}

/// A worktree on disk; no size where nothing was measured, no age where none is known.
#[derive(Debug)]
pub struct WorktreeUsage {
    pub kind: WorktreeKind,
    pub registration: Registration,
    pub label: String,
    pub shown_bytes: Option<String>,
    pub shown_age: Option<String>,
    pub path: String,
}

/// In what state the worktree registry was found.
#[derive(Debug, Clone, Copy, PartialEq, Eq, Structural)]
pub enum RegistryState {
    Read,
    Absent,
    Busy,
    Unopenable,
    Corrupt,
}

/// What a measurement left out.
#[derive(Debug)]
pub struct Skips {
    pub unreadable_dirs: u64,
    pub unstatable_entries: u64,
    pub other_filesystem_dirs: u64,
}

/// What was measured below the home directory.
#[derive(Debug)]
pub struct DiskUsageReport {
    pub grok_home: String,
    /// The home directory as it is shown.
    pub home_label: String,
    pub top_level_dirs: Vec<DirUsage>,
    pub root_files: Amount,
    pub shown_total: String,
    pub skips: Skips,
    pub unfollowed_dir_symlinks: u64,
    pub total_exceeds_volume_used: bool,
    /// Whether worktree clones share storage with their source on this platform.
    pub clones_share_storage: bool,
    pub worktrees: Vec<WorktreeUsage>,
    pub worktrees_dominate: bool,
    pub worktrees_outside_managed_roots: u64,
    pub registry: RegistryState,
    pub registry_path: String,
}

/// A dash where there is nothing to show, which is not the same as zero.
pub open spec fn or_dash(shown: Option<String>) -> Seq<char> {
    match shown {
        Some(found) => found@,
        None => "-"@,
    }
}

/// A path with the home directory abbreviated to its label, given what is left of the path
/// below the home directory; a path that does not lie there whole.
pub open spec fn abbreviated(path: Seq<char>, rest: Option<Seq<char>>, label: Seq<char>) -> Seq<
    char,
> {
    match rest {
        Some(below) => if below.len() == 0 {
            label
        } else {
            label + "/"@ + below
        },
        None => path,
    }
}

/// Whether a path reads alike on every platform: absolute, made of names between single
/// slashes, without the characters that only some platforms give a meaning.
pub open spec fn reads_alike(s: Seq<char>) -> bool {
    &&& s.len() > 1 && s[0] == '/' && s.last() != '/'
    &&& forall|i: int| 0 <= i < s.len() ==> #[trigger] s[i] != '\\' && s[i] != ':'
    &&& forall|i: int|
        0 <= i < s.len() - 1 && #[trigger] s[i] == '/' ==> s[i + 1] != '/' && (s[i + 1] == '.'
            ==> i + 2 < s.len() && s[i + 2] != '/')
}

/// What is left of `path` below `home`, name by name; nothing where it does not lie there.
pub open spec fn below(path: Seq<char>, home: Seq<char>) -> Option<Seq<char>> {
    if path == home {
        Some(Seq::empty())
    } else if home.len() < path.len() && path.take(home.len() as int) == home && path[
        home.len() as int] == '/' {
        Some(path.skip(home.len() as int + 1))
    } else {
        None
    }
}

/// Whether `rest` can be what is left of `path` below `home`: nothing but an empty rest where
/// the two are the same, and exactly what lies below for paths that read alike everywhere. Of
/// other paths the platform decides.
pub open spec fn is_rest(path: Seq<char>, home: Seq<char>, rest: Option<Seq<char>>) -> bool {
    &&& path == home ==> rest == Some(Seq::<char>::empty())
    &&& reads_alike(path) && reads_alike(home) ==> rest == below(path, home)
}

/// What the kind column says of a worktree.
pub open spec fn kind_cell_text(ctx: LocaleContext, usage: WorktreeUsage) -> Seq<char> {
    match usage.registration {
        Registration::Unregistered => ctx.formatted(
            "du.kind.untracked"@,
            "untracked ({kind})"@,
            seq![("kind"@, worktree::kind_text(ctx, usage.kind))],
        ),
        Registration::Registered(WorktreeStatus::Dead) => ctx.formatted(
            "du.kind.dead"@,
            "{kind} (dead)"@,
            seq![("kind"@, worktree::kind_text(ctx, usage.kind))],
        ),
        Registration::Registered(WorktreeStatus::Alive) => worktree::kind_text(ctx, usage.kind),
    }
}

fn size_cell(shown: &Option<String>) -> (text: &str)
    ensures
        text@ == or_dash(*shown),
{
    match shown {
        Some(found) => found.as_str(),
        None => "-",
    }
}

/// A path with the home directory abbreviated to its label, given what is left of the path
/// below the home directory.
pub fn abbreviate_rest(path: &str, rest: &Option<String>, label: &str) -> (text: String)
    ensures
        text@ == abbreviated(path@, text::optional_text(*rest), label@),
{
    match rest {
        Some(below) => {
            if below.as_str().is_empty() {
                label.to_owned()
            } else {
                let mut text = label.to_owned();
                text.append("/");
                text.append(below.as_str());
                text
            }
        },
        None => path.to_owned(),
    }
}

/// `std::path::Path::strip_prefix`, with what is left as text. Claimed of it: a path stripped
/// of itself leaves nothing, and of paths that read alike on every platform the names are
/// compared one by one and what follows `home` is left. Which characters separate the names of
/// other paths, and so what is left of them, differs between platforms and is left unsaid.
#[verifier::external_body]
fn path_below(path: &str, home: &str) -> (rest: Option<String>)
    ensures
        is_rest(path@, home@, text::optional_text(rest)),
{
    match std::path::Path::new(path).strip_prefix(home) {
        Ok(rest) => Some(rest.display().to_string()),
        Err(_) => None,
    }
}

/// A path below the home directory as `label/rest`, the home directory itself as `label`, and
/// any other path whole.
pub fn abbreviate(path: &str, home: &str, label: &str) -> (text: String)
    ensures
        path@ == home@ ==> text@ == label@,
        reads_alike(path@) && reads_alike(home@) ==> text@ == abbreviated(
            path@,
            below(path@, home@),
            label@,
        ),
        exists|rest: Option<Seq<char>>|
            is_rest(path@, home@, rest) && text@ == #[trigger] abbreviated(path@, rest, label@),
{
    let rest = path_below(path, home);
    abbreviate_rest(path, &rest, label)
}

/// What the kind column says of a worktree.
pub fn kind_cell(ctx: LocaleContext, usage: &WorktreeUsage) -> (text: String)
    ensures
        text@ == kind_cell_text(ctx, *usage),
{
    let kind = kind_label(ctx, usage.kind);
    match usage.registration {
        Registration::Unregistered => ctx.format_one(
            "du.kind.untracked",
            "untracked ({kind})",
            "kind",
            kind,
        ),
        Registration::Registered(status) => match status {
            WorktreeStatus::Dead => ctx.format_one("du.kind.dead", "{kind} (dead)", "kind", kind),
            WorktreeStatus::Alive => kind.to_owned(),
        },
    }
}

/// A size and what it is the size of.
pub open spec fn size_line(shown: Seq<char>, name: Seq<char>) -> Seq<char> {
    "  "@ + text::right_aligned(shown, SIZE_WIDTH as nat) + "  "@ + name + "\n"@
}

fn size_line_of(shown: &str, name: &str) -> (text: String)
    ensures
        text@ == size_line(shown@, name@),
{
    let mut out = "  ".to_owned();
    out.append(right_align(shown, SIZE_WIDTH).as_str());
    out.append("  ");
    out.append(name);
    out.append("\n");
    out
}

/// The sizes of the directories, one line each.
pub open spec fn dir_lines(dirs: Seq<DirUsage>) -> Seq<char>
    decreases dirs.len(),
{
    if dirs.len() == 0 {
        Seq::empty()
    } else {
        dir_lines(dirs.drop_last()) + size_line(
            or_dash(dirs.last().shown_bytes),
            dirs.last().name@,
        )
    }
}

fn dir_lines_of(dirs: &Vec<DirUsage>) -> (text: String)
    ensures
        text@ == dir_lines(dirs@),
{
    let mut out = String::new();
    let mut i: usize = 0;
    while i < dirs.len()
        invariant
            i <= dirs@.len(),
            out@ == dir_lines(dirs@.take(i as int)),
        decreases dirs@.len() - i,
    {
        assert(dirs@.take(i + 1).drop_last() =~= dirs@.take(i as int));
        out.append(
            size_line_of(size_cell(&dirs[i].shown_bytes), dirs[i].name.as_str()).as_str(),
        );
        i = i + 1;
    }
    assert(dirs@.take(i as int) =~= dirs@);
    out
}

/// The sizes: each directory, the files beside them where they take anything, and the total.
pub open spec fn sizes_text(ctx: LocaleContext, report: DiskUsageReport) -> Seq<char> {
    dir_lines(report.top_level_dirs@) + (if report.root_files.bytes > 0 {
        size_line(
            report.root_files.shown@,
            ctx.named("du.top_level_files"@, "(top-level files)"@),
        )
    } else {
        Seq::empty()
    }) + size_line(report.shown_total@, ctx.named("du.total"@, "total"@))
}

fn sizes_of(ctx: LocaleContext, report: &DiskUsageReport) -> (text: String)
    ensures
        text@ == sizes_text(ctx, *report),
{
    let files = if report.root_files.bytes > 0 {
        size_line_of(
            report.root_files.shown.as_str(),
            ctx.named_static_text("du.top_level_files", "(top-level files)"),
        )
    } else {
        String::new()
    };
    let total = ctx.named_static_text("du.total", "total");
    let mut out = dir_lines_of(&report.top_level_dirs);
    out.append(files.as_str());
    out.append(size_line_of(report.shown_total.as_str(), total).as_str());
    out
}

/// What the total leaves out, a note for each kind.
pub open spec fn skips_text(ctx: LocaleContext, report: DiskUsageReport) -> Seq<char> {
    render::plural_note(
        ctx,
        (Message {
            id: "du.skip.unreadable_one",
            english:
                "{count} directory could not be read; what is under it may be missing from the total. RUST_LOG=debug names it.",
        }),
        (Message {
            id: "du.skip.unreadable",
            english:
                "{count} directories could not be read; what is under them may be missing from the total. RUST_LOG=debug names them.",
        }),
        report.skips.unreadable_dirs as nat,
    ) + render::plural_note(
        ctx,
        (Message {
            id: "du.skip.unstatable_one",
            english: "{count} entry could not be read and is not counted.",
        }),
        (Message {
            id: "du.skip.unstatable",
            english: "{count} entries could not be read and are not counted.",
        }),
        report.skips.unstatable_entries as nat,
    ) + render::plural_note(
        ctx,
        (Message {
            id: "du.skip.other_filesystem_one",
            english:
                "{count} directory is on another filesystem and is not counted, here or in any row.",
        }),
        (Message {
            id: "du.skip.other_filesystem",
            english:
                "{count} directories are on another filesystem and are not counted, here or in any row.",
        }),
        report.skips.other_filesystem_dirs as nat,
    ) + render::plural_note(
        ctx,
        (Message {
            id: "du.skip.unfollowed_symlink_one",
            english:
                "{count} top-level symlink to a directory is not followed, so its contents are missing from the total.",
        }),
        (Message {
            id: "du.skip.unfollowed_symlink",
            english:
                "{count} top-level symlinks to directories are not followed, so their contents are missing from the total.",
        }),
        report.unfollowed_dir_symlinks as nat,
    )
}

fn skips_of(ctx: LocaleContext, report: &DiskUsageReport) -> (text: String)
    ensures
        text@ == skips_text(ctx, *report),
{
    let mut out = plural_note_of(
        ctx,
        Message {
            id: "du.skip.unreadable_one",
            english:
                "{count} directory could not be read; what is under it may be missing from the total. RUST_LOG=debug names it.",
        },
        Message {
            id: "du.skip.unreadable",
            english:
                "{count} directories could not be read; what is under them may be missing from the total. RUST_LOG=debug names them.",
        },
        report.skips.unreadable_dirs,
    );
    out.append(
        plural_note_of(
            ctx,
            Message {
                id: "du.skip.unstatable_one",
                english: "{count} entry could not be read and is not counted.",
            },
            Message {
                id: "du.skip.unstatable",
                english: "{count} entries could not be read and are not counted.",
            },
            report.skips.unstatable_entries,
        ).as_str(),
    );
    out.append(
        plural_note_of(
            ctx,
            Message {
                id: "du.skip.other_filesystem_one",
                english:
                    "{count} directory is on another filesystem and is not counted, here or in any row.",
            },
            Message {
                id: "du.skip.other_filesystem",
                english:
                    "{count} directories are on another filesystem and are not counted, here or in any row.",
            },
            report.skips.other_filesystem_dirs,
        ).as_str(),
    );
    out.append(
        plural_note_of(
            ctx,
            Message {
                id: "du.skip.unfollowed_symlink_one",
                english:
                    "{count} top-level symlink to a directory is not followed, so its contents are missing from the total.",
            },
            Message {
                id: "du.skip.unfollowed_symlink",
                english:
                    "{count} top-level symlinks to directories are not followed, so their contents are missing from the total.",
            },
            report.unfollowed_dir_symlinks,
        ).as_str(),
    );
    out
}

/// The note on shared storage. The proven statement replaces the general one rather than
/// joining it.
pub open spec fn volume_note(ctx: LocaleContext, report: DiskUsageReport) -> Seq<char> {
    if report.total_exceeds_volume_used {
        render::named_note(
            ctx,
            "du.volume.shared_blocks"@,
            "Total exceeds the used space on this volume, so shared blocks are counted once per path."@,
        )
    } else if report.clones_share_storage && report.worktrees@.len() > 0 {
        render::named_note(
            ctx,
            "du.volume.clone_shared_storage"@,
            "Worktree clones share storage with their source, so the total can exceed real disk use."@,
        )
    } else {
        Seq::empty()
    }
}

fn volume_note_of(ctx: LocaleContext, report: &DiskUsageReport) -> (text: String)
    ensures
        text@ == volume_note(ctx, *report),
{
    if report.total_exceeds_volume_used {
        named_note_of(
            ctx,
            "du.volume.shared_blocks",
            "Total exceeds the used space on this volume, so shared blocks are counted once per path.",
        )
    } else if report.clones_share_storage && report.worktrees.len() > 0 {
        named_note_of(
            ctx,
            "du.volume.clone_shared_storage",
            "Worktree clones share storage with their source, so the total can exceed real disk use.",
        )
    } else {
        String::new()
    }
}

/// The note on the state of the registry.
pub open spec fn registry_note(
    ctx: LocaleContext,
    report: DiskUsageReport,
    rest: Option<Seq<char>>,
) -> Seq<char> {
    match report.registry {
        RegistryState::Read => Seq::empty(),
        RegistryState::Absent => if report.worktrees@.len() > 0 {
            render::named_note(
                ctx,
                "du.registry.absent"@,
                "Worktree registry not found; rows may show as untracked."@,
            )
        } else {
            Seq::empty()
        },
        RegistryState::Busy => render::named_note(
            ctx,
            "du.registry.busy"@,
            "  Worktree registry is in use by another process; rows show as untracked. Retry in a moment."@,
        ),
        RegistryState::Unopenable => render::indented_line(
            ctx.formatted(
                "du.registry.unopenable"@,
                "  Worktree registry at {path} could not be opened; rows show as untracked. Check its permissions."@,
                seq![("path"@, abbreviated(report.registry_path@, rest, report.home_label@))],
            ),
        ),
        RegistryState::Corrupt => render::indented_line(
            ctx.formatted(
                "du.registry.corrupt"@,
                "  Worktree registry is damaged; rows show as untracked. Remove {path} and run `grok worktree db rebuild` to recreate it."@,
                seq![("path"@, abbreviated(report.registry_path@, rest, report.home_label@))],
            ),
        ),
    }
}

fn registry_note_of(ctx: LocaleContext, report: &DiskUsageReport, rest: &Option<String>) -> (text:
    String)
    ensures
        text@ == registry_note(ctx, *report, text::optional_text(*rest)),
{
    match report.registry {
        RegistryState::Read => String::new(),
        RegistryState::Absent => {
            if report.worktrees.len() > 0 {
                named_note_of(
                    ctx,
                    "du.registry.absent",
                    "Worktree registry not found; rows may show as untracked.",
                )
            } else {
                String::new()
            }
        },
        RegistryState::Busy => named_note_of(
            ctx,
            "du.registry.busy",
            "  Worktree registry is in use by another process; rows show as untracked. Retry in a moment.",
        ),
        RegistryState::Unopenable => {
            let path = abbreviate_rest(
                report.registry_path.as_str(),
                rest,
                report.home_label.as_str(),
            );
            indented_line_of(
                ctx.format_one(
                    "du.registry.unopenable",
                    "  Worktree registry at {path} could not be opened; rows show as untracked. Check its permissions.",
                    "path",
                    path.as_str(),
                ).as_str(),
            )
        },
        RegistryState::Corrupt => {
            let path = abbreviate_rest(
                report.registry_path.as_str(),
                rest,
                report.home_label.as_str(),
            );
            indented_line_of(
                ctx.format_one(
                    "du.registry.corrupt",
                    "  Worktree registry is damaged; rows show as untracked. Remove {path} and run `grok worktree db rebuild` to recreate it.",
                    "path",
                    path.as_str(),
                ).as_str(),
            )
        },
    }
}

/// The width of the kind column: the header and every cell fit.
pub open spec fn kind_width(ctx: LocaleContext, worktrees: Seq<WorktreeUsage>) -> usize {
    worktree::largest(
        worktrees.map_values(
            |usage: WorktreeUsage| text::display_width(kind_cell_text(ctx, usage)),
        ),
        text::display_width(ctx.named("du.columns.type"@, "TYPE"@)),
    )
}

/// The width of the label column: the header and every label fit, up to the limit.
pub open spec fn label_width(ctx: LocaleContext, worktrees: Seq<WorktreeUsage>) -> usize {
    let widest = worktree::largest(
        worktrees.map_values(|usage: WorktreeUsage| text::display_width(usage.label@)),
        text::display_width(ctx.named("du.columns.label"@, "LABEL"@)),
    );
    if widest < LABEL_WIDTH_MAX {
        widest
    } else {
        LABEL_WIDTH_MAX
    }
}

fn kind_width_of(ctx: LocaleContext, worktrees: &Vec<WorktreeUsage>) -> (width: usize)
    ensures
        width == kind_width(ctx, worktrees@),
{
    let ghost all = worktrees@.map_values(
        |usage: WorktreeUsage| text::display_width(kind_cell_text(ctx, usage)),
    );
    let mut widths: Vec<usize> = Vec::new();
    let mut i: usize = 0;
    while i < worktrees.len()
        invariant
            i <= worktrees@.len(),
            all == worktrees@.map_values(
                |usage: WorktreeUsage| text::display_width(kind_cell_text(ctx, usage)),
            ),
            widths@ == all.take(i as int),
        decreases worktrees@.len() - i,
    {
        widths.push(width_of(kind_cell(ctx, &worktrees[i]).as_str()));
        assert(widths@ =~= all.take(i + 1));
        i = i + 1;
    }
    assert(widths@ =~= all);
    largest_of(&widths, width_of(ctx.named_static_text("du.columns.type", "TYPE")))
}

fn label_width_of(ctx: LocaleContext, worktrees: &Vec<WorktreeUsage>) -> (width: usize)
    ensures
        width == label_width(ctx, worktrees@),
{
    let ghost all = worktrees@.map_values(
        |usage: WorktreeUsage| text::display_width(usage.label@),
    );
    let mut widths: Vec<usize> = Vec::new();
    let mut i: usize = 0;
    while i < worktrees.len()
        invariant
            i <= worktrees@.len(),
            all == worktrees@.map_values(
                |usage: WorktreeUsage| text::display_width(usage.label@),
            ),
            widths@ == all.take(i as int),
        decreases worktrees@.len() - i,
    {
        widths.push(width_of(worktrees[i].label.as_str()));
        assert(widths@ =~= all.take(i + 1));
        i = i + 1;
    }
    assert(widths@ =~= all);
    let widest = largest_of(
        &widths,
        width_of(ctx.named_static_text("du.columns.label", "LABEL")),
    );
    if widest < LABEL_WIDTH_MAX {
        widest
    } else {
        LABEL_WIDTH_MAX
    }
}

/// A line of the worktree table.
pub open spec fn table_line(
    size: Seq<char>,
    kind: Seq<char>,
    age: Seq<char>,
    label: Seq<char>,
    path: Seq<char>,
    kinds: usize,
    labels: usize,
) -> Seq<char> {
    "  "@ + text::right_aligned(size, SIZE_WIDTH as nat) + "  "@ + text::padded(kind, kinds as nat)
        + " "@ + text::left_aligned(age, AGE_WIDTH as nat) + " "@ + text::padded(
        label,
        labels as nat,
    ) + " "@ + path + "\n"@
}

fn table_line_of(
    size: &str,
    kind: &str,
    age: &str,
    label: &str,
    path: &str,
    kinds: usize,
    labels: usize,
) -> (text: String)
    ensures
        text@ == table_line(size@, kind@, age@, label@, path@, kinds, labels),
{
    let mut out = "  ".to_owned();
    out.append(right_align(size, SIZE_WIDTH).as_str());
    out.append("  ");
    out.append(pad_to_width(kind, kinds).as_str());
    out.append(" ");
    out.append(left_align(age, AGE_WIDTH).as_str());
    out.append(" ");
    out.append(pad_to_width(label, labels).as_str());
    out.append(" ");
    out.append(path);
    out.append("\n");
    out
}

/// What is left of each path.
pub open spec fn rest_texts(rests: Seq<Option<String>>) -> Seq<Option<Seq<char>>> {
    rests.map_values(|rest: Option<String>| text::optional_text(rest))
}

/// The row of one worktree, given what is left of its path below the home directory.
pub open spec fn row_text(
    ctx: LocaleContext,
    usage: WorktreeUsage,
    rest: Option<Seq<char>>,
    home_label: Seq<char>,
    kinds: usize,
    labels: usize,
) -> Seq<char> {
    table_line(
        or_dash(usage.shown_bytes),
        kind_cell_text(ctx, usage),
        or_dash(usage.shown_age),
        text::clipped(usage.label@, labels as nat),
        abbreviated(usage.path@, rest, home_label),
        kinds,
        labels,
    )
}

/// The rows of the worktrees, one after the other.
pub open spec fn rows_text(
    ctx: LocaleContext,
    worktrees: Seq<WorktreeUsage>,
    rests: Seq<Option<Seq<char>>>,
    home_label: Seq<char>,
    kinds: usize,
    labels: usize,
) -> Seq<char>
    decreases worktrees.len(),
{
    if worktrees.len() == 0 {
        Seq::empty()
    } else {
        rows_text(ctx, worktrees.drop_last(), rests, home_label, kinds, labels) + row_text(
            ctx,
            worktrees.last(),
            rests[worktrees.len() - 1],
            home_label,
            kinds,
            labels,
        )
    }
}

fn rows_of(
    ctx: LocaleContext,
    worktrees: &Vec<WorktreeUsage>,
    rests: &Vec<Option<String>>,
    home_label: &str,
    kinds: usize,
    labels: usize,
) -> (text: String)
    requires
        rests@.len() == worktrees@.len(),
    ensures
        text@ == rows_text(ctx, worktrees@, rest_texts(rests@), home_label@, kinds, labels),
{
    let mut out = String::new();
    let mut i: usize = 0;
    while i < worktrees.len()
        invariant
            i <= worktrees@.len(),
            rests@.len() == worktrees@.len(),
            out@ == rows_text(
                ctx,
                worktrees@.take(i as int),
                rest_texts(rests@),
                home_label@,
                kinds,
                labels,
            ),
        decreases worktrees@.len() - i,
    {
        assert(worktrees@.take(i + 1).drop_last() =~= worktrees@.take(i as int));
        let usage = &worktrees[i];
        let row = table_line_of(
            size_cell(&usage.shown_bytes),
            kind_cell(ctx, usage).as_str(),
            size_cell(&usage.shown_age),
            truncate_to_width(usage.label.as_str(), labels),
            abbreviate_rest(usage.path.as_str(), &rests[i], home_label).as_str(),
            kinds,
            labels,
        );
        out.append(row.as_str());
        i = i + 1;
    }
    assert(worktrees@.take(i as int) =~= worktrees@);
    out
}

/// The worktree table: a header and a row for each worktree; one line where there is none.
pub open spec fn table_text(
    ctx: LocaleContext,
    report: DiskUsageReport,
    rests: Seq<Option<Seq<char>>>,
) -> Seq<char> {
    if report.worktrees@.len() == 0 {
        render::named_note(ctx, "du.worktrees.empty"@, "No worktrees found."@)
    } else {
        let kinds = kind_width(ctx, report.worktrees@);
        let labels = label_width(ctx, report.worktrees@);
        table_line(
            ctx.named("du.columns.size"@, "SIZE"@),
            ctx.named("du.columns.type"@, "TYPE"@),
            ctx.named("du.columns.age"@, "AGE"@),
            ctx.named("du.columns.label"@, "LABEL"@),
            ctx.named("du.columns.path"@, "PATH"@),
            kinds,
            labels,
        ) + rows_text(ctx, report.worktrees@, rests, report.home_label@, kinds, labels)
    }
}

fn table_of(ctx: LocaleContext, report: &DiskUsageReport, rests: &Vec<Option<String>>) -> (text:
    String)
    requires
        rests@.len() == report.worktrees@.len(),
    ensures
        text@ == table_text(ctx, *report, rest_texts(rests@)),
{
    if report.worktrees.len() == 0 {
        return named_note_of(ctx, "du.worktrees.empty", "No worktrees found.");
    }
    let kinds = kind_width_of(ctx, &report.worktrees);
    let labels = label_width_of(ctx, &report.worktrees);
    let mut out = table_line_of(
        ctx.named_static_text("du.columns.size", "SIZE"),
        ctx.named_static_text("du.columns.type", "TYPE"),
        ctx.named_static_text("du.columns.age", "AGE"),
        ctx.named_static_text("du.columns.label", "LABEL"),
        ctx.named_static_text("du.columns.path", "PATH"),
        kinds,
        labels,
    );
    out.append(
        rows_of(
            ctx,
            &report.worktrees,
            rests,
            report.home_label.as_str(),
            kinds,
            labels,
        ).as_str(),
    );
    out
}

/// Whether some worktree is in the registry.
pub open spec fn any_tracked(worktrees: Seq<WorktreeUsage>) -> bool {
    exists|i: int| 0 <= i < worktrees.len() && (#[trigger] worktrees[i]).registration is Registered
}

/// Whether every worktree is in the registry.
pub open spec fn all_tracked(worktrees: Seq<WorktreeUsage>) -> bool {
    forall|i: int| 0 <= i < worktrees.len() ==> (#[trigger] worktrees[i]).registration is Registered
}

fn any_is_tracked(worktrees: &Vec<WorktreeUsage>) -> (any: bool)
    ensures
        any == any_tracked(worktrees@),
{
    let mut i: usize = 0;
    while i < worktrees.len()
        invariant
            i <= worktrees@.len(),
            forall|j: int| 0 <= j < i ==> (#[trigger] worktrees@[j]).registration !is Registered,
        decreases worktrees@.len() - i,
    {
        match worktrees[i].registration {
            Registration::Registered(_) => {
                assert(worktrees@[i as int].registration is Registered);
                return true;
            },
            Registration::Unregistered => {},
        }
        i = i + 1;
    }
    false
}

fn all_are_tracked(worktrees: &Vec<WorktreeUsage>) -> (all: bool)
    ensures
        all == all_tracked(worktrees@),
{
    let mut i: usize = 0;
    while i < worktrees.len()
        invariant
            i <= worktrees@.len(),
            forall|j: int| 0 <= j < i ==> (#[trigger] worktrees@[j]).registration is Registered,
        decreases worktrees@.len() - i,
    {
        match worktrees[i].registration {
            Registration::Unregistered => {
                assert(worktrees@[i as int].registration !is Registered);
                return false;
            },
            Registration::Registered(_) => {},
        }
        i = i + 1;
    }
    true
}

/// How to reclaim space, where worktrees take most of it. Collection walks registry records
/// only, so what helps depends on which rows are tracked.
pub open spec fn hints_text(ctx: LocaleContext, report: DiskUsageReport) -> Seq<char> {
    if report.worktrees_dominate && report.worktrees@.len() > 0 {
        "\n"@ + (if any_tracked(report.worktrees@) {
            render::named_line(
                ctx,
                "du.hint.reclaim_tracked"@,
                "To reclaim space, run `grok worktree gc --max-age 7d --dry-run`, then the same command without `--dry-run`. Without `--max-age`, gc expires nothing, and it keeps a worktree whose work it cannot find elsewhere, naming each one."@,
            )
        } else {
            Seq::empty()
        }) + (if !all_tracked(report.worktrees@) {
            render::named_line(
                ctx,
                "du.hint.untracked"@,
                "Untracked rows are not in the registry, so gc never visits them. Remove one with `grok worktree rm --dry-run <path>`, then without `--dry-run`."@,
            )
        } else {
            Seq::empty()
        })
    } else {
        Seq::empty()
    }
}

fn hints_of(ctx: LocaleContext, report: &DiskUsageReport) -> (text: String)
    ensures
        text@ == hints_text(ctx, *report),
{
    if !report.worktrees_dominate || report.worktrees.len() == 0 {
        return String::new();
    }
    let reclaim = if any_is_tracked(&report.worktrees) {
        named_line_of(
            ctx,
            "du.hint.reclaim_tracked",
            "To reclaim space, run `grok worktree gc --max-age 7d --dry-run`, then the same command without `--dry-run`. Without `--max-age`, gc expires nothing, and it keeps a worktree whose work it cannot find elsewhere, naming each one.",
        )
    } else {
        String::new()
    };
    let remove = if !all_are_tracked(&report.worktrees) {
        named_line_of(
            ctx,
            "du.hint.untracked",
            "Untracked rows are not in the registry, so gc never visits them. Remove one with `grok worktree rm --dry-run <path>`, then without `--dry-run`.",
        )
    } else {
        String::new()
    };
    let mut out = "\n".to_owned();
    out.append(reclaim.as_str());
    out.append(remove.as_str());
    out
}

/// The note on worktrees that the table leaves out.
pub open spec fn outside_note(ctx: LocaleContext, report: DiskUsageReport) -> Seq<char> {
    render::plural_note(
        ctx,
        (Message {
            id: "du.worktrees.outside_managed_one",
            english: "{count} worktree outside the managed worktree dirs is not shown here.",
        }),
        (Message {
            id: "du.worktrees.outside_managed",
            english: "{count} worktrees outside the managed worktree dirs are not shown here.",
        }),
        report.worktrees_outside_managed_roots as nat,
    )
}

/// The whole report, given what is left of each worktree's path and of the registry's path
/// below the home directory.
pub open spec fn report_text(
    ctx: LocaleContext,
    report: DiskUsageReport,
    rests: Seq<Option<Seq<char>>>,
    registry_rest: Option<Seq<char>>,
) -> Seq<char> {
    render::line(
        ctx.formatted(
            "du.title"@,
            "Disk usage for {home}"@,
            seq![("home"@, report.home_label@)],
        ),
    ) + sizes_text(ctx, report) + skips_text(ctx, report) + volume_note(ctx, report) + "\n"@
        + render::named_line(ctx, "du.worktrees.title"@, "Worktrees"@) + outside_note(ctx, report)
        + registry_note(ctx, report, registry_rest) + table_text(ctx, report, rests) + hints_text(
        ctx,
        report,
    )
}

/// The disk usage report, given what is left of each worktree's path and of the registry's
/// path below the home directory.
pub fn render_report(
    ctx: LocaleContext,
    report: &DiskUsageReport,
    rests: &Vec<Option<String>>,
    registry_rest: &Option<String>,
) -> (text: String)
    requires
        rests@.len() == report.worktrees@.len(),
    ensures
        text@ == report_text(
            ctx,
            *report,
            rest_texts(rests@),
            text::optional_text(*registry_rest),
        ),
{
    let title = ctx.format_one(
        "du.title",
        "Disk usage for {home}",
        "home",
        report.home_label.as_str(),
    );
    let outside = plural_note_of(
        ctx,
        Message {
            id: "du.worktrees.outside_managed_one",
            english: "{count} worktree outside the managed worktree dirs is not shown here.",
        },
        Message {
            id: "du.worktrees.outside_managed",
            english: "{count} worktrees outside the managed worktree dirs are not shown here.",
        },
        report.worktrees_outside_managed_roots,
    );
    let mut out = line_of(title.as_str());
    out.append(sizes_of(ctx, report).as_str());
    out.append(skips_of(ctx, report).as_str());
    out.append(volume_note_of(ctx, report).as_str());
    out.append("\n");
    out.append(named_line_of(ctx, "du.worktrees.title", "Worktrees").as_str());
    out.append(outside.as_str());
    out.append(registry_note_of(ctx, report, registry_rest).as_str());
    out.append(table_of(ctx, report, rests).as_str());
    out.append(hints_of(ctx, report).as_str());
    out
}

/// Whether `rests` can be what is left of the worktrees' paths below `home`.
pub open spec fn are_rests(
    worktrees: Seq<WorktreeUsage>,
    home: Seq<char>,
    rests: Seq<Option<Seq<char>>>,
) -> bool {
    &&& rests.len() == worktrees.len()
    &&& forall|i: int|
        0 <= i < worktrees.len() ==> is_rest(worktrees[i].path@, home, #[trigger] rests[i])
}

/// Whether the paths of a report read alike on every platform.
pub open spec fn all_read_alike(report: DiskUsageReport) -> bool {
    &&& reads_alike(report.grok_home@)
    &&& reads_alike(report.registry_path@)
    &&& forall|i: int|
        0 <= i < report.worktrees@.len() ==> reads_alike((#[trigger] report.worktrees@[i]).path@)
}

/// What is left of the worktrees' paths below the home directory, name by name.
pub open spec fn rests_below(report: DiskUsageReport) -> Seq<Option<Seq<char>>> {
    report.worktrees@.map_values(
        |usage: WorktreeUsage| below(usage.path@, report.grok_home@),
    )
}

fn rests_of(worktrees: &Vec<WorktreeUsage>, home: &str) -> (rests: Vec<Option<String>>)
    ensures
        are_rests(worktrees@, home@, rest_texts(rests@)),
{
    let mut rests: Vec<Option<String>> = Vec::new();
    let mut i: usize = 0;
    while i < worktrees.len()
        invariant
            i <= worktrees@.len(),
            rests@.len() == i,
            forall|j: int|
                0 <= j < i ==> is_rest(
                    worktrees@[j].path@,
                    home@,
                    text::optional_text(#[trigger] rests@[j]),
                ),
        decreases worktrees@.len() - i,
    {
        rests.push(path_below(worktrees[i].path.as_str(), home));
        i = i + 1;
    }
    assert forall|j: int| 0 <= j < worktrees@.len() implies is_rest(
        worktrees@[j].path@,
        home@,
        #[trigger] rest_texts(rests@)[j],
    ) by {
        assert(rest_texts(rests@)[j] == text::optional_text(rests@[j]));
    }
    rests
}

/// The disk usage report. Paths below the home directory are abbreviated; for paths that read
/// alike on every platform the whole text is fixed.
pub fn print_report(ctx: LocaleContext, report: &DiskUsageReport) -> (text: String)
    ensures
        all_read_alike(*report) ==> text@ == report_text(
            ctx,
            *report,
            rests_below(*report),
            below(report.registry_path@, report.grok_home@),
        ),
        exists|rests: Seq<Option<Seq<char>>>, registry_rest: Option<Seq<char>>|
            are_rests(report.worktrees@, report.grok_home@, rests) && is_rest(
                report.registry_path@,
                report.grok_home@,
                registry_rest,
            ) && text@ == #[trigger] report_text(ctx, *report, rests, registry_rest),
{
    let home = report.grok_home.as_str();
    let rests = rests_of(&report.worktrees, home);
    let registry_rest = path_below(report.registry_path.as_str(), home);
    proof {
        if all_read_alike(*report) {
            assert forall|i: int| 0 <= i < rests@.len() implies #[trigger] rest_texts(rests@)[i]
                == rests_below(*report)[i] by {
                assert(reads_alike(report.worktrees@[i].path@));
            }
            assert(rest_texts(rests@) =~= rests_below(*report));
        }
    }
    render_report(ctx, report, &rests, &registry_rest)
}

/// What is said where the home directory does not exist yet.
pub open spec fn missing_home_text(ctx: LocaleContext, home_label: Seq<char>) -> Seq<char> {
    render::line(
        ctx.formatted(
            "du.empty_home"@,
            "Nothing on disk yet at {home}."@,
            seq![("home"@, home_label)],
        ),
    )
}

/// What is said where the home directory does not exist yet.
pub fn print_missing_home(ctx: LocaleContext, home_label: &str) -> (text: String)
    ensures
        text@ == missing_home_text(ctx, home_label@),
{
    line_of(
        ctx.format_one(
            "du.empty_home",
            "Nothing on disk yet at {home}.",
            "home",
            home_label,
        ).as_str(),
    )
}

/// No kind is ever clipped, and the label column never passes its limit.
pub proof fn kinds_fit_their_column(ctx: LocaleContext, worktrees: Seq<WorktreeUsage>, i: int)
    requires
        0 <= i < worktrees.len(),
    ensures
        text::display_width(kind_cell_text(ctx, worktrees[i])) <= kind_width(ctx, worktrees),
        label_width(ctx, worktrees) <= LABEL_WIDTH_MAX,
{
    let widths = worktrees.map_values(
        |usage: WorktreeUsage| text::display_width(kind_cell_text(ctx, usage)),
    );
    worktree::largest_covers_all(
        widths,
        text::display_width(ctx.named("du.columns.type"@, "TYPE"@)),
        i,
    );
    assert(widths[i] == text::display_width(kind_cell_text(ctx, worktrees[i])));
}

/// Where the total exceeds the volume, the note that says so stands alone: the general note on
/// clones is not there.
pub proof fn proven_note_replaces_the_general_one(
    ctx: LocaleContext,
    report: DiskUsageReport,
)
    requires
        report.total_exceeds_volume_used,
    ensures
        volume_note(ctx, report) == render::named_note(
            ctx,
            "du.volume.shared_blocks"@,
            "Total exceeds the used space on this volume, so shared blocks are counted once per path."@,
        ),
{
}

/// A path below the home directory is shown with the label in place of the home directory, the
/// home directory itself as the label, and any other path whole, also one whose name merely
/// starts like the home directory.
pub proof fn paths_below_home_are_abbreviated(
    home: Seq<char>,
    rest: Seq<char>,
    label: Seq<char>,
    path: Seq<char>,
)
    ensures
        abbreviated(home, below(home, home), label) == label,
        rest.len() > 0 ==> abbreviated(
            home + "/"@ + rest,
            below(home + "/"@ + rest, home),
            label,
        ) == label + "/"@ + rest,
        rest.len() > 0 && rest[0] != '/' ==> abbreviated(
            home + rest,
            below(home + rest, home),
            label,
        ) == home + rest,
        !home.is_prefix_of(path) ==> abbreviated(path, below(path, home), label) == path,
{
    reveal_strlit("/");
    let inside = home + "/"@ + rest;
    assert(inside.take(home.len() as int) =~= home);
    assert(inside.skip(home.len() as int + 1) =~= rest);
    let beside = home + rest;
    assert(beside.len() != home.len() || rest.len() == 0);
    if home.len() <= path.len() && path.take(home.len() as int) == home {
        assert(path.subrange(0, home.len() as int) =~= home);
    }
    if path == home {
        assert(path.subrange(0, home.len() as int) =~= home);
    }
}

/// Where the context has no words of its own, the kind column says of a worktree what it was
/// made for, and beside it whether it is gone or not in the registry.
pub proof fn kinds_tell_the_registration(ctx: LocaleContext, usage: WorktreeUsage)
    requires
        ctx.looked_up("du.kind.untracked"@) is None,
        ctx.looked_up("du.kind.dead"@) is None,
    ensures
        usage.registration == Registration::Registered(WorktreeStatus::Alive) ==> kind_cell_text(
            ctx,
            usage,
        ) == worktree::kind_text(ctx, usage.kind),
        usage.registration == Registration::Registered(WorktreeStatus::Dead) ==> kind_cell_text(
            ctx,
            usage,
        ) == worktree::kind_text(ctx, usage.kind) + " (dead)"@,
        usage.registration == Registration::Unregistered ==> kind_cell_text(ctx, usage)
            == "untracked ("@ + worktree::kind_text(ctx, usage.kind) + ")"@,
{
    let kind = worktree::kind_text(ctx, usage.kind);
    let none = Seq::<char>::empty();
    reveal_strlit("kind");
    reveal_strlit("untracked ({kind})");
    reveal_strlit("{kind} (dead)");
    reveal_strlit("untracked (");
    reveal_strlit(")");
    reveal_strlit(" (dead)");
    render::lemma_one_value("untracked ("@, "kind"@, ")"@, kind);
    render::lemma_one_value(none, "kind"@, " (dead)"@, kind);
    assert("untracked ({kind})"@ =~= "untracked ("@ + seq!['{'] + "kind"@ + seq!['}'] + ")"@);
    assert("{kind} (dead)"@ =~= none + seq!['{'] + "kind"@ + seq!['}'] + " (dead)"@);
    assert(none + kind + " (dead)"@ =~= kind + " (dead)"@);
}

/// Directories are listed one below the other, in order, each with its size at the right of its
/// column, or a dash where nothing was measured.
pub proof fn directories_are_listed_in_order(dirs: Seq<DirUsage>, dir: DirUsage)
    ensures
        dir_lines(Seq::empty()) == Seq::<char>::empty(),
        dir.shown_bytes is Some ==> dir_lines(dirs.push(dir)) == dir_lines(dirs) + ("  "@
            + text::right_aligned(dir.shown_bytes->0@, 10) + "  "@ + dir.name@ + "\n"@),
        dir.shown_bytes is None ==> dir_lines(dirs.push(dir)) == dir_lines(dirs) + ("  "@
            + text::right_aligned("-"@, 10) + "  "@ + dir.name@ + "\n"@),
{
    assert(dirs.push(dir).drop_last() =~= dirs);
}

/// The sizes end in the total, and the files beside the directories have a line in front of it
/// exactly where they take anything.
pub proof fn sizes_end_in_the_total(ctx: LocaleContext, report: DiskUsageReport)
    ensures
        ({
            let total = "  "@ + text::right_aligned(report.shown_total@, 10) + "  "@ + ctx.named(
                "du.total"@,
                "total"@,
            ) + "\n"@;
            let files = "  "@ + text::right_aligned(report.root_files.shown@, 10) + "  "@
                + ctx.named("du.top_level_files"@, "(top-level files)"@) + "\n"@;
            &&& report.root_files.bytes == 0 ==> sizes_text(ctx, report) == dir_lines(
                report.top_level_dirs@,
            ) + total
            &&& report.root_files.bytes > 0 ==> sizes_text(ctx, report) == dir_lines(
                report.top_level_dirs@,
            ) + files + total
        }),
{
    let total = "  "@ + text::right_aligned(report.shown_total@, 10) + "  "@ + ctx.named(
        "du.total"@,
        "total"@,
    ) + "\n"@;
    let dirs = dir_lines(report.top_level_dirs@);
    if report.root_files.bytes == 0 {
        assert(sizes_text(ctx, report) =~= dirs + total);
    }
}

/// How long an indented line with a count in it is.
pub open spec fn note_length(
    ctx: LocaleContext,
    id: Seq<char>,
    english: Seq<char>,
    count: u64,
) -> nat {
    ctx.formatted(id, english, seq![("count"@, text::decimal(count as nat))]).len() + 3
}

/// The report has a note on each kind of entry that the total leaves out, in the words for one
/// or for many, exactly where there are some.
pub proof fn every_skip_is_noted(
    ctx: LocaleContext,
    report: DiskUsageReport,
    rests: Seq<Option<Seq<char>>>,
    registry_rest: Option<Seq<char>>,
)
    ensures
        ({
            let shown = report_text(ctx, report, rests, registry_rest);
            &&& report.skips.unreadable_dirs == 1 ==> text::occurs_in(
                "  "@ + ctx.formatted(
                    "du.skip.unreadable_one"@,
                    "{count} directory could not be read; what is under it may be missing from the total. RUST_LOG=debug names it."@,
                    seq![("count"@, text::decimal(report.skips.unreadable_dirs as nat))],
                ) + "\n"@,
                shown,
            )
            &&& report.skips.unreadable_dirs >= 2 ==> text::occurs_in(
                "  "@ + ctx.formatted(
                    "du.skip.unreadable"@,
                    "{count} directories could not be read; what is under them may be missing from the total. RUST_LOG=debug names them."@,
                    seq![("count"@, text::decimal(report.skips.unreadable_dirs as nat))],
                ) + "\n"@,
                shown,
            )
            &&& report.skips.unstatable_entries == 1 ==> text::occurs_in(
                "  "@ + ctx.formatted(
                    "du.skip.unstatable_one"@,
                    "{count} entry could not be read and is not counted."@,
                    seq![("count"@, text::decimal(report.skips.unstatable_entries as nat))],
                ) + "\n"@,
                shown,
            )
            &&& report.skips.unstatable_entries >= 2 ==> text::occurs_in(
                "  "@ + ctx.formatted(
                    "du.skip.unstatable"@,
                    "{count} entries could not be read and are not counted."@,
                    seq![("count"@, text::decimal(report.skips.unstatable_entries as nat))],
                ) + "\n"@,
                shown,
            )
            &&& report.skips.other_filesystem_dirs == 1 ==> text::occurs_in(
                "  "@ + ctx.formatted(
                    "du.skip.other_filesystem_one"@,
                    "{count} directory is on another filesystem and is not counted, here or in any row."@,
                    seq![("count"@, text::decimal(report.skips.other_filesystem_dirs as nat))],
                ) + "\n"@,
                shown,
            )
            &&& report.skips.other_filesystem_dirs >= 2 ==> text::occurs_in(
                "  "@ + ctx.formatted(
                    "du.skip.other_filesystem"@,
                    "{count} directories are on another filesystem and are not counted, here or in any row."@,
                    seq![("count"@, text::decimal(report.skips.other_filesystem_dirs as nat))],
                ) + "\n"@,
                shown,
            )
            &&& report.unfollowed_dir_symlinks == 1 ==> text::occurs_in(
                "  "@ + ctx.formatted(
                    "du.skip.unfollowed_symlink_one"@,
                    "{count} top-level symlink to a directory is not followed, so its contents are missing from the total."@,
                    seq![("count"@, text::decimal(report.unfollowed_dir_symlinks as nat))],
                ) + "\n"@,
                shown,
            )
            &&& report.unfollowed_dir_symlinks >= 2 ==> text::occurs_in(
                "  "@ + ctx.formatted(
                    "du.skip.unfollowed_symlink"@,
                    "{count} top-level symlinks to directories are not followed, so their contents are missing from the total."@,
                    seq![("count"@, text::decimal(report.unfollowed_dir_symlinks as nat))],
                ) + "\n"@,
                shown,
            )
            &&& report.worktrees_outside_managed_roots == 1 ==> text::occurs_in(
                "  "@ + ctx.formatted(
                    "du.worktrees.outside_managed_one"@,
                    "{count} worktree outside the managed worktree dirs is not shown here."@,
                    seq![("count"@, text::decimal(report.worktrees_outside_managed_roots as nat))],
                ) + "\n"@,
                shown,
            )
            &&& report.worktrees_outside_managed_roots >= 2 ==> text::occurs_in(
                "  "@ + ctx.formatted(
                    "du.worktrees.outside_managed"@,
                    "{count} worktrees outside the managed worktree dirs are not shown here."@,
                    seq![("count"@, text::decimal(report.worktrees_outside_managed_roots as nat))],
                ) + "\n"@,
                shown,
            )
            &&& report.worktrees_outside_managed_roots == 0 ==> outside_note(ctx, report).len() == 0
            &&& skips_text(ctx, report).len() == (if report.skips.unreadable_dirs == 0 {
                0
            } else if report.skips.unreadable_dirs == 1 {
                note_length(
                    ctx,
                    "du.skip.unreadable_one"@,
                    "{count} directory could not be read; what is under it may be missing from the total. RUST_LOG=debug names it."@,
                    1,
                )
            } else {
                note_length(
                    ctx,
                    "du.skip.unreadable"@,
                    "{count} directories could not be read; what is under them may be missing from the total. RUST_LOG=debug names them."@,
                    report.skips.unreadable_dirs,
                )
            }) + (if report.skips.unstatable_entries == 0 {
                0
            } else if report.skips.unstatable_entries == 1 {
                note_length(
                    ctx,
                    "du.skip.unstatable_one"@,
                    "{count} entry could not be read and is not counted."@,
                    1,
                )
            } else {
                note_length(
                    ctx,
                    "du.skip.unstatable"@,
                    "{count} entries could not be read and are not counted."@,
                    report.skips.unstatable_entries,
                )
            }) + (if report.skips.other_filesystem_dirs == 0 {
                0
            } else if report.skips.other_filesystem_dirs == 1 {
                note_length(
                    ctx,
                    "du.skip.other_filesystem_one"@,
                    "{count} directory is on another filesystem and is not counted, here or in any row."@,
                    1,
                )
            } else {
                note_length(
                    ctx,
                    "du.skip.other_filesystem"@,
                    "{count} directories are on another filesystem and are not counted, here or in any row."@,
                    report.skips.other_filesystem_dirs,
                )
            }) + (if report.unfollowed_dir_symlinks == 0 {
                0
            } else if report.unfollowed_dir_symlinks == 1 {
                note_length(
                    ctx,
                    "du.skip.unfollowed_symlink_one"@,
                    "{count} top-level symlink to a directory is not followed, so its contents are missing from the total."@,
                    1,
                )
            } else {
                note_length(
                    ctx,
                    "du.skip.unfollowed_symlink"@,
                    "{count} top-level symlinks to directories are not followed, so their contents are missing from the total."@,
                    report.unfollowed_dir_symlinks,
                )
            })
        }),
{
    broadcast use text::group_occurrences;

    reveal_strlit("  ");
    reveal_strlit("\n");
}

/// The note on shared storage: the proven one where the total exceeds the volume, else the
/// general one where clones share storage and there is a worktree, else none.
pub proof fn shared_storage_is_noted_once(
    ctx: LocaleContext,
    report: DiskUsageReport,
    rests: Seq<Option<Seq<char>>>,
    registry_rest: Option<Seq<char>>,
)
    ensures
        ({
            let shown = report_text(ctx, report, rests, registry_rest);
            let proven = "  "@ + ctx.named(
                "du.volume.shared_blocks"@,
                "Total exceeds the used space on this volume, so shared blocks are counted once per path."@,
            ) + "\n"@;
            let general = "  "@ + ctx.named(
                "du.volume.clone_shared_storage"@,
                "Worktree clones share storage with their source, so the total can exceed real disk use."@,
            ) + "\n"@;
            &&& report.total_exceeds_volume_used ==> text::occurs_in(proven, shown) && volume_note(
                ctx,
                report,
            ).len() == proven.len()
            &&& !report.total_exceeds_volume_used && report.clones_share_storage
                && report.worktrees@.len() > 0 ==> text::occurs_in(general, shown) && volume_note(
                ctx,
                report,
            ).len() == general.len()
            &&& !report.total_exceeds_volume_used && (!report.clones_share_storage
                || report.worktrees@.len() == 0) ==> volume_note(ctx, report).len() == 0
        }),
{
    broadcast use text::group_occurrences;

}

/// The state of the registry is noted unless it was read: an absent one only where there are
/// worktrees, and an unopenable or a damaged one with its path.
pub proof fn registry_troubles_are_noted(
    ctx: LocaleContext,
    report: DiskUsageReport,
    rests: Seq<Option<Seq<char>>>,
    registry_rest: Option<Seq<char>>,
)
    ensures
        ({
            let shown = report_text(ctx, report, rests, registry_rest);
            let note = registry_note(ctx, report, registry_rest);
            let path = abbreviated(report.registry_path@, registry_rest, report.home_label@);
            let absent = "  "@ + ctx.named(
                "du.registry.absent"@,
                "Worktree registry not found; rows may show as untracked."@,
            ) + "\n"@;
            let busy = "  "@ + ctx.named(
                "du.registry.busy"@,
                "  Worktree registry is in use by another process; rows show as untracked. Retry in a moment."@,
            ) + "\n"@;
            let unopenable = "  "@ + ctx.formatted(
                "du.registry.unopenable"@,
                "  Worktree registry at {path} could not be opened; rows show as untracked. Check its permissions."@,
                seq![("path"@, path)],
            ) + "\n"@;
            let corrupt = "  "@ + ctx.formatted(
                "du.registry.corrupt"@,
                "  Worktree registry is damaged; rows show as untracked. Remove {path} and run `grok worktree db rebuild` to recreate it."@,
                seq![("path"@, path)],
            ) + "\n"@;
            &&& report.registry == RegistryState::Read ==> note.len() == 0
            &&& report.registry == RegistryState::Absent && report.worktrees@.len() == 0
                ==> note.len() == 0
            &&& report.registry == RegistryState::Absent && report.worktrees@.len() > 0 ==> note
                == absent && text::occurs_in(absent, shown)
            &&& report.registry == RegistryState::Busy ==> note == busy && text::occurs_in(
                busy,
                shown,
            )
            &&& report.registry == RegistryState::Unopenable ==> note == unopenable
                && text::occurs_in(unopenable, shown)
            &&& report.registry == RegistryState::Corrupt ==> note == corrupt && text::occurs_in(
                corrupt,
                shown,
            )
        }),
{
    broadcast use text::group_occurrences;

}

/// The kind column is as wide as its title or as the widest of its cells.
pub proof fn kind_column_is_as_wide_as_needed(
    ctx: LocaleContext,
    worktrees: Seq<WorktreeUsage>,
    i: int,
)
    ensures
        ({
            let title = text::display_width(ctx.named("du.columns.type"@, "TYPE"@));
            &&& title <= kind_width(ctx, worktrees)
            &&& 0 <= i < worktrees.len() ==> text::display_width(kind_cell_text(ctx, worktrees[i]))
                <= kind_width(ctx, worktrees)
            &&& kind_width(ctx, worktrees) > title ==> exists|j: int|
                0 <= j < worktrees.len() && text::display_width(
                    kind_cell_text(ctx, #[trigger] worktrees[j]),
                ) == kind_width(ctx, worktrees)
        }),
{
    let title = text::display_width(ctx.named("du.columns.type"@, "TYPE"@));
    let widths = worktrees.map_values(
        |usage: WorktreeUsage| text::display_width(kind_cell_text(ctx, usage)),
    );
    worktree::largest_covers_all(widths, title, i);
    worktree::largest_is_reached(widths, title);
    if 0 <= i < worktrees.len() {
        assert(widths[i] == text::display_width(kind_cell_text(ctx, worktrees[i])));
    }
    if kind_width(ctx, worktrees) > title {
        let j = choose|j: int|
            0 <= j < widths.len() && #[trigger] widths[j] == worktree::largest(widths, title);
        assert(text::display_width(kind_cell_text(ctx, worktrees[j])) == kind_width(
            ctx,
            worktrees,
        ));
    }
}

/// A label of at most 24 columns is shown whole, wherever in the table it stands, and the label
/// column is as wide as its title or as the widest label, up to those 24 columns.
pub proof fn labels_that_fit_are_shown_whole(
    ctx: LocaleContext,
    worktrees: Seq<WorktreeUsage>,
    i: int,
)
    ensures
        ({
            let title = text::display_width(ctx.named("du.columns.label"@, "LABEL"@));
            let width = label_width(ctx, worktrees);
            &&& width <= 24
            &&& title <= 24 ==> title <= width
            &&& 0 <= i < worktrees.len() && text::display_width(worktrees[i].label@) <= 24
                ==> text::clipped(worktrees[i].label@, width as nat) == worktrees[i].label@
            &&& 0 <= i < worktrees.len() && text::display_width(worktrees[i].label@) >= 24 ==> width
                == 24
            &&& width > title ==> exists|j: int|
                0 <= j < worktrees.len() && text::display_width((#[trigger] worktrees[j]).label@)
                    >= width
        }),
{
    let title = text::display_width(ctx.named("du.columns.label"@, "LABEL"@));
    let widths = worktrees.map_values(|usage: WorktreeUsage| text::display_width(usage.label@));
    worktree::largest_covers_all(widths, title, i);
    worktree::largest_is_reached(widths, title);
    let width = label_width(ctx, worktrees);
    if 0 <= i < worktrees.len() {
        assert(widths[i] == text::display_width(worktrees[i].label@));
        text::clipping_keeps_a_beginning(worktrees[i].label@, width as nat);
    }
    if width > title {
        let j = choose|j: int|
            0 <= j < widths.len() && #[trigger] widths[j] == worktree::largest(widths, title);
        assert(text::display_width(worktrees[j].label@) >= width);
    }
}

/// A row shows the size, the kind, the age, the label as far as its column takes it, and the
/// path, in this order; a dash stands for a size or an age that is not known.
pub proof fn rows_show_their_worktree(
    ctx: LocaleContext,
    usage: WorktreeUsage,
    rest: Option<Seq<char>>,
    home_label: Seq<char>,
    kinds: usize,
    labels: usize,
)
    ensures
        ({
            let shown = row_text(ctx, usage, rest, home_label, kinds, labels);
            let size = if usage.shown_bytes is Some {
                usage.shown_bytes->0@
            } else {
                "-"@
            };
            let age = if usage.shown_age is Some {
                usage.shown_age->0@
            } else {
                "-"@
            };
            let start = "  "@ + text::right_aligned(size, 10) + "  "@;
            &&& (start + kind_cell_text(ctx, usage)).is_prefix_of(shown)
            &&& text::occurs_in(text::left_aligned(age, 10), shown)
            &&& text::occurs_in(text::clipped(usage.label@, labels as nat), shown)
            &&& (abbreviated(usage.path@, rest, home_label) + "\n"@).is_suffix_of(shown)
        }),
{
    broadcast use text::group_occurrences;

    let shown = row_text(ctx, usage, rest, home_label, kinds, labels);
    let start = "  "@ + text::right_aligned(or_dash(usage.shown_bytes), 10) + "  "@
        + kind_cell_text(ctx, usage);
    let end = abbreviated(usage.path@, rest, home_label) + "\n"@;
    assert(shown.subrange(0, start.len() as int) =~= start);
    assert(shown.subrange(shown.len() - end.len(), shown.len() as int) =~= end);
}

/// Rows stand one below the other, in the order of the worktrees, each with its own path.
pub proof fn rows_stand_in_order(
    ctx: LocaleContext,
    worktrees: Seq<WorktreeUsage>,
    usage: WorktreeUsage,
    rests: Seq<Option<Seq<char>>>,
    home_label: Seq<char>,
    kinds: usize,
    labels: usize,
)
    requires
        rests.len() == worktrees.len() + 1,
    ensures
        rows_text(ctx, Seq::empty(), rests, home_label, kinds, labels) == Seq::<char>::empty(),
        rows_text(ctx, worktrees.push(usage), rests, home_label, kinds, labels) == rows_text(
            ctx,
            worktrees,
            rests,
            home_label,
            kinds,
            labels,
        ) + row_text(ctx, usage, rests.last(), home_label, kinds, labels),
{
    assert(worktrees.push(usage).drop_last() =~= worktrees);
}

proof fn lemma_row_stands(
    ctx: LocaleContext,
    worktrees: Seq<WorktreeUsage>,
    rests: Seq<Option<Seq<char>>>,
    home_label: Seq<char>,
    kinds: usize,
    labels: usize,
    i: int,
)
    requires
        0 <= i < worktrees.len(),
    ensures
        text::occurs_in(
            row_text(ctx, worktrees[i], rests[i], home_label, kinds, labels),
            rows_text(ctx, worktrees, rests, home_label, kinds, labels),
        ),
    decreases worktrees.len(),
{
    broadcast use text::group_occurrences;

    if i < worktrees.len() - 1 {
        lemma_row_stands(ctx, worktrees.drop_last(), rests, home_label, kinds, labels, i);
    }
}

/// Every worktree has its row in the report, in the columns that all of them share, and beside
/// the rows the table has only its titles; without a worktree the report says so.
pub proof fn every_worktree_has_its_row(
    ctx: LocaleContext,
    report: DiskUsageReport,
    rests: Seq<Option<Seq<char>>>,
    registry_rest: Option<Seq<char>>,
    i: int,
)
    ensures
        report.worktrees@.len() == 0 ==> text::occurs_in(
            "  "@ + ctx.named("du.worktrees.empty"@, "No worktrees found."@) + "\n"@,
            report_text(ctx, report, rests, registry_rest),
        ),
        report.worktrees@.len() == 0 ==> table_text(ctx, report, rests) == "  "@ + ctx.named(
            "du.worktrees.empty"@,
            "No worktrees found."@,
        ) + "\n"@,
        0 <= i < report.worktrees@.len() ==> text::occurs_in(
            row_text(
                ctx,
                report.worktrees@[i],
                rests[i],
                report.home_label@,
                kind_width(ctx, report.worktrees@),
                label_width(ctx, report.worktrees@),
            ),
            report_text(ctx, report, rests, registry_rest),
        ),
        report.worktrees@.len() > 0 ==> rows_text(
            ctx,
            report.worktrees@,
            rests,
            report.home_label@,
            kind_width(ctx, report.worktrees@),
            label_width(ctx, report.worktrees@),
        ).is_suffix_of(table_text(ctx, report, rests)),
{
    broadcast use text::group_occurrences;

    let worktrees = report.worktrees@;
    if worktrees.len() > 0 {
        let kinds = kind_width(ctx, worktrees);
        let labels = label_width(ctx, worktrees);
        let titles = table_line(
            ctx.named("du.columns.size"@, "SIZE"@),
            ctx.named("du.columns.type"@, "TYPE"@),
            ctx.named("du.columns.age"@, "AGE"@),
            ctx.named("du.columns.label"@, "LABEL"@),
            ctx.named("du.columns.path"@, "PATH"@),
            kinds,
            labels,
        );
        let rows = rows_text(ctx, worktrees, rests, report.home_label@, kinds, labels);
        text::lemma_ends_in(titles, rows);
        if 0 <= i < worktrees.len() {
            lemma_row_stands(ctx, worktrees, rests, report.home_label@, kinds, labels, i);
            let row = row_text(ctx, worktrees[i], rests[i], report.home_label@, kinds, labels);
            assert(text::occurs_in(row, table_text(ctx, report, rests)));
            assert(text::occurs_in(row, report_text(ctx, report, rests, registry_rest)));
        }
    }
}

/// Hints follow where worktrees take most of the space and there are some: one on collection
/// where some worktree is registered, and one on removal where some is not.
pub proof fn hints_go_by_registration(ctx: LocaleContext, report: DiskUsageReport, i: int, j: int)
    ensures
        ({
            let shown = hints_text(ctx, report);
            let worktrees = report.worktrees@;
            let collect = ctx.named(
                "du.hint.reclaim_tracked"@,
                "To reclaim space, run `grok worktree gc --max-age 7d --dry-run`, then the same command without `--dry-run`. Without `--max-age`, gc expires nothing, and it keeps a worktree whose work it cannot find elsewhere, naming each one."@,
            ) + "\n"@;
            let remove = ctx.named(
                "du.hint.untracked"@,
                "Untracked rows are not in the registry, so gc never visits them. Remove one with `grok worktree rm --dry-run <path>`, then without `--dry-run`."@,
            ) + "\n"@;
            &&& !report.worktrees_dominate || worktrees.len() == 0 ==> shown.len() == 0
            &&& report.worktrees_dominate && 0 <= i < worktrees.len() && 0 <= j < worktrees.len()
                && worktrees[i].registration is Registered && worktrees[j].registration
                is Unregistered ==> shown == "\n"@ + collect + remove
            &&& report.worktrees_dominate && worktrees.len() > 0 && (forall|k: int|
                0 <= k < worktrees.len() ==> (#[trigger] worktrees[k]).registration is Registered)
                ==> shown == "\n"@ + collect
            &&& report.worktrees_dominate && worktrees.len() > 0 && (forall|k: int|
                0 <= k < worktrees.len() ==> (#[trigger] worktrees[k]).registration
                    is Unregistered) ==> shown == "\n"@ + remove
        }),
{
    let shown = hints_text(ctx, report);
    let worktrees = report.worktrees@;
    if worktrees.len() > 0 {
        assert(worktrees[0].registration is Registered || worktrees[0].registration
            is Unregistered);
        if 0 <= j < worktrees.len() && worktrees[j].registration is Unregistered {
            assert(!all_tracked(worktrees));
        }
        if 0 <= i < worktrees.len() && worktrees[i].registration is Registered {
            assert(any_tracked(worktrees));
        }
        if all_tracked(worktrees) {
            assert(any_tracked(worktrees));
        }
        if report.worktrees_dominate {
            let collect = ctx.named(
                "du.hint.reclaim_tracked"@,
                "To reclaim space, run `grok worktree gc --max-age 7d --dry-run`, then the same command without `--dry-run`. Without `--max-age`, gc expires nothing, and it keeps a worktree whose work it cannot find elsewhere, naming each one."@,
            ) + "\n"@;
            let remove = ctx.named(
                "du.hint.untracked"@,
                "Untracked rows are not in the registry, so gc never visits them. Remove one with `grok worktree rm --dry-run <path>`, then without `--dry-run`."@,
            ) + "\n"@;
            if all_tracked(worktrees) {
                assert(shown =~= "\n"@ + collect);
            } else if !any_tracked(worktrees) {
                assert(shown =~= "\n"@ + remove);
            } else {
                assert(shown =~= "\n"@ + collect + remove);
            }
        }
    }
}

/// The report holds all its parts, each once: title, sizes and what they leave out, then the
/// worktrees, with notes in front of the table and hints behind it.
pub proof fn reports_hold_all_their_parts(
    ctx: LocaleContext,
    report: DiskUsageReport,
    rests: Seq<Option<Seq<char>>>,
    registry_rest: Option<Seq<char>>,
)
    ensures
        ({
            let shown = report_text(ctx, report, rests, registry_rest);
            let title = ctx.formatted(
                "du.title"@,
                "Disk usage for {home}"@,
                seq![("home"@, report.home_label@)],
            ) + "\n"@;
            let heading = "\n"@ + (ctx.named("du.worktrees.title"@, "Worktrees"@) + "\n"@);
            &&& (title + sizes_text(ctx, report) + skips_text(ctx, report) + volume_note(
                ctx,
                report,
            ) + heading).is_prefix_of(shown)
            &&& (outside_note(ctx, report) + registry_note(ctx, report, registry_rest)
                + table_text(ctx, report, rests) + hints_text(ctx, report)).is_suffix_of(shown)
            &&& shown.len() == title.len() + sizes_text(ctx, report).len() + skips_text(
                ctx,
                report,
            ).len() + volume_note(ctx, report).len() + heading.len() + outside_note(
                ctx,
                report,
            ).len() + registry_note(ctx, report, registry_rest).len() + table_text(
                ctx,
                report,
                rests,
            ).len() + hints_text(ctx, report).len()
        }),
{
    broadcast use text::lemma_starts_with;
    broadcast use text::lemma_starts_with_itself;

    let title = ctx.formatted(
        "du.title"@,
        "Disk usage for {home}"@,
        seq![("home"@, report.home_label@)],
    ) + "\n"@;
    let sizes = title + sizes_text(ctx, report) + skips_text(ctx, report) + volume_note(ctx, report);
    let heading = ctx.named("du.worktrees.title"@, "Worktrees"@) + "\n"@;
    let outside = outside_note(ctx, report);
    let registry = registry_note(ctx, report, registry_rest);
    let table = table_text(ctx, report, rests);
    let hints = hints_text(ctx, report);
    text::lemma_regroup(sizes, "\n"@, heading);
    text::lemma_five_parts(sizes + "\n"@ + heading, outside, registry, table, hints);
    text::lemma_ends_in(sizes + "\n"@ + heading, outside + registry + table + hints);
}

/// Where the home directory does not exist yet, the report is one line that names it.
pub proof fn missing_homes_are_named(ctx: LocaleContext, home_label: Seq<char>)
    requires
        ctx.looked_up("du.empty_home"@) is None,
    ensures
        missing_home_text(ctx, home_label) == "Nothing on disk yet at "@ + home_label + ".\n"@,
{
    reveal_strlit("Nothing on disk yet at {home}.");
    reveal_strlit("Nothing on disk yet at ");
    reveal_strlit(".");
    reveal_strlit(".\n");
    reveal_strlit("\n");
    reveal_strlit("home");
    render::lemma_one_value("Nothing on disk yet at "@, "home"@, "."@, home_label);
    assert("Nothing on disk yet at {home}."@ =~= "Nothing on disk yet at "@ + seq!['{'] + "home"@
        + seq!['}'] + "."@);
    assert(missing_home_text(ctx, home_label) =~= "Nothing on disk yet at "@ + home_label + ".\n"@);
}

/// The table starts with the titles of its columns.
pub proof fn tables_start_with_their_titles(
    ctx: LocaleContext,
    report: DiskUsageReport,
    rests: Seq<Option<Seq<char>>>,
)
    requires
        report.worktrees@.len() > 0,
    ensures
        ({
            let table = table_text(ctx, report, rests);
            &&& ("  "@ + text::right_aligned(ctx.named("du.columns.size"@, "SIZE"@), 10) + "  "@
                + ctx.named("du.columns.type"@, "TYPE"@)).is_prefix_of(table)
            &&& text::occurs_in(
                text::left_aligned(ctx.named("du.columns.age"@, "AGE"@), 10),
                table,
            )
            &&& text::occurs_in(ctx.named("du.columns.label"@, "LABEL"@), table)
            &&& text::occurs_in(ctx.named("du.columns.path"@, "PATH"@), table)
        }),
{
    broadcast use text::group_occurrences;

    let table = table_text(ctx, report, rests);
    let start = "  "@ + text::right_aligned(ctx.named("du.columns.size"@, "SIZE"@), 10) + "  "@
        + ctx.named("du.columns.type"@, "TYPE"@);
    assert(table.subrange(0, start.len() as int) =~= start);
}

/// A row takes as many characters as its cells and the gaps between them.
pub proof fn rows_fill_their_columns(
    ctx: LocaleContext,
    usage: WorktreeUsage,
    rest: Option<Seq<char>>,
    home_label: Seq<char>,
    kinds: usize,
    labels: usize,
)
    ensures
        row_text(ctx, usage, rest, home_label, kinds, labels).len() == text::right_aligned(
            or_dash(usage.shown_bytes),
            10,
        ).len() + text::padded(kind_cell_text(ctx, usage), kinds as nat).len() + text::left_aligned(
            or_dash(usage.shown_age),
            10,
        ).len() + text::padded(text::clipped(usage.label@, labels as nat), labels as nat).len()
            + abbreviated(usage.path@, rest, home_label).len() + 8,
        usage.shown_bytes is None ==> or_dash(usage.shown_bytes) == "-"@,
        usage.shown_bytes is Some ==> or_dash(usage.shown_bytes) == usage.shown_bytes->0@,
{
    reveal_strlit("  ");
    reveal_strlit(" ");
    reveal_strlit("\n");
}

/// What the total leaves out is told kind by kind: the notes of a report are those of a report
/// with unreadable directories alone, then of one with unreadable entries alone, with other
/// filesystems alone and with symlinks alone.
pub proof fn skips_are_told_kind_by_kind(
    ctx: LocaleContext,
    report: DiskUsageReport,
    dirs: DiskUsageReport,
    entries: DiskUsageReport,
    filesystems: DiskUsageReport,
    symlinks: DiskUsageReport,
)
    requires
        dirs.skips == (Skips {
            unreadable_dirs: report.skips.unreadable_dirs,
            unstatable_entries: 0,
            other_filesystem_dirs: 0,
        }),
        entries.skips == (Skips {
            unreadable_dirs: 0,
            unstatable_entries: report.skips.unstatable_entries,
            other_filesystem_dirs: 0,
        }),
        filesystems.skips == (Skips {
            unreadable_dirs: 0,
            unstatable_entries: 0,
            other_filesystem_dirs: report.skips.other_filesystem_dirs,
        }),
        symlinks.skips == (Skips {
            unreadable_dirs: 0,
            unstatable_entries: 0,
            other_filesystem_dirs: 0,
        }),
        dirs.unfollowed_dir_symlinks == 0,
        entries.unfollowed_dir_symlinks == 0,
        filesystems.unfollowed_dir_symlinks == 0,
        symlinks.unfollowed_dir_symlinks == report.unfollowed_dir_symlinks,
    ensures
        skips_text(ctx, report) == skips_text(ctx, dirs) + skips_text(ctx, entries) + skips_text(
            ctx,
            filesystems,
        ) + skips_text(ctx, symlinks),
{
    assert(skips_text(ctx, report) =~= skips_text(ctx, dirs) + skips_text(ctx, entries)
        + skips_text(ctx, filesystems) + skips_text(ctx, symlinks));
}

/// What is left of each path is told worktree by worktree, by the worktree's own path.
pub proof fn rests_are_told_by_worktree(
    report: DiskUsageReport,
    rests: Seq<Option<String>>,
    i: int,
)
    ensures
        0 <= i < rests.len() ==> rest_texts(rests).len() == rests.len() && rest_texts(rests)[i]
            == text::optional_text(rests[i]),
        rests_below(report).len() == report.worktrees@.len(),
        0 <= i < report.worktrees@.len() ==> rests_below(report)[i] == below(
            report.worktrees@[i].path@,
            report.grok_home@,
        ),
{
}

/// In every language the kind column shows the kind of the worktree, in the words for what is not
/// registered or gone where it is; and a missing home directory is named.
pub proof fn the_context_words_kinds_and_homes(
    ctx: LocaleContext,
    usage: WorktreeUsage,
    home_label: Seq<char>,
)
    ensures
        usage.registration == Registration::Registered(WorktreeStatus::Alive) ==> kind_cell_text(
            ctx,
            usage,
        ) == worktree::kind_text(ctx, usage.kind),
        usage.registration == Registration::Registered(WorktreeStatus::Dead) ==> kind_cell_text(
            ctx,
            usage,
        ) == ctx.formatted(
            "du.kind.dead"@,
            "{kind} (dead)"@,
            seq![("kind"@, worktree::kind_text(ctx, usage.kind))],
        ),
        usage.registration == Registration::Unregistered ==> kind_cell_text(ctx, usage)
            == ctx.formatted(
            "du.kind.untracked"@,
            "untracked ({kind})"@,
            seq![("kind"@, worktree::kind_text(ctx, usage.kind))],
        ),
        missing_home_text(ctx, home_label) == ctx.formatted(
            "du.empty_home"@,
            "Nothing on disk yet at {home}."@,
            seq![("home"@, home_label)],
        ) + "\n"@,
{
}

} // verus!
