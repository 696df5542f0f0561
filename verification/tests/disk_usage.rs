use grok_build::disk_usage::{
    abbreviate, abbreviate_rest, kind_cell, print_missing_home, print_report, render_report, Amount, DirUsage, DiskUsageReport,
    Registration, RegistryState, Skips, WorktreeUsage,
};
use grok_build::locale::{english, parse_catalog, Catalog, Catalogs};
use grok_build::worktree::{WorktreeKind, WorktreeStatus};

fn empty_catalog() -> Catalog {
    parse_catalog("sample", "{}").unwrap()
}

fn catalogs() -> Catalogs {
    Catalogs {
        en_us: empty_catalog(),
        zh_cn: empty_catalog(),
        zh_cn_metadata: empty_catalog(),
        en_to_zh: empty_catalog(),
    }
}

fn usage(label: &str, registration: Registration, below: &str) -> WorktreeUsage {
    WorktreeUsage {
        kind: WorktreeKind::Fork,
        registration,
        label: label.to_string(),
        shown_bytes: Some("2.0 GB".to_string()),
        shown_age: Some("3d ago".to_string()),
        path: if below.is_empty() {
            "/home/u/.grok".to_string()
        } else {
            format!("/home/u/.grok/{below}")
        },
    }
}

fn report() -> DiskUsageReport {
    DiskUsageReport {
        grok_home: "/home/u/.grok".to_string(),
        home_label: "~/.grok".to_string(),
        top_level_dirs: vec![
            DirUsage { name: "worktrees".to_string(), shown_bytes: Some("4.0 GB".to_string()) },
            DirUsage { name: "logs".to_string(), shown_bytes: None },
        ],
        root_files: Amount { bytes: 0, shown: "0 B".to_string() },
        shown_total: "4.0 GB".to_string(),
        skips: Skips { unreadable_dirs: 0, unstatable_entries: 0, other_filesystem_dirs: 0 },
        unfollowed_dir_symlinks: 0,
        total_exceeds_volume_used: false,
        clones_share_storage: true,
        worktrees: vec![],
        worktrees_dominate: true,
        worktrees_outside_managed_roots: 0,
        registry: RegistryState::Read,
        registry_path: "/home/u/.grok/worktrees.db".to_string(),
    }
}

#[test]
fn a_home_without_worktrees() {
    let catalogs = catalogs();
    assert_eq!(
        print_report(english(&catalogs), &report()),
        "Disk usage for ~/.grok\n\
         \x20     4.0 GB  worktrees\n\
         \x20          -  logs\n\
         \x20     4.0 GB  total\n\
         \n\
         Worktrees\n\
         \x20 No worktrees found.\n"
    );
}

#[test]
fn a_home_with_worktrees() {
    let catalogs = catalogs();
    let mut report = report();
    report.root_files = Amount { bytes: 7, shown: "7 B".to_string() };
    let mut unmeasured = usage("a label far too long for its column", Registration::Unregistered, "b");
    unmeasured.shown_bytes = None;
    unmeasured.shown_age = None;
    unmeasured.path = "/elsewhere/b".to_string();
    report.worktrees = vec![
        usage("one", Registration::Registered(WorktreeStatus::Alive), "a"),
        unmeasured,
        usage("三", Registration::Registered(WorktreeStatus::Dead), ""),
    ];
    assert_eq!(
        print_report(english(&catalogs), &report),
        "Disk usage for ~/.grok\n\
         \x20     4.0 GB  worktrees\n\
         \x20          -  logs\n\
         \x20        7 B  (top-level files)\n\
         \x20     4.0 GB  total\n\
         \x20 Worktree clones share storage with their source, so the total can exceed real disk use.\n\
         \n\
         Worktrees\n\
         \x20       SIZE  TYPE             AGE        LABEL                    PATH\n\
         \x20     2.0 GB  fork             3d ago     one                      ~/.grok/a\n\
         \x20          -  untracked (fork) -          a label far too long for /elsewhere/b\n\
         \x20     2.0 GB  fork (dead)      3d ago     三                       ~/.grok\n\
         \n\
         To reclaim space, run `grok worktree gc --max-age 7d --dry-run`, then the same command without `--dry-run`. Without `--max-age`, gc expires nothing, and it keeps a worktree whose work it cannot find elsewhere, naming each one.\n\
         Untracked rows are not in the registry, so gc never visits them. Remove one with `grok worktree rm --dry-run <path>`, then without `--dry-run`.\n"
    );
}

#[test]
fn hints_follow_the_rows() {
    let catalogs = catalogs();
    let mut registered = report();
    registered.worktrees = vec![usage("a", Registration::Registered(WorktreeStatus::Alive), "a")];
    let text = print_report(english(&catalogs), &registered);
    assert!(text.contains("To reclaim space"));
    assert!(!text.contains("Untracked rows"));
    let mut unregistered = report();
    unregistered.worktrees = vec![usage("a", Registration::Unregistered, "a")];
    let text = print_report(english(&catalogs), &unregistered);
    assert!(!text.contains("To reclaim space"));
    assert!(text.contains("Untracked rows"));
    unregistered.worktrees_dominate = false;
    assert!(!print_report(english(&catalogs), &unregistered).contains("Untracked rows"));
}

#[test]
fn notes_come_in_singular_and_plural() {
    let catalogs = catalogs();
    let mut one = report();
    one.skips = Skips { unreadable_dirs: 1, unstatable_entries: 1, other_filesystem_dirs: 1 };
    one.unfollowed_dir_symlinks = 1;
    one.worktrees_outside_managed_roots = 1;
    let text = print_report(english(&catalogs), &one);
    for note in [
        "  1 directory could not be read; what is under it may be missing from the total. RUST_LOG=debug names it.\n",
        "  1 entry could not be read and is not counted.\n",
        "  1 directory is on another filesystem and is not counted, here or in any row.\n",
        "  1 top-level symlink to a directory is not followed, so its contents are missing from the total.\n",
        "  1 worktree outside the managed worktree dirs is not shown here.\n",
    ] {
        assert!(text.contains(note), "{note} in {text}");
    }
    let mut more = report();
    more.skips = Skips { unreadable_dirs: 2, unstatable_entries: 3, other_filesystem_dirs: 4 };
    more.unfollowed_dir_symlinks = 5;
    more.worktrees_outside_managed_roots = 6;
    let text = print_report(english(&catalogs), &more);
    for note in [
        "  2 directories could not be read; what is under them may be missing from the total. RUST_LOG=debug names them.\n",
        "  3 entries could not be read and are not counted.\n",
        "  4 directories are on another filesystem and are not counted, here or in any row.\n",
        "  5 top-level symlinks to directories are not followed, so their contents are missing from the total.\n",
        "  6 worktrees outside the managed worktree dirs are not shown here.\n",
    ] {
        assert!(text.contains(note), "{note} in {text}");
    }
}

#[test]
fn the_proven_note_stands_alone() {
    let catalogs = catalogs();
    let mut report = report();
    report.worktrees = vec![usage("a", Registration::Unregistered, "a")];
    report.total_exceeds_volume_used = true;
    let text = print_report(english(&catalogs), &report);
    assert!(text.contains("  Total exceeds the used space on this volume, so shared blocks are counted once per path.\n"));
    assert!(!text.contains("Worktree clones share storage"));
}

#[test]
fn the_registry_state_is_noted() {
    let catalogs = catalogs();
    let mut report = report();
    report.registry = RegistryState::Absent;
    assert!(!print_report(english(&catalogs), &report).contains("registry"));
    report.worktrees = vec![usage("a", Registration::Unregistered, "a")];
    assert!(print_report(english(&catalogs), &report)
        .contains("\n  Worktree registry not found; rows may show as untracked.\n"));
    report.registry = RegistryState::Busy;
    assert!(print_report(english(&catalogs), &report)
        .contains("    Worktree registry is in use by another process; rows show as untracked. Retry in a moment.\n"));
    report.registry = RegistryState::Unopenable;
    assert!(print_report(english(&catalogs), &report)
        .contains("    Worktree registry at ~/.grok/worktrees.db could not be opened; rows show as untracked. Check its permissions.\n"));
    report.registry = RegistryState::Corrupt;
    assert!(print_report(english(&catalogs), &report)
        .contains("    Worktree registry is damaged; rows show as untracked. Remove ~/.grok/worktrees.db and run `grok worktree db rebuild` to recreate it.\n"));
}

#[test]
fn a_missing_home() {
    let catalogs = catalogs();
    assert_eq!(
        print_missing_home(english(&catalogs), "~/.grok"),
        "Nothing on disk yet at ~/.grok.\n"
    );
}

#[test]
fn paths_are_abbreviated_by_what_is_left() {
    let rest = |s: &str| Some(s.to_string());
    assert_eq!(abbreviate_rest("/h/.grok", &rest(""), "~/.grok"), "~/.grok");
    assert_eq!(abbreviate_rest("/h/.grok/a/b", &rest("a/b"), "~/.grok"), "~/.grok/a/b");
    assert_eq!(abbreviate_rest("/other", &None, "~/.grok"), "/other");
}

#[test]
fn kind_cells_name_the_registration() {
    let catalogs = catalogs();
    let ctx = english(&catalogs);
    assert_eq!(kind_cell(ctx, &usage("", Registration::Unregistered, "")), "untracked (fork)");
    assert_eq!(
        kind_cell(ctx, &usage("", Registration::Registered(WorktreeStatus::Dead), "")),
        "fork (dead)"
    );
    assert_eq!(
        kind_cell(ctx, &usage("", Registration::Registered(WorktreeStatus::Alive), "")),
        "fork"
    );
}

#[test]
fn paths_are_taken_apart_by_their_parts() {
    for (path, home, shown) in [
        ("/h/.grok", "/h/.grok", "~/.grok"),
        ("/h/.grok/a/b", "/h/.grok", "~/.grok/a/b"),
        ("/h/.grok/a/b", "/h/.grok/", "~/.grok/a/b"),
        ("/h/.grokking", "/h/.grok", "/h/.grokking"),
        ("/h", "/h/.grok", "/h"),
        ("/h/.grok/../x", "/h/.grok", "~/.grok/../x"),
        ("/h/.grok/.a", "/h/.grok", "~/.grok/.a"),
        ("/other", "/h/.grok", "/other"),
        ("", "", "~/.grok"),
        ("rel", "rel", "~/.grok"),
    ] {
        assert_eq!(abbreviate(path, home, "~/.grok"), shown, "{path} below {home}");
    }
}

#[test]
fn a_report_is_rendered_with_what_is_left() {
    let catalogs = catalogs();
    let mut report = report();
    report.registry = RegistryState::Corrupt;
    report.worktrees = vec![usage("a", Registration::Unregistered, "a")];
    let text = render_report(
        english(&catalogs),
        &report,
        &vec![Some("x/y".to_string())],
        &None,
    );
    assert!(text.contains(" ~/.grok/x/y\n"), "{text}");
    assert!(text.contains("Remove /home/u/.grok/worktrees.db and run"), "{text}");
}
