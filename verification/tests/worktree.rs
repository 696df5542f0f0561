use grok_build::locale::{english, parse_catalog, Catalog, Catalogs, LocaleContext, UiLocale};
use grok_build::text::{cell, left_align, pad_to_width, push_cell, truncate_to_width};
use grok_build::worktree::{
    format_timestamp, kind_label, print_gc, print_rebuild, print_show, print_stats, print_table,
    status_label, timestamp_or_number, DbStats, GcReport, KeptWorktree, ListedWorktree,
    MeasuredSize, RebuildReport, WorktreeKind, WorktreeRecord, WorktreeStatus,
};

fn catalog(source: &str) -> Catalog {
    parse_catalog("sample", source).unwrap()
}

fn catalogs() -> Catalogs {
    Catalogs {
        en_us: catalog("{}"),
        zh_cn: catalog("{}"),
        zh_cn_metadata: catalog(
            r#"{"du.kind.session": "会话", "worktree.status.dead": "已失效",
                "worktree.column.type": "类型"}"#,
        ),
        en_to_zh: catalog("{}"),
    }
}

fn record(id: &str, label: Option<&str>) -> WorktreeRecord {
    WorktreeRecord {
        id: id.to_string(),
        path: format!("/tmp/wt-{id}"),
        source_repo: "/src/repo".to_string(),
        repo_name: "repository".to_string(),
        kind: WorktreeKind::Session,
        creation_mode: "copy".to_string(),
        git_ref: None,
        head_commit: None,
        created_at: 0,
        last_accessed_at: None,
        session_id: None,
        creator_pid: None,
        status: WorktreeStatus::Alive,
        label: label.map(str::to_string),
    }
}

fn listed(id: &str, label: &str) -> ListedWorktree {
    ListedWorktree {
        record: record(id, Some(label)),
        age: "2d ago".to_string(),
        shown_path: format!("/tmp/wt-{id}"),
    }
}

fn columns_before(line: &str, part: &str) -> usize {
    let at = line.find(part).unwrap();
    unicode_width::UnicodeWidthStr::width(&line[..at])
}

#[test]
fn print_table_never_truncates_long_ids() {
    let catalogs = catalogs();
    let long_id = "a".repeat(40);
    let text = print_table(english(&catalogs), &vec![listed(&long_id, "lbl")]);
    assert!(text.contains(&long_id), "full ID must be present: {text}");
}

#[test]
fn print_show_non_nfs_omits_nfs_block() {
    let catalogs = catalogs();
    let text = print_show(english(&catalogs), &record("wt-copy", Some("c")), &None);
    assert!(!text.contains("Strategy:       nfs"), "{text}");
    assert!(!text.contains("clean-artifacts"), "{text}");
}

#[test]
fn print_table_pads_cjk_labels_by_display_width() {
    let catalogs = catalogs();
    let records = vec![listed("wt-cjk", "组件更新"), listed("wt-ascii", "plain-label")];
    let text = print_table(english(&catalogs), &records);
    assert!(text.contains("组件更新"));
    let lines: Vec<&str> = text.lines().collect();
    assert_eq!(columns_before(lines[1], "/tmp/wt-"), columns_before(lines[2], "/tmp/wt-"));
    assert_eq!(columns_before(lines[0], "PATH"), columns_before(lines[1], "/tmp/wt-"));
}

#[test]
fn the_table_has_a_header_rows_and_a_summary() {
    let catalogs = catalogs();
    let mut fork = listed("b", "a label that is much longer than the column");
    fork.record.kind = WorktreeKind::Fork;
    fork.record.git_ref = Some("main".to_string());
    let mut unlabelled = listed("c", "");
    unlabelled.record.label = None;
    let text = print_table(english(&catalogs), &vec![listed("a", "x"), fork, unlabelled]);
    assert_eq!(
        text,
        "  ID               TYPE    REPO   LABEL                    BRANCH               AGE        PATH\n\
         \x20 a                session reposi x                        (detached)           2d ago     /tmp/wt-a\n\
         \x20 b                fork    reposi a label that is much lon main                 2d ago     /tmp/wt-b\n\
         \x20 c                session reposi                          (detached)           2d ago     /tmp/wt-c\n\
         \x20 3 worktrees (1 fork, 2 session)\n"
    );
}

#[test]
fn an_empty_table_says_so() {
    let catalogs = catalogs();
    assert_eq!(print_table(english(&catalogs), &vec![]), "No worktrees found.\n");
}

#[test]
fn kinds_and_statuses_are_translated() {
    let catalogs = catalogs();
    let zh = LocaleContext::new(UiLocale::ZhCn, &catalogs);
    assert_eq!(kind_label(zh, WorktreeKind::Session), "会话");
    assert_eq!(kind_label(zh, WorktreeKind::Ab), "ab");
    assert_eq!(status_label(zh, WorktreeStatus::Dead), "已失效");
    assert_eq!(status_label(english(&catalogs), WorktreeStatus::Dead), "dead");
}

#[test]
fn everything_known_of_a_record_is_shown() {
    let catalogs = catalogs();
    let mut rec = record("id-1", Some("feature"));
    rec.git_ref = Some("main".to_string());
    rec.head_commit = Some("0123456789abcdef".to_string());
    rec.created_at = 1_700_000_000;
    rec.last_accessed_at = Some(1_700_000_060);
    rec.session_id = Some("s-1".to_string());
    rec.creator_pid = Some(4242);
    let size = Some(MeasuredSize { shown_bytes: "1.5 MB".to_string(), skipped: 3 });
    assert_eq!(
        print_show(english(&catalogs), &rec, &size),
        "  Path:           /tmp/wt-id-1\n\
         \x20 ID:             id-1\n\
         \x20 Type:           session\n\
         \x20 Source Repo:    /src/repo\n\
         \x20 Creation Mode:  copy\n\
         \x20 Git Ref:        main\n\
         \x20 HEAD:           0123456789ab\n\
         \x20 Created:        2023-11-14 22:13:20 UTC\n\
         \x20 Last Accessed:  2023-11-14 22:14:20 UTC\n\
         \x20 Session ID:     s-1\n\
         \x20 Creator PID:    4242\n\
         \x20 Status:         alive\n\
         \x20 Label:          feature\n\
         \x20 Disk Usage:     1.5 MB (3 entries skipped)\n"
    );
}

#[test]
fn a_measurement_without_skips_ends_after_the_size() {
    let catalogs = catalogs();
    let size = Some(MeasuredSize { shown_bytes: "0 B".to_string(), skipped: 0 });
    let text = print_show(english(&catalogs), &record("x", None), &size);
    assert!(text.ends_with("  Status:         alive\n  Disk Usage:     0 B\n"), "{text}");
}

#[test]
fn timestamps_outside_the_calendar_are_numbers() {
    assert_eq!(format_timestamp(0), "1970-01-01 00:00:00 UTC");
    assert_eq!(format_timestamp(i64::MAX), i64::MAX.to_string());
    assert_eq!(format_timestamp(i64::MIN), i64::MIN.to_string());
    assert_eq!(timestamp_or_number(-5, None), "-5");
    assert_eq!(timestamp_or_number(5, Some("then".to_string())), "then");
}

#[test]
fn statistics_and_rebuild_reports() {
    let catalogs = catalogs();
    let stats = DbStats {
        total_records: 12,
        alive_count: 10,
        dead_count: 2,
        shown_db_size: "4.0 KB".to_string(),
    };
    assert_eq!(
        print_stats(english(&catalogs), &stats),
        "Worktree DB Statistics\n======================\n  Total records:  12\n  Alive:          10\n  Dead:           2\n  DB size:        4.0 KB\n"
    );
    let report = RebuildReport { discovered: 3, registered: 1, already_tracked: 2 };
    assert_eq!(
        print_rebuild(english(&catalogs), &report),
        "Rebuild report:\n  Discovered:      3\n  Registered:      1\n  Already tracked: 2\n"
    );
}

fn gc_report() -> GcReport {
    GcReport {
        dead_removed: 1,
        expired_removed: 0,
        no_repo_paths: 0,
        skipped_alive: 2,
        never_expiring: 0,
        kept_unsafe: 0,
        kept_reasons: vec![],
        kept: vec![],
        names_collected: 0,
        not_judged: 0,
        unnamed: 0,
        remove_failed: 0,
    }
}

#[test]
fn a_quiet_collection_has_three_lines() {
    let catalogs = catalogs();
    assert_eq!(
        print_gc(english(&catalogs), &gc_report()),
        "GC report:\n  Dead records removed:      1\n  Expired worktrees removed: 0\n  Skipped (guarded):         2\n"
    );
}

#[test]
fn a_busy_collection_names_what_it_kept() {
    let catalogs = catalogs();
    let mut report = gc_report();
    report.no_repo_paths = 1;
    report.never_expiring = 4;
    report.kept_unsafe = 25;
    report.kept_reasons = vec![("dirty".to_string(), 20), ("unpushed".to_string(), 5)];
    report.kept = (0..22)
        .map(|i| KeptWorktree { path: format!("/w/{i}"), reason: "dirty".to_string() })
        .collect();
    report.names_collected = 6;
    report.not_judged = 7;
    report.unnamed = 8;
    report.remove_failed = 9;
    let mut expected = String::from(
        "GC report:\n  Dead records removed:      1\n  Expired worktrees removed: 0\n  Non-repository paths:      1\n  Skipped (guarded):         2\n  Kept (never expires):      4\n  Kept (not reclaimable):    25\n    dirty: 20\n    unpushed: 5\n",
    );
    for i in 0..20 {
        expected.push_str(&format!("      /w/{i}  (dirty)\n"));
    }
    expected.push_str("      and 5 more, named in the log\n  Reclaimed names dropped:   6\n  Not judged this pass:      7\n  Naming failed (kept):      8\n  Removal failures:          9\n");
    assert_eq!(print_gc(english(&catalogs), &report), expected);
}

#[test]
fn cells_take_exactly_their_width() {
    assert_eq!(cell("abc", 5), "abc  ");
    assert_eq!(cell("abcdef", 4), "abcd");
    assert_eq!(cell("组件更新", 5), "组件 ");
    assert_eq!(cell("", 2), "  ");
    assert_eq!(truncate_to_width("组件", 1), "");
    assert_eq!(pad_to_width("组件", 3), "组件");
    assert_eq!(pad_to_width("组", 4), "组  ");
}

#[test]
fn paths_start_at_one_column() {
    let catalogs = catalogs();
    let zh = LocaleContext::new(UiLocale::ZhCn, &catalogs);
    let mut first = listed("组件-1", "标签👩‍💻");
    first.age = "now".to_string();
    first.record.git_ref = Some("分支/é\u{301}".to_string());
    let mut second = listed("b", "a very long label, longer than its column");
    second.record.kind = WorktreeKind::Subagent;
    second.record.repo_name = "仓库仓库仓库".to_string();
    let text = print_table(zh, &vec![first, second]);
    let lines: Vec<&str> = text.lines().collect();
    assert_eq!(columns_before(lines[1], "/tmp/wt-"), columns_before(lines[2], "/tmp/wt-"));
    assert_eq!(columns_before(lines[1], "/tmp/wt-"), 2 + 16 + 1 + 8 + 1 + 6 + 1 + 24 + 1 + 20 + 1 + 10 + 1);
}

#[test]
fn widths_add_up_over_a_space() {
    let width = |s: &str| unicode_width::UnicodeWidthStr::width(s);
    for left in ["", "a", "组", "1", "👩‍", "لا", "é\u{301}", "#"] {
        for right in ["", "b", "\u{fe0f}", "\u{301}x", "\u{200d}👩", "件"] {
            let mut line = left.to_string();
            push_cell(&mut line, right);
            assert_eq!(line, format!("{left} {right}"));
            assert_eq!(width(&line), width(left) + 1 + width(right), "{left:?} {right:?}");
        }
    }
    assert_eq!(width(&left_align("2d ago", 10)), 10);
    assert_eq!(width(&left_align("é…", 10)), 10);
    assert_eq!(left_align("天前", 4), "天前  ");
}
