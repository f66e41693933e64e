use git_gui::branch::{
    utf8_tag_names, annotated_type_label, branch_info, conflict_paths, is_checked_out, lightweight_type_label,
    merge_message, merge_plan, rebase_outcome, report_counts, tag_refname, MergePlan,
};
use git_gui::commit::{
    added_files_of, changed_files_of, ChangedEntry, added_file_of_entry, changed_file_of_delta, commit_identity, summarize, with_detail, CommitFacts,
};
use git_gui::git::{status_contains, StatusFlag, DeltaKind, ObjectKind, PatchLine, StatusRecord};
use git_gui::git_ops::{relative_path, choose_patch, repo_status_query, reported_counts, commit_info, file_status, file_statuses, label_for, marker_for, render_patch};
use git_gui::log::{
    offer_to_page, path_changed, branch_names_at, branch_refname, build_graph, commit_matches_search, lowered_texts_match, remote_refname,
    select_commit_log, BranchTip, GraphInput, LogOptions,
};
use git_gui::repo::head_summary;
use git_gui::state::AppState;
use git_gui::status::{working_status_query, classify_statuses, delta_to_status_type, to_system_path, StatusType};
use git_gui::text::{
    contains_nul,
    contains_str, ends_with_char, normalize_path, starts_with_str, str_eq, trim_start_matches_str,
};
use git_gui::watch::{is_ignored_change, is_ignored_extension, is_ignored_path};

fn facts(oid: &str, message: Option<&str>, name: Option<&str>, email: Option<&str>, time: i64, parents: &[&str]) -> CommitFacts {
    CommitFacts {
        oid: oid.to_string(),
        message: message.map(|s| s.to_string()),
        author_name: name.map(|s| s.to_string()),
        author_email: email.map(|s| s.to_string()),
        committer_name: name.map(|s| s.to_string()),
        committer_email: email.map(|s| s.to_string()),
        time,
        parents: parents.iter().map(|s| s.to_string()).collect(),
    }
}

fn record(path: Option<&str>, bits: u32, h2i: Option<&str>, i2w: Option<&str>) -> StatusRecord {
    StatusRecord {
        path: path.map(|s| s.to_string()),
        bits,
        head_to_index_new_path: h2i.map(|s| s.to_string()),
        index_to_workdir_old_path: i2w.map(|s| s.to_string()),
    }
}

// ---------------------------------------------------------------- text

#[test]
fn normalize_path_turns_backslashes_into_slashes() {
    assert_eq!(normalize_path("src\\commands\\status.rs"), "src/commands/status.rs");
    assert_eq!(normalize_path("already/forward"), "already/forward");
    assert_eq!(normalize_path(""), "");
    assert_eq!(normalize_path("\\\\"), "//");
}

#[test]
fn normalize_path_is_idempotent() {
    let once = normalize_path("a\\b/c\\d");
    assert_eq!(normalize_path(&once), once);
}

#[test]
fn substring_search() {
    assert!(contains_str("hello world", "lo w"));
    assert!(contains_str("hello", ""));
    assert!(contains_str("", ""));
    assert!(!contains_str("he", "hello"));
    assert!(!contains_str("hello", "hex"));
    assert!(contains_str("hello", "hello"));
    assert!(contains_str("ééa", "éa"));
}

#[test]
fn prefixes_and_suffixes() {
    assert!(starts_with_str("refs/heads/main", "refs/"));
    assert!(!starts_with_str("ref", "refs/"));
    assert!(ends_with_char("dir/", '/'));
    assert!(!ends_with_char("", '/'));
    assert!(str_eq("abc", "abc"));
    assert!(!str_eq("abc", "abd"));
    assert!(!str_eq("abc", "ab"));
}

#[test]
fn trim_start_matches_removes_every_leading_copy() {
    assert_eq!(trim_start_matches_str("refs/heads/refs/heads/x", "refs/heads/"), "x");
    assert_eq!(trim_start_matches_str("main", "refs/heads/"), "main");
    assert_eq!(trim_start_matches_str("refs/heads/", "refs/heads/"), "");
    assert_eq!(trim_start_matches_str("abc", ""), "abc");
}

// ---------------------------------------------------------------- status

#[test]
fn delta_to_status_type_priorities() {
    assert_eq!(delta_to_status_type(0x8000 | 0x1), StatusType::Conflicted);
    assert_eq!(delta_to_status_type(0x8 | 0x4), StatusType::Renamed);
    assert_eq!(delta_to_status_type(0x10), StatusType::TypeChange);
    assert_eq!(delta_to_status_type(0x400 | 0x1), StatusType::TypeChange);
    assert_eq!(delta_to_status_type(0x4), StatusType::Deleted);
    assert_eq!(delta_to_status_type(0x200 | 0x80), StatusType::Deleted);
    assert_eq!(delta_to_status_type(0x1), StatusType::Added);
    assert_eq!(delta_to_status_type(0x80), StatusType::Added);
    assert_eq!(delta_to_status_type(0x2), StatusType::Modified);
    assert_eq!(delta_to_status_type(0x100), StatusType::Modified);
    assert_eq!(delta_to_status_type(0), StatusType::Modified);
}

#[test]
fn classify_statuses_sorts_entries() {
    let records = vec![
        record(Some("new.txt"), 0x80, None, None),
        record(Some("a\\b.txt"), 0x2, None, None),
        record(Some("both.txt"), 0x2 | 0x100, None, None),
        record(Some("dir/"), 0x80, None, None),
        record(None, 0x2, None, None),
        record(Some("renamed.txt"), 0x8, Some("renamed.txt"), None),
        record(Some("gone.txt"), 0x200, None, Some("gone.txt")),
        record(Some("ignored-kind.txt"), 0x4000, None, None),
    ];
    let ws = classify_statuses(&records);
    assert_eq!(ws.untracked.len(), 1);
    assert_eq!(ws.untracked[0].path, "new.txt");
    assert_eq!(ws.untracked[0].status_type, StatusType::Added);
    assert!(ws.untracked[0].old_path.is_none());

    let staged: Vec<&str> = ws.staged.iter().map(|f| f.path.as_str()).collect();
    assert_eq!(staged, vec!["a/b.txt", "both.txt", "renamed.txt"]);
    assert_eq!(ws.staged[0].status_type, StatusType::Modified);
    assert_eq!(ws.staged[2].status_type, StatusType::Renamed);
    assert_eq!(ws.staged[2].old_path.as_deref(), Some("renamed.txt"));

    let unstaged: Vec<&str> = ws.unstaged.iter().map(|f| f.path.as_str()).collect();
    assert_eq!(unstaged, vec!["both.txt", "gone.txt"]);
    assert_eq!(ws.unstaged[1].status_type, StatusType::Deleted);
    assert_eq!(ws.unstaged[1].old_path.as_deref(), Some("gone.txt"));
}

#[test]
fn classify_statuses_of_nothing_is_empty() {
    let ws = classify_statuses(&Vec::new());
    assert!(ws.staged.is_empty() && ws.unstaged.is_empty() && ws.untracked.is_empty());
}

#[test]
fn system_paths_use_the_separator() {
    assert_eq!(to_system_path("a/b/c", '\\'), "a\\b\\c");
    assert_eq!(to_system_path("a/b/c", '/'), "a/b/c");
}

#[test]
fn system_path_round_trip_gives_back_the_reported_path() {
    for sep in ['/', '\\'] {
        let reported = normalize_path("dir\\sub/file.txt");
        let system = to_system_path(&reported, sep);
        assert_eq!(normalize_path(&system), reported);
    }
}

#[test]
fn default_state_has_no_repository() {
    let s = AppState::default();
    assert!(s.current_repo_path.is_none());
}

// ---------------------------------------------------------------- log

fn history() -> Vec<CommitFacts> {
    vec![
        facts("c5", Some("Fix parser bug"), Some("Alice"), Some("alice@example.com"), 50, &["c4"]),
        facts("c4", Some("add feature"), Some("Bob"), Some("bob@EXAMPLE.org"), 40, &["c3"]),
        facts("c3", None, None, None, 30, &["c2"]),
        facts("c2", Some("refactor"), Some("Carol"), Some("carol@example.com"), 20, &["c1"]),
        facts("c1", Some("initial"), Some("Alice"), Some("alice@example.com"), 10, &[]),
    ]
}

fn options(limit: usize, offset: usize, search: Option<&str>) -> LogOptions {
    LogOptions { branch: None, path_filter: None, limit, offset, search: search.map(|s| s.to_string()) }
}

fn oids(v: &[git_gui::commit::CommitSummary]) -> Vec<String> {
    v.iter().map(|s| s.oid.clone()).collect()
}

#[test]
fn commit_log_pages_without_search() {
    let h = history();
    assert_eq!(oids(&select_commit_log(&h, &options(2, 0, None))), vec!["c5", "c4"]);
    assert_eq!(oids(&select_commit_log(&h, &options(2, 2, None))), vec!["c3", "c2"]);
    assert_eq!(oids(&select_commit_log(&h, &options(2, 4, None))), vec!["c1"]);
    assert!(select_commit_log(&h, &options(2, 9, None)).is_empty());
    assert_eq!(oids(&select_commit_log(&h, &options(200, 0, None))).len(), 5);
}

#[test]
fn commit_log_limit_zero_still_returns_one_commit() {
    let h = history();
    assert_eq!(oids(&select_commit_log(&h, &options(0, 0, None))), vec!["c5"]);
    assert_eq!(oids(&select_commit_log(&h, &options(0, 3, None))), vec!["c2"]);
}

#[test]
fn commit_log_search_is_case_insensitive() {
    let h = history();
    assert_eq!(oids(&select_commit_log(&h, &options(10, 0, Some("FIX")))), vec!["c5"]);
    assert_eq!(oids(&select_commit_log(&h, &options(10, 0, Some("alice")))), vec!["c5", "c1"]);
    assert_eq!(oids(&select_commit_log(&h, &options(10, 0, Some("example.org")))), vec!["c4"]);
    assert!(select_commit_log(&h, &options(10, 0, Some("nobody"))).is_empty());
}

#[test]
fn commit_log_offset_counts_commits_before_the_search() {
    let h = history();
    // The first commit is skipped before the search looks at it.
    assert_eq!(oids(&select_commit_log(&h, &options(10, 1, Some("alice")))), vec!["c1"]);
    assert_eq!(oids(&select_commit_log(&h, &options(1, 0, Some("a")))), vec!["c5"]);
}

#[test]
fn commit_log_empty_search_matches_everything() {
    let h = history();
    assert_eq!(select_commit_log(&h, &options(10, 0, Some(""))).len(), 5);
}

#[test]
fn commit_log_summaries_fill_missing_parts_with_empty_text() {
    let h = history();
    let page = select_commit_log(&h, &options(1, 2, None));
    assert_eq!(page[0].oid, "c3");
    assert_eq!(page[0].message, "");
    assert_eq!(page[0].author.name, "");
    assert_eq!(page[0].author.email, "");
    assert_eq!(page[0].timestamp, 30);
}

#[test]
fn consecutive_pages_make_up_a_larger_page() {
    let h = history();
    let mut two_pages = oids(&select_commit_log(&h, &options(2, 0, None)));
    two_pages.extend(oids(&select_commit_log(&h, &options(3, 2, None))));
    assert_eq!(two_pages, oids(&select_commit_log(&h, &options(5, 0, None))));
}

#[test]
fn search_matching_per_field() {
    let f = facts("x", Some("Hello World"), Some("Zoë"), Some("z@x.io"), 0, &[]);
    assert!(commit_matches_search(&f, "WORLD"));
    assert!(commit_matches_search(&f, "zoë"));
    assert!(commit_matches_search(&f, "X.IO"));
    assert!(!commit_matches_search(&f, "planet"));
}

#[test]
fn branch_refnames() {
    assert_eq!(branch_refname("main"), "refs/heads/main");
    assert_eq!(branch_refname("refs/tags/v1"), "refs/tags/v1");
    assert_eq!(remote_refname("main"), "refs/remotes/origin/main");
}

#[test]
fn branch_labels_at_a_commit() {
    let tips = vec![
        BranchTip { name: Some("main".to_string()), target: Some("c5".to_string()) },
        BranchTip { name: Some("refs/heads/topic".to_string()), target: Some("c5".to_string()) },
        BranchTip { name: None, target: Some("c5".to_string()) },
        BranchTip { name: Some("old".to_string()), target: Some("c1".to_string()) },
        BranchTip { name: Some("symbolic".to_string()), target: None },
    ];
    assert_eq!(branch_names_at(&tips, "c5"), vec!["main", "topic", "unknown"]);
    assert_eq!(branch_names_at(&tips, "c1"), vec!["old"]);
    assert!(branch_names_at(&tips, "c9").is_empty());
}

fn graph_input(f: &CommitFacts, branches: &[&str]) -> GraphInput {
    GraphInput {
        summary: summarize(f),
        branches: branches.iter().map(|s| s.to_string()).collect(),
        parents: f.parents.clone(),
    }
}

#[test]
fn graph_newest_first_history_opens_a_lane_per_commit() {
    let h = history();
    let inputs: Vec<GraphInput> = h.iter().map(|f| graph_input(f, &[])).collect();
    let g = build_graph(&inputs);
    let lanes: Vec<usize> = g.commits.iter().map(|c| c.lane).collect();
    assert_eq!(lanes, vec![0, 1, 2, 3, 4]);
    // c5 -> c4: c4 is not placed yet when c5's edge is drawn.
    assert_eq!(g.commits[0].connections.len(), 1);
    assert_eq!(g.commits[0].connections[0].to_oid, "c4");
    assert_eq!(g.commits[0].connections[0].from_lane, 0);
    assert_eq!(g.commits[0].connections[0].to_lane, 0);
    assert!(g.commits[4].connections.is_empty());
}

#[test]
fn graph_continues_lanes_of_placed_parents() {
    let c1 = facts("c1", Some("root"), Some("a"), Some("a@x"), 1, &[]);
    let c2 = facts("c2", Some("second"), Some("a"), Some("a@x"), 2, &["c1"]);
    let c3 = facts("c3", Some("side"), Some("b"), Some("b@x"), 3, &["c1"]);
    let m = facts("m", Some("merge"), Some("a"), Some("a@x"), 4, &["c2", "c3"]);
    let inputs = vec![graph_input(&c1, &[]), graph_input(&c2, &["main"]), graph_input(&c3, &["side"]), graph_input(&m, &[])];
    let g = build_graph(&inputs);
    let lanes: Vec<usize> = g.commits.iter().map(|c| c.lane).collect();
    assert_eq!(lanes, vec![0, 0, 0, 0]);
    assert_eq!(g.commits[1].branches, vec!["main"]);
    assert_eq!(g.commits[3].connections.len(), 2);
    assert_eq!(g.commits[3].connections[1].to_oid, "c3");
    assert_eq!(g.commits[3].connections[1].to_lane, 0);
    assert_eq!(g.commits[3].summary.message, "merge");
}

#[test]
fn graph_new_line_of_history_gets_a_new_lane() {
    let a = facts("a", None, None, None, 1, &[]);
    let b = facts("b", None, None, None, 2, &["a"]);
    let x = facts("x", None, None, None, 3, &["unknown-parent"]);
    let y = facts("y", None, None, None, 4, &["x", "b"]);
    let inputs = vec![graph_input(&a, &[]), graph_input(&b, &[]), graph_input(&x, &[]), graph_input(&y, &[])];
    let g = build_graph(&inputs);
    let lanes: Vec<usize> = g.commits.iter().map(|c| c.lane).collect();
    assert_eq!(lanes, vec![0, 0, 1, 1]);
    assert_eq!(g.commits[2].connections[0].to_lane, 1);
    assert_eq!(g.commits[3].connections[1].to_oid, "b");
    assert_eq!(g.commits[3].connections[1].from_lane, 1);
    assert_eq!(g.commits[3].connections[1].to_lane, 0);
}

#[test]
fn graph_of_nothing_is_empty() {
    assert!(build_graph(&Vec::new()).commits.is_empty());
}

// ---------------------------------------------------------------- git_ops

#[test]
fn commit_info_defaults() {
    let f = facts("abc", None, None, None, 7, &[]);
    let info = commit_info(&f);
    assert_eq!(info.id, "abc");
    assert_eq!(info.message, "");
    assert_eq!(info.author, "Unknown");
    assert_eq!(info.email, "");
    assert_eq!(info.timestamp, 7);
}

#[test]
fn status_labels() {
    assert_eq!(label_for(0x80), "untracked");
    assert_eq!(label_for(0x80 | 0x1), "untracked");
    assert_eq!(label_for(0x1), "staged");
    assert_eq!(label_for(0x100 | 0x2), "modified");
    assert_eq!(label_for(0x2), "staged");
    assert_eq!(label_for(0x200), "deleted");
    assert_eq!(label_for(0x4), "staged");
    assert_eq!(label_for(0x8), "changed");
    assert_eq!(label_for(0), "changed");
}

#[test]
fn file_status_entries() {
    let f = file_status(&record(None, 0x100 | 0x2, None, None));
    assert_eq!(f.path, "unknown");
    assert_eq!(f.status, "modified");
    assert!(f.staged);
    let all = file_statuses(&vec![record(Some("a"), 0x80, None, None), record(Some("b\\c"), 0x4, None, None)]);
    assert_eq!(all.len(), 2);
    assert_eq!(all[0].status, "untracked");
    assert!(!all[0].staged);
    assert_eq!(all[1].path, "b\\c");
    assert_eq!(all[1].status, "staged");
    assert!(all[1].staged);
}

#[test]
fn patch_rendering() {
    assert_eq!(marker_for('+'), "+");
    assert_eq!(marker_for('>'), "+");
    assert_eq!(marker_for('B'), "+");
    assert_eq!(marker_for('-'), "-");
    assert_eq!(marker_for('<'), "-");
    assert_eq!(marker_for(' '), " ");
    assert_eq!(marker_for('='), " ");
    assert_eq!(marker_for('|'), " ");
    assert_eq!(marker_for('F'), "");
    assert_eq!(marker_for('H'), "");
    let lines = vec![
        PatchLine { origin: 'F', content: "diff --git a/x b/x\n".to_string() },
        PatchLine { origin: 'H', content: "@@ -1 +1 @@\n".to_string() },
        PatchLine { origin: '-', content: "old\n".to_string() },
        PatchLine { origin: '+', content: "new".to_string() },
        PatchLine { origin: ' ', content: "".to_string() },
    ];
    assert_eq!(render_patch(&lines), "diff --git a/x b/x\n@@ -1 +1 @@\n-old\n+new\n \n");
    assert_eq!(render_patch(&Vec::new()), "");
}

// ---------------------------------------------------------------- branch

#[test]
fn merge_plans() {
    assert_eq!(merge_plan("a", "a", "a"), MergePlan::UpToDate);
    assert_eq!(merge_plan("a", "b", "a"), MergePlan::FastForward);
    assert_eq!(merge_plan("a", "b", "c"), MergePlan::Merge);
    assert_eq!(merge_plan("a", "b", "b"), MergePlan::Merge);
    assert_eq!(merge_message("topic"), "Merge branch 'topic'");
}

#[test]
fn conflict_paths_keep_named_utf8_paths() {
    let ours = vec![Some(b"src/a.rs".to_vec()), Some(Vec::new()), None, Some(vec![0xff, 0xfe]), Some("ü.txt".as_bytes().to_vec())];
    assert_eq!(conflict_paths(&ours), vec!["src/a.rs", "ü.txt"]);
}

#[test]
fn ahead_behind_counts() {
    assert_eq!(report_counts(Some((3, 1))), (3, 1));
    assert_eq!(report_counts(None), (0, 0));
    assert_eq!(report_counts(Some((usize::MAX, 0))), (-1, 0));
}

#[test]
fn tag_type_labels() {
    assert_eq!(annotated_type_label(Some(ObjectKind::Commit)), "commit");
    assert_eq!(annotated_type_label(Some(ObjectKind::Tag)), "tag");
    assert_eq!(annotated_type_label(Some(ObjectKind::Any)), "unknown");
    assert_eq!(annotated_type_label(None), "unknown");
    assert_eq!(lightweight_type_label(Some(ObjectKind::Blob)), "blob");
    assert_eq!(lightweight_type_label(Some(ObjectKind::Tree)), "tree");
    assert_eq!(lightweight_type_label(Some(ObjectKind::Tag)), "unknown");
    assert_eq!(tag_refname("v1.0"), "refs/tags/v1.0");
}

#[test]
fn checked_out_branch_detection() {
    assert!(is_checked_out(&Some("main".to_string()), "main"));
    assert!(!is_checked_out(&Some("main".to_string()), "topic"));
    assert!(!is_checked_out(&None, "main"));
}

#[test]
fn rebase_outcomes() {
    let ok = rebase_outcome(3, None);
    assert!(ok.success && ok.commits_rebased == 3 && ok.error_message.is_none());
    let failed = rebase_outcome(1, Some("conflict".to_string()));
    assert!(!failed.success);
    assert_eq!(failed.commits_rebased, 1);
    assert_eq!(failed.error_message.as_deref(), Some("conflict"));
}

#[test]
fn branch_info_without_a_commit() {
    let info = branch_info(&None, &Some("origin/main".to_string()), (2, 0), &None);
    assert_eq!(info.name, "unknown");
    assert_eq!(info.upstream.as_deref(), Some("origin/main"));
    assert_eq!((info.ahead, info.behind), (2, 0));
    assert_eq!(info.last_commit.oid, "");
    assert_eq!(info.last_commit.author, "");
    assert_eq!(info.last_commit.timestamp, 0);
    let f = facts("abc", Some("msg"), None, None, 5, &[]);
    let info = branch_info(&Some("main".to_string()), &None, (0, 0), &Some(f));
    assert_eq!(info.last_commit.author, "Unknown");
    assert_eq!(info.last_commit.message, "msg");
}

// ---------------------------------------------------------------- commit / repo

#[test]
fn commit_summaries_and_details() {
    let f = facts("abc", Some("m"), Some("n"), None, 9, &["p"]);
    let s = summarize(&f);
    assert_eq!((s.oid.as_str(), s.message.as_str(), s.author.name.as_str(), s.author.email.as_str(), s.timestamp), ("abc", "m", "n", "", 9));
    let h = head_summary(&facts("abc", None, None, None, 1, &[]));
    assert_eq!(h.author, "Unknown");
    assert_eq!(h.message, "");
}

#[test]
fn changed_file_kinds() {
    assert_eq!(changed_file_of_delta(DeltaKind::Added, &Some("a".to_string())).status_type, StatusType::Added);
    assert_eq!(changed_file_of_delta(DeltaKind::Deleted, &None).status_type, StatusType::Deleted);
    assert_eq!(changed_file_of_delta(DeltaKind::Deleted, &None).path, "unknown");
    assert_eq!(changed_file_of_delta(DeltaKind::Renamed, &None).status_type, StatusType::Renamed);
    assert_eq!(changed_file_of_delta(DeltaKind::Typechange, &None).status_type, StatusType::Modified);
    assert_eq!(changed_file_of_delta(DeltaKind::Copied, &None).status_type, StatusType::Modified);
    let added = added_file_of_entry(&None);
    assert_eq!(added.path, "unknown");
    assert_eq!(added.status_type, StatusType::Added);
    assert!(added.old_path.is_none());
}

#[test]
fn commit_identity_defaults() {
    assert_eq!(commit_identity(None, None), ("Unknown".to_string(), "unknown@example.com".to_string()));
    assert_eq!(commit_identity(Some("Ann".to_string()), None), ("Ann".to_string(), "unknown@example.com".to_string()));
    assert_eq!(with_detail("Failed to open repository", "not found"), "Failed to open repository: not found");
}

// ---------------------------------------------------------------- watcher

#[test]
fn watcher_ignores_git_data_and_temporary_files() {
    assert!(is_ignored_path("/repo/.git/index"));
    assert!(is_ignored_path("/repo/.gitignore"));
    assert!(is_ignored_path("/repo/notes.swp"));
    assert!(is_ignored_path("/repo/build.tmp"));
    assert!(!is_ignored_path("/repo/src/main.rs"));
    assert!(!is_ignored_path("/repo/swp"));
    assert!(is_ignored_change(&vec!["/repo/a.rs".to_string(), "/repo/.git/HEAD".to_string()]));
    assert!(!is_ignored_change(&vec!["/repo/a.rs".to_string(), "/repo/b.txt".to_string()]));
    assert!(!is_ignored_change(&Vec::new()));
}

#[test]
fn lowered_texts_match_any_field() {
    assert!(lowered_texts_match("fix the parser", "alice", "alice@example.com", "parser"));
    assert!(lowered_texts_match("", "bob", "", "bo"));
    assert!(lowered_texts_match("", "", "carol@example.org", ".org"));
    assert!(!lowered_texts_match("fix", "alice", "a@b", "zzz"));
    assert!(lowered_texts_match("", "", "", ""));
}

#[test]
fn ignored_extensions() {
    assert!(is_ignored_extension(&Some("swp".to_string())));
    assert!(is_ignored_extension(&Some("tmp".to_string())));
    assert!(!is_ignored_extension(&Some("rs".to_string())));
    assert!(!is_ignored_extension(&Some("SWP".to_string())));
    assert!(!is_ignored_extension(&None));
}

#[test]
fn changed_files_follow_the_diff_in_order() {
    let entries = vec![
        ChangedEntry { kind: DeltaKind::Added, new_path: Some("a.txt".to_string()) },
        ChangedEntry { kind: DeltaKind::Typechange, new_path: Some("b".to_string()) },
        ChangedEntry { kind: DeltaKind::Renamed, new_path: None },
        ChangedEntry { kind: DeltaKind::Deleted, new_path: Some("d".to_string()) },
    ];
    let files = changed_files_of(&entries);
    let got: Vec<(String, StatusType)> = files.iter().map(|f| (f.path.clone(), f.status_type)).collect();
    assert_eq!(got, vec![
        ("a.txt".to_string(), StatusType::Added),
        ("b".to_string(), StatusType::Modified),
        ("unknown".to_string(), StatusType::Renamed),
        ("d".to_string(), StatusType::Deleted),
    ]);
    assert!(files.iter().all(|f| f.old_path.is_none()));
    assert!(changed_files_of(&Vec::new()).is_empty());
}

#[test]
fn root_commit_files_are_additions_in_walk_order() {
    let files = added_files_of(&vec![Some("dir".to_string()), None, Some("dir/x".to_string())]);
    let got: Vec<&str> = files.iter().map(|f| f.path.as_str()).collect();
    assert_eq!(got, vec!["dir", "unknown", "dir/x"]);
    assert!(files.iter().all(|f| f.status_type == StatusType::Added && f.old_path.is_none()));
}

#[test]
fn tag_names_keep_utf8_names_in_order() {
    let names = vec![Some("v2".to_string()), None, Some("v1".to_string())];
    assert_eq!(utf8_tag_names(&names), vec!["v2", "v1"]);
    assert!(utf8_tag_names(&Vec::new()).is_empty());
}

#[test]
fn ahead_behind_pairs() {
    assert_eq!(reported_counts(Some((3, 1))), (3, 1));
    assert_eq!(reported_counts(None), (0, 0));
}

#[test]
fn offering_commits_to_a_page() {
    let mut page = Vec::new();
    let f = facts("aa", Some("Fix parser"), Some("Alice"), Some("a@x"), 1, &[]);
    let g = facts("bb", Some("docs"), Some("Bob"), Some("b@x"), 2, &[]);
    offer_to_page(&mut page, &f, true, &Some("PARSER".to_string()));
    offer_to_page(&mut page, &g, true, &Some("PARSER".to_string()));
    assert_eq!(page.len(), 1);
    assert_eq!(page[0].oid, "aa");
    offer_to_page(&mut page, &g, false, &None);
    assert_eq!(page.len(), 1);
    offer_to_page(&mut page, &g, true, &None);
    assert_eq!(page.len(), 2);
    assert_eq!(page[1].oid, "bb");
}

#[test]
fn status_bits() {
    assert!(status_contains(0x1, StatusFlag::IndexNew));
    assert!(!status_contains(0x1, StatusFlag::WtNew));
    assert!(status_contains(0x8080, StatusFlag::Conflicted));
    assert!(status_contains(0x8080, StatusFlag::WtNew));
    assert!(!status_contains(0x7f7f, StatusFlag::Conflicted));
}

#[test]
fn path_changes_between_entries() {
    let a = Some("1111".to_string());
    let b = Some("2222".to_string());
    assert!(path_changed(&a, &b));
    assert!(!path_changed(&a, &a.clone()));
    assert!(path_changed(&a, &None));
    assert!(path_changed(&None, &b));
    assert!(!path_changed(&None, &None));
}

#[test]
fn patch_choice() {
    assert_eq!(choose_patch("+a\n".to_string(), Some("+b\n".to_string())), "+a\n");
    assert_eq!(choose_patch(String::new(), Some("+b\n".to_string())), "+b\n");
    assert_eq!(choose_patch(String::new(), None), "");
}

#[test]
fn status_queries() {
    let w = working_status_query();
    assert!(w.include_untracked && w.recurse_untracked_dirs && w.renames_head_to_index && w.renames_index_to_workdir);
    let r = repo_status_query();
    assert!(r.include_untracked && r.recurse_untracked_dirs && !r.renames_head_to_index && !r.renames_index_to_workdir);
    assert!(!git_gui::branch::clean_check_query().recurse_untracked_dirs);
}

#[test]
fn nul_detection() {
    assert!(contains_nul("a\0b"));
    assert!(!contains_nul("a/b.txt"));
    assert!(!contains_nul(""));
}

#[test]
fn diff_paths_relative_to_the_repository() {
    assert_eq!(relative_path("/repo/src/a.txt", "/repo"), "src/a.txt");
    assert_eq!(relative_path("src/a.txt", "/repo"), "src/a.txt");
    assert_eq!(relative_path("/elsewhere/a.txt", "/repo"), "/elsewhere/a.txt");
}
