use git_gui::branch::{
    checkout_branch, cherry_pick, create_branch, create_tag, delete_branch, get_branches, get_tags, merge_branch,
    rebase_branch, MergeResult,
};
use git_gui::commit::{create_commit as create_signed_commit, get_commit_detail};
use git_gui::error::AppError;
use git_gui::git_ops::{create_commit, get_commit_history, get_diff, get_repo_status};
use git_gui::log::{get_commit_log, get_graph_data, LogOptions};
use git_gui::repo::{get_repo_info, init_repository, open_repository};
use git_gui::state::AppState;
use git_gui::status::{discard_changes, get_working_status, stage_all, stage_file, StatusType};
use std::time::{SystemTime, UNIX_EPOCH};

fn fresh_path(tag: &str) -> String {
    let nanos = SystemTime::now().duration_since(UNIX_EPOCH).unwrap().as_nanos();
    format!("/tmp/git_gui_test_{}_{}", tag, nanos)
}

fn new_repo(tag: &str) -> (String, git2::Repository) {
    let path = fresh_path(tag);
    let repo = git2::Repository::init(&path).unwrap();
    {
        let mut cfg = repo.config().unwrap();
        cfg.set_str("user.name", "Tester").unwrap();
        cfg.set_str("user.email", "tester@example.com").unwrap();
    }
    (path, repo)
}

/// Commits `files` (on top of the first parent's tree) and moves `update_ref`.
fn commit_files(repo: &git2::Repository, update_ref: Option<&str>, files: &[(&str, &str)], msg: &str, time: i64, parents: &[git2::Oid]) -> git2::Oid {
    let parent_commits: Vec<git2::Commit> = parents.iter().map(|p| repo.find_commit(*p).unwrap()).collect();
    let base_tree = parent_commits.first().map(|c| c.tree().unwrap());
    let mut tb = repo.treebuilder(base_tree.as_ref()).unwrap();
    for (name, content) in files {
        let blob = repo.blob(content.as_bytes()).unwrap();
        tb.insert(name, blob, 0o100644).unwrap();
    }
    let tree = repo.find_tree(tb.write().unwrap()).unwrap();
    let sig = git2::Signature::new("Author", "author@example.com", &git2::Time::new(time, 0)).unwrap();
    let refs: Vec<&git2::Commit> = parent_commits.iter().collect();
    repo.commit(update_ref, &sig, &sig, msg, &tree, &refs).unwrap()
}

fn checkout_force(repo: &git2::Repository) {
    let mut opts = git2::build::CheckoutBuilder::new();
    opts.force();
    repo.checkout_head(Some(&mut opts)).unwrap();
}

fn state_for(path: &str) -> AppState {
    AppState { current_repo_path: Some(path.to_string()) }
}

fn linear_history(tag: &str) -> (String, git2::Repository, Vec<git2::Oid>) {
    let (path, repo) = new_repo(tag);
    let c1 = commit_files(&repo, Some("HEAD"), &[("a.txt", "one\n")], "first commit", 1000, &[]);
    let c2 = commit_files(&repo, Some("HEAD"), &[("b.txt", "two\n")], "Second: fix typo", 2000, &[c1]);
    let c3 = commit_files(&repo, Some("HEAD"), &[("a.txt", "one\nmore\n")], "third commit", 3000, &[c2]);
    checkout_force(&repo);
    (path, repo, vec![c1, c2, c3])
}

fn log_options(branch: Option<&str>, limit: usize, offset: usize, search: Option<&str>) -> LogOptions {
    LogOptions {
        branch: branch.map(|s| s.to_string()),
        path_filter: None,
        limit,
        offset,
        search: search.map(|s| s.to_string()),
    }
}

#[test]
fn open_repository_describes_and_remembers_it() {
    let (path, _repo, oids) = linear_history("open");
    let mut state = AppState::default();
    let info = open_repository(path.clone(), &mut state).unwrap();
    assert_eq!(info.path, path);
    assert!(!info.is_bare);
    assert!(info.current_branch.is_some());
    let head = info.head_commit.unwrap();
    assert_eq!(head.oid, oids[2].to_string());
    assert_eq!(head.message, "third commit");
    assert_eq!(head.author, "Author");
    assert_eq!(head.timestamp, 3000);
    assert_eq!(state.current_repo_path.as_deref(), Some(path.as_str()));
    let again = get_repo_info(&state).unwrap().unwrap();
    assert_eq!(again.path, path);
}

#[test]
fn open_repository_refuses_a_missing_path() {
    let mut state = state_for("/tmp/previous");
    let missing = fresh_path("missing");
    match open_repository(missing.clone(), &mut state) {
        Err(AppError::InvalidPath(p)) => assert_eq!(p, missing),
        other => panic!("unexpected {:?}", other),
    }
    assert_eq!(state.current_repo_path.as_deref(), Some("/tmp/previous"));
}

#[test]
fn repo_info_without_repository_is_none() {
    assert!(get_repo_info(&AppState::default()).unwrap().is_none());
    assert!(get_repo_info(&state_for(&fresh_path("gone"))).unwrap().is_none());
}

#[test]
fn init_repository_reports_an_empty_repository() {
    let path = fresh_path("init");
    let info = init_repository(path.clone()).unwrap();
    assert_eq!(info.path, path);
    assert!(info.current_branch.is_none());
    assert!(!info.is_bare);
    assert!(info.head_commit.is_none());
    assert!(git2::Repository::open(&path).is_ok());
}

#[test]
fn commands_without_repository() {
    let none = AppState::default();
    assert!(matches!(get_branches(&none), Err(AppError::NoRepository)));
    assert!(matches!(get_commit_history(&none), Err(AppError::NoRepository)));
    assert!(matches!(get_repo_status(&none), Err(AppError::NoRepository)));
    match get_working_status(&none) {
        Err(AppError::NotInitialized(m)) => assert_eq!(m, "No repository opened"),
        other => panic!("unexpected {:?}", other),
    }
    assert_eq!(get_commit_log(&none, &log_options(None, 10, 0, None)).unwrap_err(), "No repository opened");
    assert_eq!(get_graph_data(&none, 10).unwrap_err(), "No repository opened");
    assert_eq!(get_commit_detail(&none, "abc".to_string()).unwrap_err(), "No repository opened");
}

#[test]
fn commit_log_walks_from_head_and_from_branches() {
    let (path, repo, oids) = linear_history("log");
    let c1 = repo.find_commit(oids[0]).unwrap();
    repo.branch("old", &c1, false).unwrap();
    let state = state_for(&path);

    let page = get_commit_log(&state, &log_options(None, 2, 0, None)).unwrap();
    let msgs: Vec<&str> = page.iter().map(|c| c.message.as_str()).collect();
    assert_eq!(msgs, vec!["third commit", "Second: fix typo"]);
    assert_eq!(page[0].author.name, "Author");
    assert_eq!(page[0].author.email, "author@example.com");

    let next = get_commit_log(&state, &log_options(None, 2, 2, None)).unwrap();
    assert_eq!(next.len(), 1);
    assert_eq!(next[0].oid, oids[0].to_string());

    let found = get_commit_log(&state, &log_options(None, 10, 0, Some("FIX"))).unwrap();
    assert_eq!(found.len(), 1);
    assert_eq!(found[0].oid, oids[1].to_string());

    let from_old = get_commit_log(&state, &log_options(Some("old"), 10, 0, None)).unwrap();
    assert_eq!(from_old.len(), 1);
    let full_ref = get_commit_log(&state, &log_options(Some("refs/heads/old"), 10, 0, None)).unwrap();
    assert_eq!(full_ref.len(), 1);

    let err = get_commit_log(&state, &log_options(Some("nope"), 10, 0, None)).unwrap_err();
    assert!(err.starts_with("Branch 'nope' not found: "));
}

#[test]
fn commit_history_lists_recent_commits() {
    let (path, _repo, oids) = linear_history("history");
    let history = get_commit_history(&state_for(&path)).unwrap();
    assert_eq!(history.len(), 3);
    assert_eq!(history[0].id, oids[2].to_string());
    assert_eq!(history[2].message, "first commit");
    assert_eq!(history[2].author, "Author");
    assert_eq!(history[2].email, "author@example.com");
}

#[test]
fn graph_data_lays_out_the_history_of_the_branches() {
    let (path, _repo, oids) = linear_history("graph");
    let graph = get_graph_data(&state_for(&path), 10).unwrap();
    let got: Vec<String> = graph.commits.iter().map(|c| c.summary.oid.clone()).collect();
    assert_eq!(got, vec![oids[2].to_string(), oids[1].to_string(), oids[0].to_string()]);
    // Commits are placed newest first, before their parents, so each one
    // opens a lane of its own.
    let lanes: Vec<usize> = graph.commits.iter().map(|c| c.lane).collect();
    assert_eq!(lanes, vec![0, 1, 2]);
    assert_eq!(graph.commits[0].connections.len(), 1);
    assert_eq!(graph.commits[0].connections[0].to_oid, oids[1].to_string());
    assert_eq!(graph.commits[2].connections.len(), 0);
    assert_eq!(graph.commits[0].branches.len(), 1);
    assert!(graph.commits[1].branches.is_empty());
    let limited = get_graph_data(&state_for(&path), 2).unwrap();
    assert_eq!(limited.commits.len(), 2);
}

#[test]
fn commit_detail_lists_changed_files() {
    let (path, _repo, oids) = linear_history("detail");
    let state = state_for(&path);
    let root = get_commit_detail(&state, oids[0].to_string()).unwrap();
    assert_eq!(root.parents.len(), 0);
    assert_eq!(root.changed_files.len(), 1);
    assert_eq!(root.changed_files[0].path, "a.txt");
    assert_eq!(root.changed_files[0].status_type, StatusType::Added);

    let third = get_commit_detail(&state, oids[2].to_string()).unwrap();
    assert_eq!(third.parents, vec![oids[1].to_string()]);
    assert_eq!(third.message, "third commit");
    assert_eq!(third.author.name, "Author");
    assert_eq!(third.committer.email, "author@example.com");
    assert_eq!(third.timestamp, 3000);
    assert_eq!(third.changed_files.len(), 1);
    assert_eq!(third.changed_files[0].path, "a.txt");
    assert_eq!(third.changed_files[0].status_type, StatusType::Modified);
    assert!(root.changed_files.iter().chain(third.changed_files.iter()).all(|f| f.old_path.is_none()));

    let bad = get_commit_detail(&state, "not-hex".to_string()).unwrap_err();
    assert!(bad.starts_with("Invalid OID: "));
    assert!(get_commit_detail(&state, String::new()).unwrap_err().starts_with("Invalid OID: "));
    assert!(get_commit_detail(&state, "a".repeat(41)).unwrap_err().starts_with("Invalid OID: "));
}

#[test]
fn branches_can_be_created_listed_and_deleted() {
    let (path, repo, oids) = linear_history("branches");
    let state = state_for(&path);
    let created = create_branch(&state, "topic".to_string(), Some(oids[1].to_string())).unwrap();
    assert_eq!(created.name, "topic");
    assert_eq!(created.last_commit.oid, oids[1].to_string());
    assert_eq!(created.last_commit.message, "Second: fix typo");
    assert!(created.upstream.is_none());
    assert_eq!((created.ahead, created.behind), (0, 0));

    let list = get_branches(&state).unwrap();
    let names: Vec<&str> = list.local.iter().map(|b| b.name.as_str()).collect();
    assert!(names.contains(&"topic"));
    assert!(list.remote.is_empty());
    let current = list.current.clone().unwrap();

    match delete_branch(&state, current.clone(), true) {
        Err(AppError::Git(m)) => assert_eq!(m, "Cannot delete the currently checked out branch"),
        other => panic!("unexpected {:?}", other),
    }
    delete_branch(&state, "topic".to_string(), false).unwrap();
    assert!(repo.find_branch("topic", git2::BranchType::Local).is_err());
}

#[test]
fn unmerged_branch_needs_force() {
    let (path, repo, oids) = linear_history("unmerged");
    // A base branch named "main" at the first commit.
    let c1 = repo.find_commit(oids[0]).unwrap();
    repo.branch("main", &c1, true).unwrap();
    let side = commit_files(&repo, None, &[("side.txt", "x\n")], "side", 4000, &[oids[0]]);
    let side_commit = repo.find_commit(side).unwrap();
    repo.branch("side", &side_commit, false).unwrap();
    let state = state_for(&path);
    match delete_branch(&state, "side".to_string(), false) {
        Err(AppError::Git(m)) => assert_eq!(m, "Branch is not fully merged. Use force=true to delete anyway."),
        other => panic!("unexpected {:?}", other),
    }
    delete_branch(&state, "side".to_string(), true).unwrap();
}

#[test]
fn merge_fast_forwards_and_reports_up_to_date() {
    let (path, repo, oids) = linear_history("merge");
    let state = state_for(&path);
    let head_branch = repo.head().unwrap().shorthand().unwrap().to_string();
    // Move HEAD's branch back to the first commit; "ahead" keeps the third.
    let c3 = repo.find_commit(oids[2]).unwrap();
    repo.branch("ahead", &c3, false).unwrap();
    repo.find_reference(&format!("refs/heads/{}", head_branch)).unwrap().set_target(oids[0], "rewind").unwrap();
    checkout_force(&repo);
    match merge_branch(&state, "ahead".to_string()).unwrap() {
        MergeResult::FastForward => {}
        other => panic!("unexpected {:?}", other),
    }
    assert_eq!(repo.head().unwrap().target().unwrap(), oids[2]);
    match merge_branch(&state, "ahead".to_string()).unwrap() {
        MergeResult::UpToDate => {}
        other => panic!("unexpected {:?}", other),
    }
}

#[test]
fn tags_annotated_and_lightweight() {
    let (path, _repo, oids) = linear_history("tags");
    let state = state_for(&path);
    create_tag(&state, "v1".to_string(), None, Some("release one".to_string())).unwrap();
    create_tag(&state, "light".to_string(), Some(oids[0].to_string()), None).unwrap();
    let tags = get_tags(&state).unwrap();
    assert_eq!(tags.len(), 2);
    let light = tags.iter().find(|t| t.name == "light").unwrap();
    assert_eq!(light.oid, oids[0].to_string());
    assert_eq!(light.tag_type, "commit");
    assert!(light.message.is_none() && light.tagger.is_none() && light.timestamp.is_none());
    let v1 = tags.iter().find(|t| t.name == "v1").unwrap();
    assert_eq!(v1.oid, oids[2].to_string());
    assert_eq!(v1.tag_type, "commit");
    assert_eq!(v1.message.as_deref(), Some("release one"));
    assert_eq!(v1.tagger.as_deref(), Some("Tester"));
    assert!(v1.timestamp.is_some());
}

#[test]
fn working_status_and_commits_of_the_index() {
    let (path, repo, oids) = linear_history("status");
    let state = state_for(&path);
    let clean = get_working_status(&state).unwrap();
    assert!(clean.staged.is_empty() && clean.unstaged.is_empty() && clean.untracked.is_empty());

    // Stage a new version of a.txt without touching the working directory:
    // the index differs from HEAD (staged) and from the working file (unstaged).
    let mut index = repo.index().unwrap();
    let blob = repo.blob(b"staged\n").unwrap();
    let mut entry = index.get_path(std::path::Path::new("a.txt"), 0).unwrap();
    entry.id = blob;
    entry.file_size = 7;
    index.add(&entry).unwrap();
    index.write().unwrap();

    let ws = get_working_status(&state).unwrap();
    assert_eq!(ws.staged.len(), 1);
    assert_eq!(ws.staged[0].path, "a.txt");
    assert_eq!(ws.staged[0].status_type, StatusType::Modified);
    assert_eq!(ws.unstaged.len(), 1);
    assert_eq!(ws.unstaged[0].path, "a.txt");

    let rs = get_repo_status(&state).unwrap();
    assert_eq!(rs.files.len(), 1);
    assert_eq!(rs.files[0].path, "a.txt");
    assert_eq!(rs.files[0].status, "modified");
    assert!(rs.files[0].staged);
    assert_eq!((rs.ahead, rs.behind), (0, 0));

    let unstaged_patch = get_diff(&state, format!("{}/a.txt", path)).unwrap();
    assert!(unstaged_patch.contains("-staged\n"));
    assert!(unstaged_patch.contains("+more\n"));

    // Staging the working file again makes the index match it; committing
    // the index records a new commit on HEAD.
    stage_file("a.txt".to_string(), &state).unwrap();
    let staged_patch = get_diff(&state, "a.txt".to_string()).unwrap();
    assert_eq!(staged_patch, "");
    stage_all(&state).unwrap();
    let id = create_commit(&state, "commit of the index".to_string()).unwrap();
    let head = repo.head().unwrap().target().unwrap();
    assert_eq!(id, head.to_string());
    assert_eq!(repo.find_commit(head).unwrap().parent_id(0).unwrap(), oids[2]);
}

#[test]
fn signed_commit_and_amend() {
    let (path, repo, oids) = linear_history("amend");
    let state = state_for(&path);
    let summary = create_signed_commit(&state, "signed".to_string(), false).unwrap();
    assert_eq!(summary.message, "signed");
    assert_eq!(summary.author.name, "Tester");
    assert_eq!(summary.author.email, "tester@example.com");
    let head = repo.head().unwrap().target().unwrap();
    assert_eq!(summary.oid, head.to_string());
    assert_eq!(repo.find_commit(head).unwrap().parent_id(0).unwrap(), oids[2]);

    let amended = create_signed_commit(&state, "reworded".to_string(), true).unwrap();
    assert_eq!(amended.message, "reworded");
    let new_head = repo.head().unwrap().target().unwrap();
    assert_eq!(amended.oid, new_head.to_string());
    assert_eq!(repo.find_commit(new_head).unwrap().parent_id(0).unwrap(), oids[2]);
}

#[test]
fn checkout_refuses_a_dirty_directory() {
    let (path, repo, oids) = linear_history("checkout");
    let state = state_for(&path);
    let c1 = repo.find_commit(oids[0]).unwrap();
    repo.branch("early", &c1, false).unwrap();
    checkout_branch(&state, "early".to_string()).unwrap();
    assert_eq!(repo.head().unwrap().shorthand().unwrap(), "early");
    // The working tree follows the branch.
    assert_eq!(repo.status_file(std::path::Path::new("a.txt")).unwrap(), git2::Status::CURRENT);
    assert!(!std::path::Path::new(&format!("{}/b.txt", path)).exists());

    let mut index = repo.index().unwrap();
    let blob = repo.blob(b"dirty\n").unwrap();
    let mut entry = index.get_path(std::path::Path::new("a.txt"), 0).unwrap();
    entry.id = blob;
    index.add(&entry).unwrap();
    index.write().unwrap();
    match checkout_branch(&state, "early".to_string()) {
        Err(AppError::Git(m)) => assert_eq!(m, "Working directory is not clean. Please commit or stash changes before switching branches."),
        other => panic!("unexpected {:?}", other),
    }
}

#[test]
fn commit_log_with_a_path_lists_the_commits_that_change_it() {
    let (path, _repo, oids) = linear_history("pathlog");
    let state = state_for(&path);
    let mut options = log_options(None, 10, 0, None);
    options.path_filter = Some("a.txt".to_string());
    let a: Vec<String> = get_commit_log(&state, &options).unwrap().into_iter().map(|c| c.oid).collect();
    assert_eq!(a, vec![oids[2].to_string(), oids[0].to_string()]);
    options.path_filter = Some("b.txt".to_string());
    let b: Vec<String> = get_commit_log(&state, &options).unwrap().into_iter().map(|c| c.oid).collect();
    assert_eq!(b, vec![oids[1].to_string()]);
    options.path_filter = Some("missing.txt".to_string());
    assert!(get_commit_log(&state, &options).unwrap().is_empty());
    // The offset counts walked commits, whether or not they change the path.
    options.path_filter = Some("a.txt".to_string());
    options.offset = 1;
    let after: Vec<String> = get_commit_log(&state, &options).unwrap().into_iter().map(|c| c.oid).collect();
    assert_eq!(after, vec![oids[0].to_string()]);
}

#[test]
fn cherry_pick_commits_a_clean_pick() {
    let (path, repo, oids) = linear_history("pick");
    let side = commit_files(&repo, None, &[("c.txt", "three\n")], "add c", 4000, &[oids[0]]);
    let state = state_for(&path);
    cherry_pick(&state, side.to_string()).unwrap();
    let head = repo.head().unwrap().peel_to_commit().unwrap();
    assert_eq!(head.message().unwrap(), "add c");
    assert_eq!(head.parent_id(0).unwrap(), oids[2]);
    assert!(head.tree().unwrap().get_name("c.txt").is_some());
    assert_eq!(repo.state(), git2::RepositoryState::Clean);
}

#[test]
fn rebase_moves_the_current_branch() {
    let (path, repo, oids) = linear_history("rebase");
    let feature = commit_files(&repo, None, &[("d.txt", "four\n")], "add d", 4000, &[oids[1]]);
    repo.branch("feature", &repo.find_commit(feature).unwrap(), false).unwrap();
    let main_name = repo.head().unwrap().shorthand().unwrap().to_string();
    repo.set_head("refs/heads/feature").unwrap();
    checkout_force(&repo);
    let state = state_for(&path);
    let result = rebase_branch(&state, main_name).unwrap();
    assert!(result.success);
    assert_eq!(result.commits_rebased, 1);
    assert_eq!(result.error_message, None);
    let head = repo.head().unwrap();
    assert_eq!(head.shorthand().unwrap(), "feature");
    let tip = head.peel_to_commit().unwrap();
    assert_eq!(tip.message().unwrap(), "add d");
    assert_eq!(tip.parent_id(0).unwrap(), oids[2]);
}

#[test]
fn paths_with_nul_are_refused() {
    let (path, _repo, _oids) = linear_history("nul");
    let state = state_for(&path);
    match get_diff(&state, "a\0b".to_string()) {
        Err(AppError::InvalidPath(p)) => assert_eq!(p, "a\0b"),
        other => panic!("unexpected {:?}", other),
    }
    match discard_changes("a\0b".to_string(), &state) {
        Err(AppError::InvalidPath(p)) => assert_eq!(p, "a\0b"),
        other => panic!("unexpected {:?}", other),
    }
}
