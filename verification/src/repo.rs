//! Opening, creating and describing repositories.
use vstd::prelude::*;
use crate::commit::{CommitFacts, CommitFactsView, or_default, text_or, read_commit};
use crate::error::{AppError, AppErrorView, git_error};
use crate::git;
use crate::state::AppState;
use crate::text::own;

verus! {

broadcast use vstd::string::group_string_axioms;

/// The `HEAD` commit of a repository as reported with it.
#[derive(Debug)]
pub struct CommitSummary {
    pub oid: String,
    pub message: String,
    pub author: String,
    pub timestamp: i64,
}

/// The view of a [`CommitSummary`].
pub struct CommitSummaryView {
    pub oid: Seq<char>,
    pub message: Seq<char>,
    pub author: Seq<char>,
    pub timestamp: i64,
}

impl DeepView for CommitSummary {
    type V = CommitSummaryView;

    open spec fn deep_view(&self) -> CommitSummaryView {
        CommitSummaryView { oid: self.oid@, message: self.message@, author: self.author@, timestamp: self.timestamp }
    }
}

/// A repository: its path, current branch, whether it is bare, and its
/// `HEAD` commit.
#[derive(Debug)]
pub struct RepoInfo {
    pub path: String,
    pub current_branch: Option<String>,
    pub is_bare: bool,
    pub head_commit: Option<CommitSummary>,
}

/// The view of a [`RepoInfo`].
pub struct RepoInfoView {
    pub path: Seq<char>,
    pub current_branch: Option<Seq<char>>,
    pub is_bare: bool,
    pub head_commit: Option<CommitSummaryView>,
}

impl DeepView for RepoInfo {
    type V = RepoInfoView;

    open spec fn deep_view(&self) -> RepoInfoView {
        RepoInfoView {
            path: self.path@,
            current_branch: self.current_branch.deep_view(),
            is_bare: self.is_bare,
            head_commit: self.head_commit.deep_view(),
        }
    }
}

/// The summary of a `HEAD` commit: a missing message is empty, a missing
/// author name is `Unknown`.
pub open spec fn head_summary_of(f: CommitFactsView) -> CommitSummaryView {
    CommitSummaryView {
        oid: f.oid,
        message: or_default(f.message, ""@),
        author: or_default(f.author_name, "Unknown"@),
        timestamp: f.time,
    }
}

/// The summary of a `HEAD` commit.
pub fn head_summary(f: &CommitFacts) -> (res: CommitSummary)
    ensures
        res.deep_view() == head_summary_of(f.deep_view()),
{
    CommitSummary {
        oid: own(f.oid.as_str()),
        message: text_or(&f.message, ""),
        author: text_or(&f.author_name, "Unknown"),
        timestamp: f.time,
    }
}

/// A description of the repository at `path` (branch, bareness and `HEAD`
/// commit are read from the repository on disk).
pub open spec fn describes(info: RepoInfoView, path: Seq<char>) -> bool {
    info.path == path
}

/// Describes an open repository found at `path`: the short name of `HEAD`
/// (when `HEAD` can be read), whether it is bare, and the commit `HEAD`
/// points to (when it peels to one).
pub fn describe_repository(repo: &git2::Repository, path: &str) -> (res: RepoInfo)
    ensures
        describes(res.deep_view(), path@),
{
    let current_branch = match git::repo_head(repo) {
        Ok(head) => git::reference_shorthand(&head),
        Err(_) => None,
    };
    let is_bare = git::repo_is_bare(repo);
    let head_commit = match git::repo_head(repo) {
        Ok(head) => match git::reference_peel_to_commit(&head) {
            Ok(c) => {
                let facts = read_commit(&c);
                let s = head_summary(&facts);
                Some(s)
            }
            Err(_) => None,
        },
        Err(_) => None,
    };
    RepoInfo { path: own(path), current_branch, is_bare, head_commit }
}

/// Opens the repository at `path` and makes it the current one. A path that
/// does not exist is refused with `InvalidPath`; on any error the current
/// repository stays as it was.
pub fn open_repository(path: String, state: &mut AppState) -> (res: Result<RepoInfo, AppError>)
    ensures
        res is Ok ==> describes(res->Ok_0.deep_view(), path@) && final(state).repo_path_view() == Some(path@),
        res is Err ==> final(state).repo_path_view() == old(state).repo_path_view(),
        res is Err && res->Err_0 is InvalidPath ==> res->Err_0.deep_view() == AppErrorView::InvalidPath(path@),
{
    if !git::path_exists(path.as_str()) {
        return Err(AppError::InvalidPath(path));
    }
    let repo = match git::repo_open(path.as_str()) {
        Ok(r) => r,
        Err(e) => return Err(git_error(&e)),
    };
    let info = describe_repository(&repo, path.as_str());
    state.current_repo_path = Some(path);
    Ok(info)
}

/// The description of a newly created repository at `path`: no branch, not
/// bare, no commit.
pub open spec fn fresh_repo_info(path: Seq<char>) -> RepoInfoView {
    RepoInfoView { path: path, current_branch: None, is_bare: false, head_commit: None }
}

/// Creates a repository at `path` (whose parent directories exist).
pub fn init_repository(path: String) -> (res: Result<RepoInfo, AppError>)
    ensures
        res is Ok ==> res->Ok_0.deep_view() == fresh_repo_info(path@),
        res is Err ==> res->Err_0 is Git,
{
    match git::repo_init(path.as_str()) {
        Ok(_repo) => Ok(RepoInfo { path, current_branch: None, is_bare: false, head_commit: None }),
        Err(e) => Err(git_error(&e)),
    }
}

/// Describes the current repository: `None` when no repository is open or
/// its path no longer exists.
pub fn get_repo_info(state: &AppState) -> (res: Result<Option<RepoInfo>, AppError>)
    ensures
        state.current_repo_path is None ==> res matches Ok(None),
        res matches Ok(Some(info)) ==> state.current_repo_path is Some
            && describes(info.deep_view(), state.current_repo_path->0@),
        res is Err ==> res->Err_0 is Git,
{
    match &state.current_repo_path {
        Some(path) => {
            if !git::path_exists(path.as_str()) {
                return Ok(None);
            }
            let repo = match git::repo_open(path.as_str()) {
                Ok(r) => r,
                Err(e) => return Err(git_error(&e)),
            };
            Ok(Some(describe_repository(&repo, path.as_str())))
        }
        None => Ok(None),
    }
}

/// Opening a repository and then asking for the current repository's
/// description describes the repository that was opened.
pub proof fn law_open_then_describe(path: Seq<char>, before: Option<Seq<char>>, after: Option<Seq<char>>, opened: bool, info: RepoInfoView)
    requires
        opened ==> after == Some(path),
        !opened ==> after == before,
        after matches Some(p) ==> describes(info, p),
    ensures
        opened ==> info.path == path,
        !opened && before is Some ==> info.path == before->0,
{
}

} // verus!
