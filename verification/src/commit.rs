//! Commits: what the library reads of a commit, the summaries and details it
//! reports, and the commands that create a commit and describe one.
use vstd::prelude::*;
use crate::git::{self, DeltaKind};
use crate::state::AppState;
use crate::status::{FileStatus, FileStatusView, StatusType};
use crate::text::{own, concat_str};

verus! {

broadcast use vstd::string::group_string_axioms;

// ---------------------------------------------------------------------------
// What is read of a commit
// ---------------------------------------------------------------------------

/// The facts of one commit that the commands report: its id, message,
/// author and committer (each part absent when it is not UTF-8), time in
/// seconds, and the ids of its parents in order.
#[derive(Debug)]
pub struct CommitFacts {
    pub oid: String,
    pub message: Option<String>,
    pub author_name: Option<String>,
    pub author_email: Option<String>,
    pub committer_name: Option<String>,
    pub committer_email: Option<String>,
    pub time: i64,
    pub parents: Vec<String>,
}

/// The view of [`CommitFacts`].
pub struct CommitFactsView {
    pub oid: Seq<char>,
    pub message: Option<Seq<char>>,
    pub author_name: Option<Seq<char>>,
    pub author_email: Option<Seq<char>>,
    pub committer_name: Option<Seq<char>>,
    pub committer_email: Option<Seq<char>>,
    pub time: i64,
    pub parents: Seq<Seq<char>>,
}

impl DeepView for CommitFacts {
    type V = CommitFactsView;

    open spec fn deep_view(&self) -> CommitFactsView {
        CommitFactsView {
            oid: self.oid@,
            message: self.message.deep_view(),
            author_name: self.author_name.deep_view(),
            author_email: self.author_email.deep_view(),
            committer_name: self.committer_name.deep_view(),
            committer_email: self.committer_email.deep_view(),
            time: self.time,
            parents: self.parents.deep_view(),
        }
    }
}

/// The text of an optional string, or `default` when it is absent.
pub open spec fn or_default(s: Option<Seq<char>>, default: Seq<char>) -> Seq<char> {
    match s {
        Some(t) => t,
        None => default,
    }
}

/// The text of an optional string, or `default` when it is absent.
pub fn text_or(s: &Option<String>, default: &str) -> (res: String)
    ensures
        res@ == or_default(s.deep_view(), default@),
{
    match s {
        Some(t) => own(t.as_str()),
        None => own(default),
    }
}

/// A copy of a list of strings.
pub fn copy_strings(v: &Vec<String>) -> (res: Vec<String>)
    ensures
        res.deep_view() == v.deep_view(),
{
    let mut out: Vec<String> = Vec::new();
    let mut i: usize = 0;
    while i < v.len()
        invariant
            i <= v.len(),
            out.len() == i,
            forall|j: int| 0 <= j < i ==> (#[trigger] out@[j])@ == v@[j]@,
        decreases v.len() - i,
    {
        out.push(own(v[i].as_str()));
        i = i + 1;
    }
    proof {
        assert(out.deep_view() =~= v.deep_view());
    }
    out
}

/// The hexadecimal ids of a list of object ids.
fn hex_ids(ids: &Vec<git2::Oid>) -> (res: Vec<String>)
    ensures
        res.len() == ids.len(),
{
    let mut out: Vec<String> = Vec::new();
    let mut i: usize = 0;
    while i < ids.len()
        invariant
            i <= ids.len(),
            out.len() == i,
        decreases ids.len() - i,
    {
        out.push(git::oid_hex(&ids[i]));
        i = i + 1;
    }
    out
}

/// Reads the reported facts of a commit.
pub fn read_commit(c: &git2::Commit) -> (res: CommitFacts) {
    let author = git::commit_author(c);
    let committer = git::commit_committer(c);
    let parent_ids = git::commit_parent_ids(c);
    CommitFacts {
        oid: git::oid_hex(&git::commit_id(c)),
        message: git::commit_message(c),
        author_name: git::signature_name(&author),
        author_email: git::signature_email(&author),
        committer_name: git::signature_name(&committer),
        committer_email: git::signature_email(&committer),
        time: git::commit_seconds(c),
        parents: hex_ids(&parent_ids),
    }
}

// ---------------------------------------------------------------------------
// Reported values
// ---------------------------------------------------------------------------

/// A person: name and e-mail address.
#[derive(Debug)]
pub struct AuthorInfo {
    pub name: String,
    pub email: String,
}

/// The view of [`AuthorInfo`].
pub struct AuthorInfoView {
    pub name: Seq<char>,
    pub email: Seq<char>,
}

impl DeepView for AuthorInfo {
    type V = AuthorInfoView;

    open spec fn deep_view(&self) -> AuthorInfoView {
        AuthorInfoView { name: self.name@, email: self.email@ }
    }
}

/// A commit as listed in history views.
#[derive(Debug)]
pub struct CommitSummary {
    pub oid: String,
    pub message: String,
    pub author: AuthorInfo,
    pub timestamp: i64,
}

/// The view of [`CommitSummary`].
pub struct CommitSummaryView {
    pub oid: Seq<char>,
    pub message: Seq<char>,
    pub author: AuthorInfoView,
    pub timestamp: i64,
}

impl DeepView for CommitSummary {
    type V = CommitSummaryView;

    open spec fn deep_view(&self) -> CommitSummaryView {
        CommitSummaryView {
            oid: self.oid@,
            message: self.message@,
            author: self.author.deep_view(),
            timestamp: self.timestamp,
        }
    }
}

/// A commit with its parents and the files it changed.
#[derive(Debug)]
pub struct CommitDetail {
    pub oid: String,
    pub message: String,
    pub author: AuthorInfo,
    pub committer: AuthorInfo,
    pub parents: Vec<String>,
    pub changed_files: Vec<FileStatus>,
    pub timestamp: i64,
}

/// The view of [`CommitDetail`].
pub struct CommitDetailView {
    pub oid: Seq<char>,
    pub message: Seq<char>,
    pub author: AuthorInfoView,
    pub committer: AuthorInfoView,
    pub parents: Seq<Seq<char>>,
    pub changed_files: Seq<FileStatusView>,
    pub timestamp: i64,
}

impl DeepView for CommitDetail {
    type V = CommitDetailView;

    open spec fn deep_view(&self) -> CommitDetailView {
        CommitDetailView {
            oid: self.oid@,
            message: self.message@,
            author: self.author.deep_view(),
            committer: self.committer.deep_view(),
            parents: self.parents.deep_view(),
            changed_files: self.changed_files.deep_view(),
            timestamp: self.timestamp,
        }
    }
}

/// The summary of a commit: missing message, name or address become empty.
pub open spec fn summary_of(f: CommitFactsView) -> CommitSummaryView {
    CommitSummaryView {
        oid: f.oid,
        message: or_default(f.message, ""@),
        author: AuthorInfoView {
            name: or_default(f.author_name, ""@),
            email: or_default(f.author_email, ""@),
        },
        timestamp: f.time,
    }
}

/// The summary of a commit.
pub fn summarize(f: &CommitFacts) -> (res: CommitSummary)
    ensures
        res.deep_view() == summary_of(f.deep_view()),
{
    proof { reveal_strlit(""); }
    CommitSummary {
        oid: own(f.oid.as_str()),
        message: text_or(&f.message, ""),
        author: AuthorInfo { name: text_or(&f.author_name, ""), email: text_or(&f.author_email, "") },
        timestamp: f.time,
    }
}

/// The detail of a commit with the given changed files.
pub open spec fn detail_of(f: CommitFactsView, files: Seq<FileStatusView>) -> CommitDetailView {
    CommitDetailView {
        oid: f.oid,
        message: or_default(f.message, ""@),
        author: AuthorInfoView {
            name: or_default(f.author_name, ""@),
            email: or_default(f.author_email, ""@),
        },
        committer: AuthorInfoView {
            name: or_default(f.committer_name, ""@),
            email: or_default(f.committer_email, ""@),
        },
        parents: f.parents,
        changed_files: files,
        timestamp: f.time,
    }
}

/// The kind of change reported for a file of a commit's diff: additions,
/// deletions and renames as such, everything else as a modification.
pub open spec fn changed_kind(k: DeltaKind) -> StatusType {
    match k {
        DeltaKind::Added => StatusType::Added,
        DeltaKind::Deleted => StatusType::Deleted,
        DeltaKind::Renamed => StatusType::Renamed,
        _ => StatusType::Modified,
    }
}

/// The reported change for one file of a commit's diff (path `unknown` when
/// the diff gives none).
pub open spec fn changed_file(k: DeltaKind, path: Option<Seq<char>>) -> FileStatusView {
    FileStatusView { path: or_default(path, "unknown"@), old_path: None, status_type: changed_kind(k) }
}

/// A change as a commit's detail reports it: no former path, and never a
/// conflict or a type change (a type change is reported as a modification).
pub open spec fn commit_change(f: FileStatusView) -> bool {
    &&& f.old_path is None
    &&& f.status_type != StatusType::Conflicted
    &&& f.status_type != StatusType::TypeChange
}

/// A change that a root commit's detail reports: an addition.
pub open spec fn added_change(f: FileStatusView) -> bool {
    commit_change(f) && f.status_type == StatusType::Added
}

/// The reported change for one file of a commit's diff.
pub fn changed_file_of_delta(k: DeltaKind, path: &Option<String>) -> (res: FileStatus)
    ensures
        res.deep_view() == changed_file(k, path.deep_view()),
{
    let status_type = match k {
        DeltaKind::Added => StatusType::Added,
        DeltaKind::Deleted => StatusType::Deleted,
        DeltaKind::Modified => StatusType::Modified,
        DeltaKind::Renamed => StatusType::Renamed,
        DeltaKind::Typechange => StatusType::Modified,
        _ => StatusType::Modified,
    };
    FileStatus { path: text_or(path, "unknown"), old_path: None, status_type }
}

/// The reported change for one entry of a root commit's tree: an addition
/// (path `unknown` when the entry's name is not UTF-8).
pub fn added_file_of_entry(name: &Option<String>) -> (res: FileStatus)
    ensures
        res.deep_view() == (FileStatusView { path: or_default(name.deep_view(), "unknown"@), old_path: None, status_type: StatusType::Added }),
{
    FileStatus { path: text_or(name, "unknown"), old_path: None, status_type: StatusType::Added }
}

/// One file of a commit's diff: how it changed and the path of its new side.
#[derive(Debug)]
pub struct ChangedEntry {
    pub kind: DeltaKind,
    pub new_path: Option<String>,
}

/// The view of a [`ChangedEntry`].
pub struct ChangedEntryView {
    pub kind: DeltaKind,
    pub new_path: Option<Seq<char>>,
}

impl DeepView for ChangedEntry {
    type V = ChangedEntryView;

    open spec fn deep_view(&self) -> ChangedEntryView {
        ChangedEntryView { kind: self.kind, new_path: self.new_path.deep_view() }
    }
}

/// The reported changes for the files of a diff, one per file, in diff order.
pub open spec fn changed_files_spec(es: Seq<ChangedEntryView>) -> Seq<FileStatusView> {
    es.map_values(|e: ChangedEntryView| changed_file(e.kind, e.new_path))
}

/// The reported changes for the files of a diff, in diff order.
pub fn changed_files_of(entries: &Vec<ChangedEntry>) -> (res: Vec<FileStatus>)
    ensures
        res.deep_view() == changed_files_spec(entries.deep_view()),
{
    let mut files: Vec<FileStatus> = Vec::new();
    let mut i: usize = 0;
    while i < entries.len()
        invariant
            i <= entries.len(),
            files.deep_view() == changed_files_spec(entries.deep_view().subrange(0, i as int)),
        decreases entries.len() - i,
    {
        let f = changed_file_of_delta(entries[i].kind, &entries[i].new_path);
        let ghost before = files.deep_view();
        files.push(f);
        proof {
            assert(files.deep_view() =~= before.push(f.deep_view()));
            assert(files.deep_view() =~= changed_files_spec(entries.deep_view().subrange(0, i + 1)));
        }
        i = i + 1;
    }
    proof {
        assert(entries.deep_view().subrange(0, entries.len() as int) =~= entries.deep_view());
    }
    files
}

/// The reported changes for the entries of a root commit's tree, one per
/// entry in walk order, each an addition.
pub open spec fn added_files_spec(names: Seq<Option<Seq<char>>>) -> Seq<FileStatusView> {
    names.map_values(|n: Option<Seq<char>>| FileStatusView { path: or_default(n, "unknown"@), old_path: None, status_type: StatusType::Added })
}

/// The reported changes for the entries of a root commit's tree, in walk order.
pub fn added_files_of(names: &Vec<Option<String>>) -> (res: Vec<FileStatus>)
    ensures
        res.deep_view() == added_files_spec(names.deep_view()),
{
    let mut files: Vec<FileStatus> = Vec::new();
    let mut i: usize = 0;
    while i < names.len()
        invariant
            i <= names.len(),
            files.deep_view() == added_files_spec(names.deep_view().subrange(0, i as int)),
        decreases names.len() - i,
    {
        let f = added_file_of_entry(&names[i]);
        let ghost before = files.deep_view();
        files.push(f);
        proof {
            assert(files.deep_view() =~= before.push(f.deep_view()));
            assert(files.deep_view() =~= added_files_spec(names.deep_view().subrange(0, i + 1)));
        }
        i = i + 1;
    }
    proof {
        assert(names.deep_view().subrange(0, names.len() as int) =~= names.deep_view());
    }
    files
}

/// Every change of a diff is a plain change.
pub proof fn lemma_changed_files_are_plain(es: Seq<ChangedEntryView>)
    ensures
        forall|i: int| 0 <= i < changed_files_spec(es).len() ==> commit_change(#[trigger] changed_files_spec(es)[i]),
{
}

/// Every change of a root commit is an addition.
pub proof fn lemma_added_files_are_added(names: Seq<Option<Seq<char>>>)
    ensures
        forall|i: int| 0 <= i < added_files_spec(names).len() ==> added_change(#[trigger] added_files_spec(names)[i]),
{
}

/// The message "`context`: `detail`".
pub fn with_detail(context: &str, detail: &str) -> (res: String)
    ensures
        res@ == context@ + ": "@ + detail@,
{
    let a = concat_str(context, ": ");
    concat_str(a.as_str(), detail)
}

/// `msg` reports a failure in `context`: it is "`context`: " followed by
/// the text of the error.
pub open spec fn reports_failure(msg: Seq<char>, context: Seq<char>) -> bool {
    exists|t: Seq<char>| msg == context + ": "@ + t
}

/// The message "`context`: `e`" for a libgit2 error `e`.
pub fn failure(context: &str, e: &git2::Error) -> (res: String)
    ensures
        reports_failure(res@, context@),
{
    let t = git::error_text(e);
    with_detail(context, t.as_str())
}

/// The identity used for new commits: the configured `user.name` and
/// `user.email`, or `Unknown` and `unknown@example.com` where they are not set.
pub fn commit_identity(name: Option<String>, email: Option<String>) -> (res: (String, String))
    ensures
        res.0@ == or_default(name.deep_view(), "Unknown"@),
        res.1@ == or_default(email.deep_view(), "unknown@example.com"@),
{
    (text_or(&name, "Unknown"), text_or(&email, "unknown@example.com"))
}

/// The repository path opened by the string-error commands.
pub fn opened_path_text(state: &AppState) -> (res: Result<String, String>)
    ensures
        state.current_repo_path is None ==> res is Err && res->Err_0@ == "No repository opened"@,
        state.current_repo_path is Some ==> res is Ok && res->Ok_0@ == state.current_repo_path->0@,
{
    match &state.current_repo_path {
        Some(p) => Ok(own(p.as_str())),
        None => Err(own("No repository opened")),
    }
}

/// Opens a repository, describing a failure as "Failed to open repository: ...".
pub fn open_repo_text(path: &str) -> (res: Result<git2::Repository, String>)
    ensures
        res is Err ==> reports_failure(res->Err_0@, "Failed to open repository"@),
{
    match git::repo_open(path) {
        Ok(r) => Ok(r),
        Err(e) => Err(failure("Failed to open repository", &e)),
    }
}

/// The signature for new commits: the configured identity (or its defaults)
/// stamped with the current time.
fn get_signature(repo: &git2::Repository) -> (res: Result<git2::Signature<'static>, String>)
    ensures
        res is Err ==> reports_failure(res->Err_0@, "Failed to get config"@)
            || reports_failure(res->Err_0@, "Failed to create signature"@),
{
    let config = match git::repo_config(repo) {
        Ok(c) => c,
        Err(e) => return Err(failure("Failed to get config", &e)),
    };
    let name = match git::config_get_string(&config, "user.name") {
        Ok(s) => Some(s),
        Err(_) => None,
    };
    let email = match git::config_get_string(&config, "user.email") {
        Ok(s) => Some(s),
        Err(_) => None,
    };
    let (name, email) = commit_identity(name, email);
    match git::signature_now(name.as_str(), email.as_str()) {
        Ok(s) => Ok(s),
        Err(e) => Err(failure("Failed to create signature", &e)),
    }
}

/// The summary reported for a newly created commit: the id it was given, its
/// message and time, and the signature's name and address.
pub open spec fn new_commit_summary(oid: Seq<char>, f: CommitFactsView, name: Option<Seq<char>>, email: Option<Seq<char>>) -> CommitSummaryView {
    CommitSummaryView {
        oid: oid,
        message: or_default(f.message, ""@),
        author: AuthorInfoView { name: or_default(name, ""@), email: or_default(email, ""@) },
        timestamp: f.time,
    }
}

/// The summary reported for a newly created commit.
pub fn summarize_new_commit(oid: &str, f: &CommitFacts, name: &Option<String>, email: &Option<String>) -> (res: CommitSummary)
    ensures
        res.deep_view() == new_commit_summary(oid@, f.deep_view(), name.deep_view(), email.deep_view()),
{
    CommitSummary {
        oid: own(oid),
        message: text_or(&f.message, ""),
        author: AuthorInfo { name: text_or(name, ""), email: text_or(email, "") },
        timestamp: f.time,
    }
}

/// Why a commit could not be created in an open repository: opening it,
/// the signature, the index and its tree; with `amend`, reading `HEAD` and
/// its commit or amending it; without, reading the parent or committing;
/// then reading the new commit back.
pub open spec fn commit_failure(msg: Seq<char>, amend: bool) -> bool {
    ||| reports_failure(msg, "Failed to open repository"@)
    ||| reports_failure(msg, "Failed to get config"@)
    ||| reports_failure(msg, "Failed to create signature"@)
    ||| reports_failure(msg, "Failed to get index"@)
    ||| reports_failure(msg, "Failed to write index"@)
    ||| reports_failure(msg, "Failed to write tree"@)
    ||| reports_failure(msg, "Failed to find tree"@)
    ||| amend && reports_failure(msg, "Failed to get HEAD"@)
    ||| amend && reports_failure(msg, "Failed to find parent commit"@)
    ||| amend && reports_failure(msg, "Failed to amend commit"@)
    ||| !amend && reports_failure(msg, "Failed to find parent"@)
    ||| !amend && reports_failure(msg, "Failed to create commit"@)
    ||| reports_failure(msg, "Failed to find new commit"@)
}

/// Creates a commit of the index on `HEAD` (or, with `amend`, replaces the
/// commit at `HEAD`), signed with the configured identity.
pub fn create_commit(state: &AppState, message: String, amend: bool) -> (res: Result<CommitSummary, String>)
    ensures
        state.current_repo_path is None ==> res is Err && res->Err_0@ == "No repository opened"@,
        state.current_repo_path is Some && res is Err ==> commit_failure(res->Err_0@, amend),
        res is Ok ==> exists|o: Seq<char>, f: CommitFactsView, n: Option<Seq<char>>, e: Option<Seq<char>>|
            #[trigger] new_commit_summary(o, f, n, e) == res->Ok_0.deep_view(),
{
    let repo_path = opened_path_text(state)?;
    let repo = open_repo_text(repo_path.as_str())?;
    let signature = get_signature(&repo)?;
    let mut index = match git::repo_index(&repo) {
        Ok(i) => i,
        Err(e) => return Err(failure("Failed to get index", &e)),
    };
    if let Err(e) = git::index_write(&mut index) {
        return Err(failure("Failed to write index", &e));
    }
    let tree_id = match git::index_write_tree(&mut index) {
        Ok(t) => t,
        Err(e) => return Err(failure("Failed to write tree", &e)),
    };
    let tree = match git::repo_find_tree(&repo, tree_id) {
        Ok(t) => t,
        Err(e) => return Err(failure("Failed to find tree", &e)),
    };
    let oid = if amend {
        let head = match git::repo_head(&repo) {
            Ok(h) => h,
            Err(e) => return Err(failure("Failed to get HEAD", &e)),
        };
        let target = match git::reference_target(&head) {
            Some(t) => t,
            None => return Err(with_detail("Failed to find parent commit", "HEAD has no target")),
        };
        let parent_commit = match git::repo_find_commit(&repo, target) {
            Ok(c) => c,
            Err(e) => return Err(failure("Failed to find parent commit", &e)),
        };
        match git::commit_amend(&parent_commit, "HEAD", &signature, &tree, message.as_str()) {
            Ok(o) => o,
            Err(e) => return Err(failure("Failed to amend commit", &e)),
        }
    } else {
        let mut parents: Vec<git2::Commit> = Vec::new();
        if let Ok(head) = git::repo_head(&repo) {
            if let Some(target) = git::reference_target(&head) {
                match git::repo_find_commit(&repo, target) {
                    Ok(p) => parents.push(p),
                    Err(e) => return Err(failure("Failed to find parent", &e)),
                }
            }
        }
        match git::repo_commit(&repo, "HEAD", &signature, message.as_str(), &tree, &parents) {
            Ok(o) => o,
            Err(e) => return Err(failure("Failed to create commit", &e)),
        }
    };
    let commit = match git::repo_find_commit(&repo, oid) {
        Ok(c) => c,
        Err(e) => return Err(failure("Failed to find new commit", &e)),
    };
    let facts = read_commit(&commit);
    let oid_text = git::oid_hex(&oid);
    let name = git::signature_name(&signature);
    let email = git::signature_email(&signature);
    Ok(summarize_new_commit(oid_text.as_str(), &facts, &name, &email))
}

/// Where a tree compared by a diff comes from: a commit's first parent, the
/// commit itself, the commit of `HEAD`, or the tree written from the index.
#[derive(Debug, Clone, Copy, PartialEq, Eq, Structural)]
pub enum TreeOrigin {
    FirstParent,
    Commit,
    Head,
    Index,
}

/// A tree, with where it comes from.
pub struct SourcedTree<'r> {
    pub tree: git2::Tree<'r>,
    pub origin: TreeOrigin,
}

/// The comparisons the library makes, old side first: a commit's first
/// parent against the commit (so that what the commit adds is an addition),
/// and `HEAD` against the index (so that what is staged is an addition).
pub open spec fn forward_sides(old: TreeOrigin, new: TreeOrigin) -> bool {
    ||| old == TreeOrigin::FirstParent && new == TreeOrigin::Commit
    ||| old == TreeOrigin::Head && new == TreeOrigin::Index
}

/// The diff from the tree `old` to the tree `new`; only ever asked in the
/// forward direction.
pub fn diff_trees<'r>(repo: &'r git2::Repository, old: &SourcedTree, new: &SourcedTree, opts: &mut git2::DiffOptions) -> (res: Result<git2::Diff<'r>, git2::Error>)
    requires
        forward_sides(old.origin, new.origin),
{
    git::repo_diff_tree_to_tree(repo, &old.tree, &new.tree, opts)
}

/// The files changed by a commit, compared with its first parent.
fn diff_files_against_first_parent(repo: &git2::Repository, commit: &git2::Commit) -> (res: Result<Vec<FileStatus>, String>)
    ensures
        res is Ok ==> exists|es: Seq<ChangedEntryView>| #[trigger] changed_files_spec(es) == res->Ok_0.deep_view(),
        res is Err ==> reports_failure(res->Err_0@, "Failed to get parent"@)
            || reports_failure(res->Err_0@, "Failed to get parent tree"@)
            || reports_failure(res->Err_0@, "Failed to get current tree"@)
            || reports_failure(res->Err_0@, "Failed to create diff"@)
            || reports_failure(res->Err_0@, "Failed to process diff"@),
{
    let parent = match git::commit_parent(commit, 0) {
        Ok(p) => p,
        Err(e) => return Err(failure("Failed to get parent", &e)),
    };
    let parent_tree = match git::commit_tree(&parent) {
        Ok(t) => SourcedTree { tree: t, origin: TreeOrigin::FirstParent },
        Err(e) => return Err(failure("Failed to get parent tree", &e)),
    };
    let current_tree = match git::commit_tree(commit) {
        Ok(t) => SourcedTree { tree: t, origin: TreeOrigin::Commit },
        Err(e) => return Err(failure("Failed to get current tree", &e)),
    };
    let mut opts = git::diff_options_new();
    git::diff_include_untracked(&mut opts, true);
    let diff = match diff_trees(repo, &parent_tree, &current_tree, &mut opts) {
        Ok(d) => d,
        Err(e) => return Err(failure("Failed to create diff", &e)),
    };
    let deltas = match git::diff_deltas(&diff) {
        Ok(d) => d,
        Err(e) => return Err(failure("Failed to process diff", &e)),
    };
    let mut entries: Vec<ChangedEntry> = Vec::new();
    let mut i: usize = 0;
    while i < deltas.len()
        invariant
            i <= deltas.len(),
        decreases deltas.len() - i,
    {
        let kind = git::delta_kind(&deltas[i].status);
        let new_path = match &deltas[i].new_path {
            Some(p) => Some(own(p.as_str())),
            None => None,
        };
        entries.push(ChangedEntry { kind, new_path });
        i = i + 1;
    }
    Ok(changed_files_of(&entries))
}

/// The entries of a root commit's tree, each reported as added.
fn tree_files_as_added(commit: &git2::Commit) -> (res: Result<Vec<FileStatus>, String>)
    ensures
        res is Ok ==> exists|names: Seq<Option<Seq<char>>>| #[trigger] added_files_spec(names) == res->Ok_0.deep_view(),
        res is Err ==> reports_failure(res->Err_0@, "Failed to get tree"@)
            || reports_failure(res->Err_0@, "Failed to walk tree"@),
{
    let tree = match git::commit_tree(commit) {
        Ok(t) => t,
        Err(e) => return Err(failure("Failed to get tree", &e)),
    };
    let names = match git::tree_walk_names(&tree) {
        Ok(n) => n,
        Err(e) => return Err(failure("Failed to walk tree", &e)),
    };
    Ok(added_files_of(&names))
}

/// The detail of a commit, reported with the given changed files.
pub fn describe_commit(f: &CommitFacts, files: Vec<FileStatus>) -> (res: CommitDetail)
    ensures
        res.deep_view() == detail_of(f.deep_view(), files.deep_view()),
{
    CommitDetail {
        oid: own(f.oid.as_str()),
        message: text_or(&f.message, ""),
        author: AuthorInfo { name: text_or(&f.author_name, ""), email: text_or(&f.author_email, "") },
        committer: AuthorInfo { name: text_or(&f.committer_name, ""), email: text_or(&f.committer_email, "") },
        parents: copy_strings(&f.parents),
        changed_files: files,
        timestamp: f.time,
    }
}

/// The files of a commit's detail: the changes of a diff, or the additions
/// of a root commit's tree entries.
pub open spec fn commit_files(files: Seq<FileStatusView>) -> bool {
    ||| exists|es: Seq<ChangedEntryView>| #[trigger] changed_files_spec(es) == files
    ||| exists|ns: Seq<Option<Seq<char>>>| #[trigger] added_files_spec(ns) == files
}

/// Why the detail of a commit of an open repository could not be given: the
/// repository, the id, the commit, its diff or its tree.
pub open spec fn commit_detail_failure(msg: Seq<char>) -> bool {
    ||| reports_failure(msg, "Failed to open repository"@)
    ||| reports_failure(msg, "Invalid OID"@)
    ||| reports_failure(msg, "Commit not found"@)
    ||| reports_failure(msg, "Failed to get parent"@)
    ||| reports_failure(msg, "Failed to get parent tree"@)
    ||| reports_failure(msg, "Failed to get current tree"@)
    ||| reports_failure(msg, "Failed to create diff"@)
    ||| reports_failure(msg, "Failed to process diff"@)
    ||| reports_failure(msg, "Failed to get tree"@)
    ||| reports_failure(msg, "Failed to walk tree"@)
}

/// The detail of the commit with the given id: its facts, and the files it
/// changed against its first parent (for a root commit, every entry of its
/// tree as added).
pub fn get_commit_detail(state: &AppState, oid: String) -> (res: Result<CommitDetail, String>)
    ensures
        state.current_repo_path is None ==> res is Err && res->Err_0@ == "No repository opened"@,
        state.current_repo_path is Some && !git::oid_text_well_formed(oid@) ==> res is Err
            && (reports_failure(res->Err_0@, "Failed to open repository"@) || reports_failure(res->Err_0@, "Invalid OID"@)),
        state.current_repo_path is Some && res is Err ==> commit_detail_failure(res->Err_0@),
        res is Ok ==> exists|f: CommitFactsView, files: Seq<FileStatusView>|
            #[trigger] detail_of(f, files) == res->Ok_0.deep_view() && commit_files(files),
        res is Ok ==> forall|i: int| 0 <= i < res->Ok_0.changed_files.len() ==>
            commit_change(#[trigger] res->Ok_0.changed_files@[i].deep_view()),
{
    let repo_path = opened_path_text(state)?;
    let repo = open_repo_text(repo_path.as_str())?;
    let commit_oid = match git::oid_parse(oid.as_str()) {
        Ok(o) => o,
        Err(e) => return Err(failure("Invalid OID", &e)),
    };
    let commit = match git::repo_find_commit(&repo, commit_oid) {
        Ok(c) => c,
        Err(e) => return Err(failure("Commit not found", &e)),
    };
    let facts = read_commit(&commit);
    let files = if git::commit_parent_count(&commit) > 0 {
        diff_files_against_first_parent(&repo, &commit)?
    } else {
        tree_files_as_added(&commit)?
    };
    let ghost files_view = files.deep_view();
    proof {
        if exists|es: Seq<ChangedEntryView>| #[trigger] changed_files_spec(es) == files_view {
            let es = choose|es: Seq<ChangedEntryView>| #[trigger] changed_files_spec(es) == files_view;
            lemma_changed_files_are_plain(es);
        } else {
            let ns = choose|ns: Seq<Option<Seq<char>>>| #[trigger] added_files_spec(ns) == files_view;
            lemma_added_files_are_added(ns);
        }
        assert forall|i: int| 0 <= i < files_view.len() implies commit_change(#[trigger] files_view[i]) by {
            assert(files_view[i] == files@[i].deep_view());
        }
    }
    let detail = describe_commit(&facts, files);
    proof {
        assert forall|i: int| 0 <= i < detail.changed_files.len() implies
            commit_change(#[trigger] detail.changed_files@[i].deep_view()) by {
            assert(detail.changed_files@[i].deep_view() == detail.changed_files.deep_view()[i]);
        }
    }
    Ok(detail)
}

} // verus!
