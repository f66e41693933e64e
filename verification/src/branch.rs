//! Branches and tags: listing, creating, checking out, deleting, merging,
//! rebasing, cherry-picking.
use vstd::prelude::*;
use crate::commit::{CommitFacts, CommitFactsView, or_default, text_or, read_commit};
use crate::error::{AppError, AppErrorView, git_error, git_refusal};
use crate::git::{self, BranchKind, ObjectKind, StatusQuery, StatusRecord, utf8_decoding};
use crate::repo::{CommitSummaryView, head_summary, head_summary_of};
use crate::state::AppState;
use crate::text::{own, concat_str, str_eq};

pub use crate::repo::CommitSummary;

verus! {

broadcast use vstd::string::group_string_axioms;

// ---------------------------------------------------------------------------
// Reported values
// ---------------------------------------------------------------------------

/// A branch: its name, its upstream, how many commits it is ahead of and
/// behind the upstream, and its last commit.
#[derive(Debug)]
pub struct BranchInfo {
    pub name: String,
    pub upstream: Option<String>,
    pub ahead: i32,
    pub behind: i32,
    pub last_commit: CommitSummary,
}

/// The view of a [`BranchInfo`].
pub struct BranchInfoView {
    pub name: Seq<char>,
    pub upstream: Option<Seq<char>>,
    pub ahead: i32,
    pub behind: i32,
    pub last_commit: CommitSummaryView,
}

impl DeepView for BranchInfo {
    type V = BranchInfoView;

    open spec fn deep_view(&self) -> BranchInfoView {
        BranchInfoView {
            name: self.name@,
            upstream: self.upstream.deep_view(),
            ahead: self.ahead,
            behind: self.behind,
            last_commit: self.last_commit.deep_view(),
        }
    }
}

/// The local and remote branches and the current branch.
#[derive(Debug)]
pub struct BranchList {
    pub local: Vec<BranchInfo>,
    pub remote: Vec<BranchInfo>,
    pub current: Option<String>,
}

/// The outcome of a merge.
#[derive(Debug)]
pub enum MergeResult {
    FastForward,
    Merged { conflicts: Vec<String> },
    UpToDate,
}

/// The outcome of a rebase: whether every commit was replayed, how many were,
/// and the error that stopped it.
#[derive(Debug)]
pub struct RebaseResult {
    pub success: bool,
    pub commits_rebased: u32,
    pub error_message: Option<String>,
}

/// A tag: its name, the id and kind of the object it points to, and for an
/// annotated tag its message, tagger and time.
#[derive(Debug)]
pub struct TagInfo {
    pub name: String,
    pub oid: String,
    pub tag_type: String,
    pub message: Option<String>,
    pub tagger: Option<String>,
    pub timestamp: Option<i64>,
}

/// The view of a [`TagInfo`].
pub struct TagInfoView {
    pub name: Seq<char>,
    pub oid: Seq<char>,
    pub tag_type: Seq<char>,
    pub message: Option<Seq<char>>,
    pub tagger: Option<Seq<char>>,
    pub timestamp: Option<i64>,
}

impl DeepView for TagInfo {
    type V = TagInfoView;

    open spec fn deep_view(&self) -> TagInfoView {
        TagInfoView {
            name: self.name@,
            oid: self.oid@,
            tag_type: self.tag_type@,
            message: self.message.deep_view(),
            tagger: self.tagger.deep_view(),
            timestamp: self.timestamp,
        }
    }
}

// ---------------------------------------------------------------------------
// Decisions
// ---------------------------------------------------------------------------

/// The last commit reported for a branch whose target cannot be peeled to a
/// commit: empty id, message and author, time 0.
pub open spec fn empty_summary() -> CommitSummaryView {
    CommitSummaryView { oid: ""@, message: ""@, author: ""@, timestamp: 0 }
}

/// The description of a branch from what was read of it: its name
/// (`unknown` when it has none), upstream name, counts, and last commit.
pub open spec fn branch_info_of(name: Option<Seq<char>>, upstream: Option<Seq<char>>, counts: (i32, i32), last: Option<CommitFactsView>) -> BranchInfoView {
    BranchInfoView {
        name: or_default(name, "unknown"@),
        upstream: upstream,
        ahead: counts.0,
        behind: counts.1,
        last_commit: match last {
            Some(f) => head_summary_of(f),
            None => empty_summary(),
        },
    }
}

/// The description of a branch.
pub fn branch_info(name: &Option<String>, upstream: &Option<String>, counts: (i32, i32), last: &Option<CommitFacts>) -> (res: BranchInfo)
    ensures
        res.deep_view() == branch_info_of(name.deep_view(), upstream.deep_view(), counts, last.deep_view()),
{
    let last_commit = match last {
        Some(f) => head_summary(f),
        None => CommitSummary { oid: own(""), message: own(""), author: own(""), timestamp: 0 },
    };
    let up = match upstream {
        Some(u) => Some(own(u.as_str())),
        None => None,
    };
    BranchInfo { name: text_or(name, "unknown"), upstream: up, ahead: counts.0, behind: counts.1, last_commit }
}

/// A branch description as `branch_info_of` makes it from what was read of
/// some branch.
pub open spec fn branch_description(b: BranchInfoView) -> bool {
    exists|n: Option<Seq<char>>, u: Option<Seq<char>>, c: (i32, i32), l: Option<CommitFactsView>|
        #[trigger] branch_info_of(n, u, c, l) == b
}

/// Every element of a list is a branch description.
pub open spec fn branch_descriptions(bs: Seq<BranchInfoView>) -> bool {
    forall|i: int| 0 <= i < bs.len() ==> branch_description(#[trigger] bs[i])
}

/// Ahead/behind counts as reported: the libgit2 counts converted to `i32`
/// (as by `as`), or 0 and 0 when there are none.
pub open spec fn counts_of(c: Option<(usize, usize)>) -> (i32, i32) {
    match c {
        Some((a, b)) => (a as i32, b as i32),
        None => (0, 0),
    }
}

/// Ahead/behind counts as reported.
pub fn report_counts(c: Option<(usize, usize)>) -> (res: (i32, i32))
    ensures
        res == counts_of(c),
{
    match c {
        Some((a, b)) => (a as i32, b as i32),
        None => (0, 0),
    }
}

/// How a merge proceeds: nothing to do when `HEAD` is the branch's commit, a
/// fast-forward when `HEAD` is the merge base, a real merge otherwise.
#[derive(Debug, Clone, Copy, PartialEq, Eq, Structural)]
pub enum MergePlan {
    UpToDate,
    FastForward,
    Merge,
}

/// The plan for merging a branch into `HEAD`, by commit ids.
pub open spec fn merge_plan_of(head: Seq<char>, branch: Seq<char>, base: Seq<char>) -> MergePlan {
    if head == branch {
        MergePlan::UpToDate
    } else if base == head {
        MergePlan::FastForward
    } else {
        MergePlan::Merge
    }
}

/// Whether `HEAD` already is the branch's commit.
pub fn is_up_to_date(head: &str, branch: &str) -> (res: bool)
    ensures
        res == (head@ == branch@),
{
    str_eq(head, branch)
}

/// The plan for merging, once the merge base is known.
pub fn merge_plan(head: &str, branch: &str, base: &str) -> (res: MergePlan)
    ensures
        res == merge_plan_of(head@, branch@, base@),
{
    if str_eq(head, branch) {
        MergePlan::UpToDate
    } else if str_eq(base, head) {
        MergePlan::FastForward
    } else {
        MergePlan::Merge
    }
}

/// The conflicted paths of a merge: the "ours" path of each conflict that
/// has one, is not empty and is valid UTF-8.
pub open spec fn conflict_paths_of(ours: Seq<Option<Seq<u8>>>) -> Seq<Seq<char>>
    decreases ours.len(),
{
    if ours.len() == 0 {
        Seq::empty()
    } else {
        let rest = conflict_paths_of(ours.drop_last());
        match ours.last() {
            Some(b) => if b.len() > 0 && utf8_decoding(b) is Some { rest.push(utf8_decoding(b)->0) } else { rest },
            None => rest,
        }
    }
}

/// The view of a list of optional byte strings.
pub open spec fn bytes_view(v: Seq<Option<Vec<u8>>>) -> Seq<Option<Seq<u8>>> {
    v.map_values(|o: Option<Vec<u8>>| match o { Some(b) => Some(b@), None => None })
}

/// The conflicted paths of a merge.
pub fn conflict_paths(ours: &Vec<Option<Vec<u8>>>) -> (res: Vec<String>)
    ensures
        res.deep_view() == conflict_paths_of(bytes_view(ours@)),
{
    let ghost bs = bytes_view(ours@);
    let mut out: Vec<String> = Vec::new();
    let mut i: usize = 0;
    while i < ours.len()
        invariant
            i <= ours.len(),
            bs == bytes_view(ours@),
            out.deep_view() == conflict_paths_of(bs.subrange(0, i as int)),
        decreases ours.len() - i,
    {
        proof {
            assert(bs.subrange(0, i + 1).drop_last() =~= bs.subrange(0, i as int));
            assert(bs.subrange(0, i + 1).last() == bs[i as int]);
        }
        if let Some(b) = &ours[i] {
            if b.len() > 0 {
                if let Some(s) = git::decode_utf8(b) {
                    let ghost before = out.deep_view();
                    out.push(s);
                    proof {
                        assert(out.deep_view() =~= before.push(utf8_decoding(b@)->0));
                    }
                }
            }
        }
        i = i + 1;
    }
    proof {
        assert(bs.subrange(0, ours.len() as int) =~= bs);
    }
    out
}

/// The message of a merge commit: "Merge branch '<name>'".
pub fn merge_message(name: &str) -> (res: String)
    ensures
        res@ == "Merge branch '"@ + name@ + "'"@,
{
    let a = concat_str("Merge branch '", name);
    concat_str(a.as_str(), "'")
}

/// The kind reported for the target of an annotated tag.
pub open spec fn annotated_target_type(k: Option<ObjectKind>) -> Seq<char> {
    match k {
        Some(ObjectKind::Commit) => "commit"@,
        Some(ObjectKind::Blob) => "blob"@,
        Some(ObjectKind::Tree) => "tree"@,
        Some(ObjectKind::Tag) => "tag"@,
        _ => "unknown"@,
    }
}

/// The kind reported for the object of a lightweight tag (a tag object
/// counts as unknown here).
pub open spec fn lightweight_target_type(k: Option<ObjectKind>) -> Seq<char> {
    match k {
        Some(ObjectKind::Commit) => "commit"@,
        Some(ObjectKind::Blob) => "blob"@,
        Some(ObjectKind::Tree) => "tree"@,
        _ => "unknown"@,
    }
}

/// The kind reported for the target of an annotated tag.
pub fn annotated_type_label(k: Option<ObjectKind>) -> (res: String)
    ensures
        res@ == annotated_target_type(k),
{
    match k {
        Some(ObjectKind::Commit) => own("commit"),
        Some(ObjectKind::Blob) => own("blob"),
        Some(ObjectKind::Tree) => own("tree"),
        Some(ObjectKind::Tag) => own("tag"),
        _ => own("unknown"),
    }
}

/// The kind reported for the object of a lightweight tag.
pub fn lightweight_type_label(k: Option<ObjectKind>) -> (res: String)
    ensures
        res@ == lightweight_target_type(k),
{
    match k {
        Some(ObjectKind::Commit) => own("commit"),
        Some(ObjectKind::Blob) => own("blob"),
        Some(ObjectKind::Tree) => own("tree"),
        _ => own("unknown"),
    }
}

/// Annotated and lightweight tags report the same kind for every object
/// except a tag object, which only an annotated tag names.
pub proof fn law_tag_type_labels(k: Option<ObjectKind>)
    ensures
        k != Some(ObjectKind::Tag) ==> annotated_target_type(k) == lightweight_target_type(k),
        lightweight_target_type(Some(ObjectKind::Tag)) == "unknown"@,
        annotated_target_type(Some(ObjectKind::Tag)) == "tag"@,
{
}

/// The reference name of a tag: "refs/tags/<name>".
pub fn tag_refname(name: &str) -> (res: String)
    ensures
        res@ == "refs/tags/"@ + name@,
{
    concat_str("refs/tags/", name)
}

// ---------------------------------------------------------------------------
// Messages of the refusals
// ---------------------------------------------------------------------------

/// The refusal of an operation on a working directory with changes.
pub open spec fn dirty_refusal(op: Seq<char>) -> AppErrorView {
    AppErrorView::Git("Working directory is not clean. Please commit or stash changes before "@ + op + "."@)
}

fn dirty_error(op: &str) -> (res: AppError)
    ensures
        res.deep_view() == dirty_refusal(op@),
{
    let a = concat_str("Working directory is not clean. Please commit or stash changes before ", op);
    AppError::Git(concat_str(a.as_str(), "."))
}

// ---------------------------------------------------------------------------
// Reading branches
// ---------------------------------------------------------------------------

/// The repository the commands work on; `NoRepository` when none is open or
/// its path no longer exists.
fn get_repo(state: &AppState) -> (res: Result<git2::Repository, AppError>)
    ensures
        state.current_repo_path is None ==> res is Err && res->Err_0.deep_view() == AppErrorView::NoRepository,
        res is Err ==> res->Err_0 is Git || res->Err_0 is NoRepository,
{
    match &state.current_repo_path {
        Some(path) => {
            if !git::path_exists(path.as_str()) {
                return Err(AppError::NoRepository);
            }
            match git::repo_open(path.as_str()) {
                Ok(r) => Ok(r),
                Err(e) => Err(git_error(&e)),
            }
        }
        None => Err(AppError::NoRepository),
    }
}

/// Whether a status listing shows a clean working directory: it could be
/// read and lists nothing.
pub fn listing_is_clean(listing: &Result<Vec<StatusRecord>, git2::Error>) -> (res: bool)
    ensures
        res == (listing matches Ok(records) && records.len() == 0),
{
    match listing {
        Ok(records) => records.len() == 0,
        Err(_) => false,
    }
}

/// The status query of the clean-directory test: untracked files (not
/// recursing into untracked directories), without rename detection.
pub fn clean_check_query() -> (q: StatusQuery)
    ensures
        q.include_untracked,
        !q.recurse_untracked_dirs,
        !q.renames_head_to_index,
        !q.renames_index_to_workdir,
{
    StatusQuery {
        include_untracked: true,
        recurse_untracked_dirs: false,
        renames_head_to_index: false,
        renames_index_to_workdir: false,
    }
}

/// Whether the working directory has no changes and no untracked files
/// (false when its status cannot be read).
fn is_working_directory_clean(repo: &git2::Repository) -> bool {
    let q = clean_check_query();
    let listing = git::repo_statuses(repo, q);
    listing_is_clean(&listing)
}

/// Commits ahead of and behind the branch's upstream, if it has one and
/// both targets are direct and the count succeeds.
fn get_ahead_behind(branch: &git2::Branch, repo: &git2::Repository) -> (res: (i32, i32))
    ensures
        exists|c: Option<(usize, usize)>| #[trigger] counts_of(c) == res,
{
    let counts = match git::branch_upstream(branch) {
        Ok(upstream) => {
            match (git::reference_target(git::branch_reference(branch)), git::reference_target(git::branch_reference(&upstream))) {
                (Some(l), Some(u)) => match git::repo_graph_ahead_behind(repo, l, u) {
                    Ok(c) => Some(c),
                    Err(_) => None,
                },
                _ => None,
            }
        }
        Err(_) => None,
    };
    report_counts(counts)
}

/// A branch's description; fails only when its name cannot be read.
fn get_branch_info(branch: &git2::Branch, repo: &git2::Repository) -> (res: Result<BranchInfo, AppError>)
    ensures
        res is Err ==> res->Err_0 is Git,
        res is Ok ==> branch_description(res->Ok_0.deep_view()),
{
    let name = match git::branch_name(branch) {
        Ok(n) => n,
        Err(e) => return Err(git_error(&e)),
    };
    let upstream = match git::branch_upstream(branch) {
        Ok(u) => match git::branch_name(&u) {
            Ok(n) => n,
            Err(_) => None,
        },
        Err(_) => None,
    };
    let counts = get_ahead_behind(branch, repo);
    let last = match git::reference_peel_to_commit(git::branch_reference(branch)) {
        Ok(c) => Some(read_commit(&c)),
        Err(_) => None,
    };
    let info = branch_info(&name, &upstream, counts, &last);
    proof {
        assert(branch_info_of(name.deep_view(), upstream.deep_view(), counts, last.deep_view()) == info.deep_view());
    }
    Ok(info)
}

/// The descriptions of the branches of one kind (a branch whose name cannot
/// be read is left out).
fn branch_infos(repo: &git2::Repository, kind: BranchKind) -> (res: Result<Vec<BranchInfo>, AppError>)
    ensures
        res is Err ==> res->Err_0 is Git,
        res is Ok ==> branch_descriptions(res->Ok_0.deep_view()),
{
    let branches = match git::repo_branches(repo, kind) {
        Ok(b) => b,
        Err(e) => return Err(git_error(&e)),
    };
    let mut infos: Vec<BranchInfo> = Vec::new();
    let mut i: usize = 0;
    while i < branches.len()
        invariant
            i <= branches.len(),
            branch_descriptions(infos.deep_view()),
        decreases branches.len() - i,
    {
        let b = match &branches[i] {
            Ok(b) => b,
            Err(e) => return Err(git_error(e)),
        };
        if let Ok(info) = get_branch_info(b, repo) {
            let ghost before = infos.deep_view();
            infos.push(info);
            proof {
                assert(infos.deep_view() =~= before.push(info.deep_view()));
                assert forall|k: int| 0 <= k < infos.deep_view().len() implies branch_description(#[trigger] infos.deep_view()[k]) by {
                    if k < before.len() {
                        assert(infos.deep_view()[k] == before[k]);
                    }
                }
            }
        }
        i = i + 1;
    }
    Ok(infos)
}

/// The short name of `HEAD`, when it can be read.
fn head_shorthand(repo: &git2::Repository) -> Option<String> {
    match git::repo_head(repo) {
        Ok(head) => git::reference_shorthand(&head),
        Err(_) => None,
    }
}

// ---------------------------------------------------------------------------
// Commands
// ---------------------------------------------------------------------------

/// The local and remote branches, and the short name of `HEAD`.
pub fn get_branches(state: &AppState) -> (res: Result<BranchList, AppError>)
    ensures
        state.current_repo_path is None ==> res is Err && res->Err_0.deep_view() == AppErrorView::NoRepository,
        res is Err ==> res->Err_0 is Git || res->Err_0 is NoRepository,
        res is Ok ==> branch_descriptions(res->Ok_0.local.deep_view()) && branch_descriptions(res->Ok_0.remote.deep_view()),
{
    let repo = get_repo(state)?;
    let current = head_shorthand(&repo);
    let local = branch_infos(&repo, BranchKind::Local)?;
    let remote = branch_infos(&repo, BranchKind::Remote)?;
    Ok(BranchList { local, remote, current })
}

/// Creates a branch at `from_ref` (any revision that peels to a commit) or,
/// without one, at the commit `HEAD` points to.
pub fn create_branch(state: &AppState, name: String, from_ref: Option<String>) -> (res: Result<BranchInfo, AppError>)
    ensures
        state.current_repo_path is None ==> res is Err && res->Err_0.deep_view() == AppErrorView::NoRepository,
        res is Err ==> res->Err_0 is Git || res->Err_0 is NoRepository,
        res is Ok ==> branch_description(res->Ok_0.deep_view()),
{
    let repo = get_repo(state)?;
    let from_oid = match &from_ref {
        Some(ref_name) => {
            let obj = match git::repo_revparse_single(&repo, ref_name.as_str()) {
                Ok(o) => o,
                Err(e) => return Err(git_error(&e)),
            };
            match git::object_peel_to_commit(&obj) {
                Ok(c) => git::commit_id(&c),
                Err(e) => return Err(git_error(&e)),
            }
        }
        None => {
            let head = match git::repo_head(&repo) {
                Ok(h) => h,
                Err(e) => return Err(git_error(&e)),
            };
            match git::reference_target(&head) {
                Some(t) => t,
                None => return Err(git_refusal("HEAD is not a valid commit")),
            }
        }
    };
    let from_commit = match git::repo_find_commit(&repo, from_oid) {
        Ok(c) => c,
        Err(e) => return Err(git_error(&e)),
    };
    let branch = match git::repo_create_branch(&repo, name.as_str(), &from_commit) {
        Ok(b) => b,
        Err(e) => return Err(git_error(&e)),
    };
    get_branch_info(&branch, &repo)
}

/// Checks out a local branch: refuses a working directory with changes,
/// checks the branch's tree out safely and points `HEAD` at the branch.
pub fn checkout_branch(state: &AppState, name: String) -> (res: Result<(), AppError>)
    ensures
        state.current_repo_path is None ==> res is Err && res->Err_0.deep_view() == AppErrorView::NoRepository,
        res is Err ==> res->Err_0 is Git || res->Err_0 is NoRepository,
{
    let repo = get_repo(state)?;
    if !is_working_directory_clean(&repo) {
        return Err(dirty_error("switching branches"));
    }
    let branch = match git::repo_find_branch(&repo, name.as_str(), BranchKind::Local) {
        Ok(b) => b,
        Err(e) => return Err(git_error(&e)),
    };
    let tree = match git::reference_peel_to_tree(git::branch_reference(&branch)) {
        Ok(t) => t,
        Err(e) => return Err(git_error(&e)),
    };
    let mut checkout = git::checkout_builder_new();
    git::checkout_safe(&mut checkout);
    if let Err(e) = git::repo_checkout_tree(&repo, &tree, &mut checkout) {
        return Err(git_error(&e));
    }
    let refname = match git::reference_name(git::branch_reference(&branch)) {
        Some(n) => n,
        None => own("refs/heads/master"),
    };
    match git::repo_set_head(&repo, refname.as_str()) {
        Ok(()) => Ok(()),
        Err(e) => Err(git_error(&e)),
    }
}

/// Whether the branch named `name` is the one `HEAD` names.
pub fn is_checked_out(head: &Option<String>, name: &str) -> (res: bool)
    ensures
        res == (head.deep_view() == Some(name@)),
{
    match head {
        Some(h) => str_eq(h.as_str(), name),
        None => false,
    }
}

/// Whether the commit `target` is reachable from the walk (which was
/// started at the base branch).
fn walk_reaches(walk: &mut git2::Revwalk, target: &str) -> (res: Result<bool, AppError>)
    ensures
        res is Err ==> res->Err_0 is Git,
{
    let mut steps_left: usize = usize::MAX;
    while steps_left > 0
        decreases steps_left,
    {
        steps_left = steps_left - 1;
        match git::revwalk_next(walk) {
            None => return Ok(false),
            Some(Err(e)) => return Err(git_error(&e)),
            Some(Ok(oid)) => {
                let hex = git::oid_hex(&oid);
                if str_eq(hex.as_str(), target) {
                    return Ok(true);
                }
            }
        }
    }
    Ok(false)
}

/// The commit of the local `main` branch, else of `master`, when one exists
/// and peels to a commit.
fn base_branch_commit<'r>(repo: &'r git2::Repository) -> Option<git2::Commit<'r>> {
    match git::repo_find_branch(repo, "main", BranchKind::Local) {
        Ok(b) => match git::reference_peel_to_commit(git::branch_reference(&b)) {
            Ok(c) => Some(c),
            Err(_) => None,
        },
        Err(_) => match git::repo_find_branch(repo, "master", BranchKind::Local) {
            Ok(b) => match git::reference_peel_to_commit(git::branch_reference(&b)) {
                Ok(c) => Some(c),
                Err(_) => None,
            },
            Err(_) => None,
        },
    }
}

/// Deletes a local branch. Refuses the branch `HEAD` names; without `force`,
/// refuses a branch whose commit is not reachable from `main` (or `master`)
/// when such a base branch exists.
pub fn delete_branch(state: &AppState, name: String, force: bool) -> (res: Result<(), AppError>)
    ensures
        state.current_repo_path is None ==> res is Err && res->Err_0.deep_view() == AppErrorView::NoRepository,
        res is Err ==> res->Err_0 is Git || res->Err_0 is NoRepository,
{
    let repo = get_repo(state)?;
    let mut branch = match git::repo_find_branch(&repo, name.as_str(), BranchKind::Local) {
        Ok(b) => b,
        Err(e) => return Err(git_error(&e)),
    };
    let head = head_shorthand(&repo);
    if is_checked_out(&head, name.as_str()) {
        return Err(git_refusal("Cannot delete the currently checked out branch"));
    }
    if !force {
        let branch_commit = match git::reference_peel_to_commit(git::branch_reference(&branch)) {
            Ok(c) => c,
            Err(e) => return Err(git_error(&e)),
        };
        if let Some(base_commit) = base_branch_commit(&repo) {
            let mut walk = match git::repo_revwalk(&repo) {
                Ok(w) => w,
                Err(e) => return Err(git_error(&e)),
            };
            if let Err(e) = git::revwalk_push(&mut walk, git::commit_id(&base_commit)) {
                return Err(git_error(&e));
            }
            let target = git::oid_hex(&git::commit_id(&branch_commit));
            let merged = walk_reaches(&mut walk, target.as_str())?;
            if !merged {
                return Err(git_refusal("Branch is not fully merged. Use force=true to delete anyway."));
            }
        }
    }
    match git::branch_delete(&mut branch) {
        Ok(()) => Ok(()),
        Err(e) => Err(git_error(&e)),
    }
}

/// Merges a local branch into `HEAD`: refuses a working directory with
/// changes; reports an up-to-date branch; fast-forwards when possible;
/// otherwise merges, reports conflicts (leaving the merge in progress) or
/// commits the merge.
#[verifier::loop_isolation(false)]
pub fn merge_branch(state: &AppState, name: String) -> (res: Result<MergeResult, AppError>)
    ensures
        state.current_repo_path is None ==> res is Err && res->Err_0.deep_view() == AppErrorView::NoRepository,
        res is Err ==> res->Err_0 is Git || res->Err_0 is NoRepository,
        res matches Ok(MergeResult::Merged { conflicts }) ==> exists|ours: Seq<Option<Seq<u8>>>|
            #[trigger] conflict_paths_of(ours) == conflicts.deep_view(),
{
    let repo = get_repo(state)?;
    if !is_working_directory_clean(&repo) {
        return Err(dirty_error("merging"));
    }
    let branch = match git::repo_find_branch(&repo, name.as_str(), BranchKind::Local) {
        Ok(b) => b,
        Err(e) => return Err(git_error(&e)),
    };
    let branch_commit = match git::reference_peel_to_commit(git::branch_reference(&branch)) {
        Ok(c) => c,
        Err(e) => return Err(git_error(&e)),
    };
    let mut head = match git::repo_head(&repo) {
        Ok(h) => h,
        Err(e) => return Err(git_error(&e)),
    };
    let head_commit = match git::reference_peel_to_commit(&head) {
        Ok(c) => c,
        Err(e) => return Err(git_error(&e)),
    };
    let head_id = git::commit_id(&head_commit);
    let branch_id = git::commit_id(&branch_commit);
    let head_hex = git::oid_hex(&head_id);
    let branch_hex = git::oid_hex(&branch_id);
    if is_up_to_date(head_hex.as_str(), branch_hex.as_str()) {
        return Ok(MergeResult::UpToDate);
    }
    let base = match git::repo_merge_base(&repo, head_id, branch_id) {
        Ok(b) => b,
        Err(e) => return Err(git_error(&e)),
    };
    let base_hex = git::oid_hex(&base);
    if merge_plan(head_hex.as_str(), branch_hex.as_str(), base_hex.as_str()) == MergePlan::FastForward {
        let tree = match git::commit_tree(&branch_commit) {
            Ok(t) => t,
            Err(e) => return Err(git_error(&e)),
        };
        let mut checkout = git::checkout_builder_new();
        git::checkout_safe(&mut checkout);
        if let Err(e) = git::repo_checkout_tree(&repo, &tree, &mut checkout) {
            return Err(git_error(&e));
        }
        if let Err(e) = git::reference_set_target(&mut head, branch_id, "Fast-forward merge") {
            return Err(git_error(&e));
        }
        return Ok(MergeResult::FastForward);
    }
    let branch_ann = match git::repo_find_annotated_commit(&repo, branch_id) {
        Ok(a) => a,
        Err(e) => return Err(git_error(&e)),
    };
    if let Err(e) = git::repo_merge(&repo, &branch_ann) {
        return Err(git_error(&e));
    }
    let index = match git::repo_index(&repo) {
        Ok(i) => i,
        Err(e) => return Err(git_error(&e)),
    };
    let mut ours: Vec<Option<Vec<u8>>> = Vec::new();
    if let Ok(items) = git::index_conflict_our_paths(&index) {
        let mut i: usize = 0;
        while i < items.len()
            invariant
                i <= items.len(),
            decreases items.len() - i,
        {
            match &items[i] {
                Ok(p) => {
                    let copy = match p {
                        Some(b) => Some(b.clone()),
                        None => None,
                    };
                    ours.push(copy);
                }
                Err(e) => return Err(git_error(e)),
            }
            i = i + 1;
        }
    }
    let conflicts = conflict_paths(&ours);
    if conflicts.len() > 0 {
        return Ok(MergeResult::Merged { conflicts });
    }
    let mut index = match git::repo_index(&repo) {
        Ok(i) => i,
        Err(e) => return Err(git_error(&e)),
    };
    let tree_id = match git::index_write_tree(&mut index) {
        Ok(t) => t,
        Err(e) => return Err(git_error(&e)),
    };
    let tree = match git::repo_find_tree(&repo, tree_id) {
        Ok(t) => t,
        Err(e) => return Err(git_error(&e)),
    };
    let signature = match git::repo_signature(&repo) {
        Ok(s) => s,
        Err(e) => return Err(git_error(&e)),
    };
    let mut parents: Vec<git2::Commit> = Vec::new();
    if let Ok(c) = git::repo_find_commit(&repo, head_id) {
        parents.push(c);
    }
    if let Ok(c) = git::repo_find_commit(&repo, branch_id) {
        parents.push(c);
    }
    let message = merge_message(name.as_str());
    if let Err(e) = git::repo_commit(&repo, "HEAD", &signature, message.as_str(), &tree, &parents) {
        return Err(git_error(&e));
    }
    if let Err(e) = git::repo_cleanup_state(&repo) {
        return Err(git_error(&e));
    }
    let none: Vec<String> = Vec::new();
    proof {
        assert(conflict_paths_of(Seq::empty()) == none.deep_view());
    }
    Ok(MergeResult::Merged { conflicts: none })
}

/// The outcome of a rebase after `count` replayed commits, stopped by the
/// error `err` if any.
pub fn rebase_outcome(count: u32, err: Option<String>) -> (res: RebaseResult)
    ensures
        res.success == err is None,
        res.commits_rebased == count,
        res.error_message.deep_view() == err.deep_view(),
{
    match err {
        Some(e) => RebaseResult { success: false, commits_rebased: count, error_message: Some(e) },
        None => RebaseResult { success: true, commits_rebased: count, error_message: None },
    }
}

/// Rebases the current branch (the commits of `HEAD` since its merge base
/// with the local branch `onto`) onto that branch, committing each replayed
/// commit; when the rebase finishes, the current branch points at the last
/// replayed commit. An operation that fails aborts the rebase and is
/// reported in the result.
#[verifier::loop_isolation(false)]
pub fn rebase_branch(state: &AppState, onto: String) -> (res: Result<RebaseResult, AppError>)
    ensures
        state.current_repo_path is None ==> res is Err && res->Err_0.deep_view() == AppErrorView::NoRepository,
        res is Err ==> res->Err_0 is Git || res->Err_0 is NoRepository,
        res matches Ok(r) ==> (r.success <==> r.error_message is None),
{
    let repo = get_repo(state)?;
    if !is_working_directory_clean(&repo) {
        return Err(dirty_error("rebasing"));
    }
    let onto_branch = match git::repo_find_branch(&repo, onto.as_str(), BranchKind::Local) {
        Ok(b) => b,
        Err(e) => return Err(git_error(&e)),
    };
    let onto_commit = match git::reference_peel_to_commit(git::branch_reference(&onto_branch)) {
        Ok(c) => c,
        Err(e) => return Err(git_error(&e)),
    };
    let head = match git::repo_head(&repo) {
        Ok(h) => h,
        Err(e) => return Err(git_error(&e)),
    };
    let upstream = match git::reference_peel_to_commit(&head) {
        Ok(c) => c,
        Err(e) => return Err(git_error(&e)),
    };
    let base = match git::repo_merge_base(&repo, git::commit_id(&upstream), git::commit_id(&onto_commit)) {
        Ok(b) => b,
        Err(e) => return Err(git_error(&e)),
    };
    let base_commit = match git::repo_find_commit(&repo, base) {
        Ok(c) => c,
        Err(e) => return Err(git_error(&e)),
    };
    let upstream_ann = match git::repo_reference_to_annotated_commit(&repo, &head) {
        Ok(a) => a,
        Err(e) => return Err(git_error(&e)),
    };
    let base_ann = match git::repo_find_annotated_commit(&repo, git::commit_id(&base_commit)) {
        Ok(a) => a,
        Err(e) => return Err(git_error(&e)),
    };
    let onto_ann = match git::repo_find_annotated_commit(&repo, git::commit_id(&onto_commit)) {
        Ok(a) => a,
        Err(e) => return Err(git_error(&e)),
    };
    let mut checkout = git::checkout_builder_new();
    git::checkout_safe(&mut checkout);
    let mut rebase_opts = git::rebase_options_new();
    git::rebase_options_checkout(&mut rebase_opts, checkout);
    let mut rebase = match git::repo_rebase(&repo, &upstream_ann, &base_ann, &onto_ann, &mut rebase_opts) {
        Ok(r) => r,
        Err(e) => return Err(git_error(&e)),
    };
    let mut commits_rebased: u32 = 0;
    // A rebase has one operation per replayed commit; the count of remaining
    // steps bounds the loop and keeps the counter in range.
    let mut steps_left: u32 = u32::MAX;
    while steps_left > 0
        invariant
            commits_rebased as int + steps_left as int <= u32::MAX as int,
        decreases steps_left,
    {
        steps_left = steps_left - 1;
        match git::rebase_next(&mut rebase) {
            None => break,
            Some(Ok(())) => {
                let signature = match git::repo_signature(&repo) {
                    Ok(s) => s,
                    Err(e) => return Err(git_error(&e)),
                };
                if let Err(e) = git::rebase_commit(&mut rebase, &signature) {
                    return Err(git_error(&e));
                }
                commits_rebased = commits_rebased + 1;
            }
            Some(Err(e)) => {
                if let Err(e2) = git::rebase_abort(&mut rebase) {
                    return Err(git_error(&e2));
                }
                return Ok(rebase_outcome(commits_rebased, Some(git::error_text(&e))));
            }
        }
    }
    if let Err(e) = git::rebase_finish(&mut rebase) {
        return Err(git_error(&e));
    }
    Ok(rebase_outcome(commits_rebased, None))
}

/// Cherry-picks the commit with the given id onto `HEAD`: refuses a working
/// directory with changes; when the pick leaves conflicts in the index,
/// stops there (the repository stays in the cherry-pick state); otherwise
/// commits the result with the picked commit's message and ends the
/// cherry-pick.
pub fn cherry_pick(state: &AppState, oid: String) -> (res: Result<(), AppError>)
    ensures
        state.current_repo_path is None ==> res is Err && res->Err_0.deep_view() == AppErrorView::NoRepository,
        res is Err ==> res->Err_0 is Git || res->Err_0 is NoRepository,
{
    let repo = get_repo(state)?;
    if !is_working_directory_clean(&repo) {
        return Err(dirty_error("cherry-picking"));
    }
    let commit_oid = match git::oid_parse(oid.as_str()) {
        Ok(o) => o,
        Err(e) => return Err(git_error(&e)),
    };
    let commit = match git::repo_find_commit(&repo, commit_oid) {
        Ok(c) => c,
        Err(e) => return Err(git_error(&e)),
    };
    let mut pick_opts = git::cherrypick_options_new();
    git::cherrypick_mainline(&mut pick_opts, 0);
    if let Err(e) = git::repo_cherrypick(&repo, &commit, &mut pick_opts) {
        return Err(git_error(&e));
    }
    let mut index = match git::repo_index(&repo) {
        Ok(i) => i,
        Err(e) => return Err(git_error(&e)),
    };
    if git::index_has_conflicts(&index) {
        return Ok(());
    }
    let tree_id = match git::index_write_tree(&mut index) {
        Ok(t) => t,
        Err(e) => return Err(git_error(&e)),
    };
    let tree = match git::repo_find_tree(&repo, tree_id) {
        Ok(t) => t,
        Err(e) => return Err(git_error(&e)),
    };
    let signature = match git::repo_signature(&repo) {
        Ok(s) => s,
        Err(e) => return Err(git_error(&e)),
    };
    let head = match git::repo_head(&repo) {
        Ok(h) => h,
        Err(e) => return Err(git_error(&e)),
    };
    let parent = match git::reference_peel_to_commit(&head) {
        Ok(c) => c,
        Err(e) => return Err(git_error(&e)),
    };
    let message = text_or(&git::commit_message(&commit), "Cherry-picked commit");
    let mut parents: Vec<git2::Commit> = Vec::new();
    parents.push(parent);
    if let Err(e) = git::repo_commit(&repo, "HEAD", &signature, message.as_str(), &tree, &parents) {
        return Err(git_error(&e));
    }
    match git::repo_cleanup_state(&repo) {
        Ok(()) => Ok(()),
        Err(e) => Err(git_error(&e)),
    }
}

/// The description of an annotated tag.
pub open spec fn annotated_tag_of(name: Seq<char>, target_oid: Seq<char>, kind: Option<ObjectKind>, message: Option<Seq<char>>, tagger: Option<(Option<Seq<char>>, i64)>) -> TagInfoView {
    TagInfoView {
        name: name,
        oid: target_oid,
        tag_type: annotated_target_type(kind),
        message: message,
        tagger: match tagger { Some((n, _)) => n, None => None },
        timestamp: match tagger { Some((_, t)) => Some(t), None => None },
    }
}

/// The description of a lightweight tag.
pub open spec fn lightweight_tag_of(name: Seq<char>, oid: Seq<char>, kind: Option<ObjectKind>) -> TagInfoView {
    TagInfoView { name: name, oid: oid, tag_type: lightweight_target_type(kind), message: None, tagger: None, timestamp: None }
}

/// A description of the tag named `name`: of an annotated or of a
/// lightweight tag.
pub open spec fn describes_tag(t: TagInfoView, name: Seq<char>) -> bool {
    (exists|o: Seq<char>, k: Option<ObjectKind>, m: Option<Seq<char>>, g: Option<(Option<Seq<char>>, i64)>|
        #[trigger] annotated_tag_of(name, o, k, m, g) == t)
    || (exists|o: Seq<char>, k: Option<ObjectKind>| #[trigger] lightweight_tag_of(name, o, k) == t)
}

/// Describes one tag.
fn tag_info(repo: &git2::Repository, name: &str) -> (res: Result<TagInfo, AppError>)
    ensures
        res is Err ==> res->Err_0 is Git,
        res is Ok ==> describes_tag(res->Ok_0.deep_view(), name@),
{
    let refname = tag_refname(name);
    let obj = match git::repo_revparse_single(repo, refname.as_str()) {
        Ok(o) => o,
        Err(e) => return Err(git_error(&e)),
    };
    match git::object_into_tag(obj) {
        Ok(tag) => {
            let target = match git::tag_target(&tag) {
                Ok(t) => t,
                Err(e) => return Err(git_error(&e)),
            };
            let tagger = git::tag_tagger(&tag);
            let signed: Option<(Option<String>, i64)> = match &tagger {
                Some(sig) => Some((git::signature_name(sig), git::signature_seconds(sig))),
                None => None,
            };
            let (tagger_name, timestamp) = match &signed {
                Some((n, t)) => (match n { Some(s) => Some(own(s.as_str())), None => None }, Some(*t)),
                None => (None, None),
            };
            let kind = git::object_kind(&target);
            let info = TagInfo {
                name: own(name),
                oid: git::oid_hex(&git::object_id(&target)),
                tag_type: annotated_type_label(kind),
                message: git::tag_message(&tag),
                tagger: tagger_name,
                timestamp,
            };
            proof {
                let g = match signed { Some((n, t)) => Some((n.deep_view(), t)), None => None };
                assert(annotated_tag_of(name@, info.oid@, kind, info.message.deep_view(), g) == info.deep_view());
            }
            Ok(info)
        }
        Err(_) => {
            let obj = match git::repo_revparse_single(repo, refname.as_str()) {
                Ok(o) => o,
                Err(e) => return Err(git_error(&e)),
            };
            let kind = git::object_kind(&obj);
            let info = TagInfo {
                name: own(name),
                oid: git::oid_hex(&git::object_id(&obj)),
                tag_type: lightweight_type_label(kind),
                message: None,
                tagger: None,
                timestamp: None,
            };
            proof {
                assert(lightweight_tag_of(name@, info.oid@, kind) == info.deep_view());
            }
            Ok(info)
        }
    }
}

/// The names of a tag listing that are UTF-8, in listing order.
pub open spec fn kept_tag_names(ns: Seq<Option<Seq<char>>>) -> Seq<Seq<char>>
    decreases ns.len(),
{
    if ns.len() == 0 {
        Seq::empty()
    } else {
        match ns.last() {
            Some(n) => kept_tag_names(ns.drop_last()).push(n),
            None => kept_tag_names(ns.drop_last()),
        }
    }
}

/// The names of a tag listing that are UTF-8, in listing order.
pub fn utf8_tag_names(names: &Vec<Option<String>>) -> (res: Vec<String>)
    ensures
        res.deep_view() == kept_tag_names(names.deep_view()),
{
    let ghost ns = names.deep_view();
    let mut out: Vec<String> = Vec::new();
    let mut i: usize = 0;
    while i < names.len()
        invariant
            i <= names.len(),
            ns == names.deep_view(),
            out.deep_view() == kept_tag_names(ns.subrange(0, i as int)),
        decreases names.len() - i,
    {
        proof {
            assert(ns.subrange(0, i + 1).drop_last() =~= ns.subrange(0, i as int));
            assert(ns.subrange(0, i + 1).last() == ns[i as int]);
        }
        if let Some(n) = &names[i] {
            let ghost before = out.deep_view();
            out.push(own(n.as_str()));
            proof {
                assert(out.deep_view() =~= before.push(n@));
            }
        }
        i = i + 1;
    }
    proof {
        assert(ns.subrange(0, names.len() as int) =~= ns);
    }
    out
}

/// All tags (names that are not UTF-8 are skipped), each with the object it
/// points to; annotated tags also with message, tagger and time: one entry
/// per kept name, in listing order.
#[verifier::loop_isolation(false)]
pub fn get_tags(state: &AppState) -> (res: Result<Vec<TagInfo>, AppError>)
    ensures
        state.current_repo_path is None ==> res is Err && res->Err_0.deep_view() == AppErrorView::NoRepository,
        res is Err ==> res->Err_0 is Git || res->Err_0 is NoRepository,
        res is Ok ==> exists|ns: Seq<Option<Seq<char>>>| {
            &&& res->Ok_0.len() == kept_tag_names(ns).len()
            &&& forall|i: int| 0 <= i < res->Ok_0.len() ==>
                describes_tag(#[trigger] res->Ok_0.deep_view()[i], kept_tag_names(ns)[i])
        },
{
    let repo = get_repo(state)?;
    let names = match git::repo_tag_names(&repo) {
        Ok(n) => n,
        Err(e) => return Err(git_error(&e)),
    };
    let kept = utf8_tag_names(&names);
    let ghost kv = kept.deep_view();
    let mut tags: Vec<TagInfo> = Vec::new();
    let mut i: usize = 0;
    while i < kept.len()
        invariant
            i <= kept.len(),
            kv == kept.deep_view(),
            tags.len() == i,
            forall|k: int| 0 <= k < i ==> describes_tag(#[trigger] tags.deep_view()[k], kv[k]),
        decreases kept.len() - i,
    {
        let info = tag_info(&repo, kept[i].as_str())?;
        let ghost before = tags.deep_view();
        tags.push(info);
        proof {
            assert(tags.deep_view() =~= before.push(info.deep_view()));
            assert(kv[i as int] == kept@[i as int]@);
            assert forall|k: int| 0 <= k < i + 1 implies describes_tag(#[trigger] tags.deep_view()[k], kv[k]) by {
                if k < i {
                    assert(tags.deep_view()[k] == before[k]);
                }
            }
        }
        i = i + 1;
    }
    proof {
        assert(kv == kept_tag_names(names.deep_view()));
    }
    Ok(tags)
}

/// Creates a tag on the object with the given id, or on the commit `HEAD`
/// points to: annotated (signed with the configured identity) when a message
/// is given, lightweight otherwise.
pub fn create_tag(state: &AppState, name: String, oid: Option<String>, message: Option<String>) -> (res: Result<(), AppError>)
    ensures
        state.current_repo_path is None ==> res is Err && res->Err_0.deep_view() == AppErrorView::NoRepository,
        res is Err ==> res->Err_0 is Git || res->Err_0 is NoRepository,
{
    let repo = get_repo(state)?;
    let target = match &oid {
        Some(oid_str) => {
            let id = match git::oid_parse(oid_str.as_str()) {
                Ok(o) => o,
                Err(e) => return Err(git_error(&e)),
            };
            match git::repo_find_object(&repo, id) {
                Ok(o) => o,
                Err(e) => return Err(git_error(&e)),
            }
        }
        None => {
            let head = match git::repo_head(&repo) {
                Ok(h) => h,
                Err(e) => return Err(git_error(&e)),
            };
            let commit = match git::reference_peel_to_commit(&head) {
                Ok(c) => c,
                Err(e) => return Err(git_error(&e)),
            };
            match git::repo_find_object(&repo, git::commit_id(&commit)) {
                Ok(o) => o,
                Err(e) => return Err(git_error(&e)),
            }
        }
    };
    let signature = match git::repo_signature(&repo) {
        Ok(s) => s,
        Err(e) => return Err(git_error(&e)),
    };
    let created = match &message {
        Some(msg) => git::repo_tag_annotated(&repo, name.as_str(), &target, &signature, msg.as_str()),
        None => git::repo_tag_lightweight(&repo, name.as_str(), &target),
    };
    match created {
        Ok(_) => Ok(()),
        Err(e) => Err(git_error(&e)),
    }
}

} // verus!
