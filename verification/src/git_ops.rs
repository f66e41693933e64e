//! The overview commands: recent history, repository status with
//! ahead/behind counts, committing the index, and the patch of one file.
use vstd::prelude::*;
use crate::commit::{CommitFacts, CommitFactsView, or_default, text_or, read_commit, SourcedTree, TreeOrigin, diff_trees};
use crate::error::{AppError, AppErrorView, git_error, git_refusal};
use crate::git::{self, StatusFlag, StatusQuery, StatusRecord, StatusRecordView, PatchLine, has_flag};
use crate::state::AppState;
use crate::text::{own, ends_with_char, free_of_nul, contains_nul};

verus! {

broadcast use vstd::string::group_string_axioms;

/// A commit of the recent history.
#[derive(Debug)]
pub struct CommitInfo {
    pub id: String,
    pub message: String,
    pub author: String,
    pub email: String,
    pub timestamp: i64,
}

/// The view of a [`CommitInfo`].
pub struct CommitInfoView {
    pub id: Seq<char>,
    pub message: Seq<char>,
    pub author: Seq<char>,
    pub email: Seq<char>,
    pub timestamp: i64,
}

impl DeepView for CommitInfo {
    type V = CommitInfoView;

    open spec fn deep_view(&self) -> CommitInfoView {
        CommitInfoView { id: self.id@, message: self.message@, author: self.author@, email: self.email@, timestamp: self.timestamp }
    }
}

/// A changed file of the repository status: its path, a label, and whether
/// the change is staged.
#[derive(Debug)]
pub struct FileStatus {
    pub path: String,
    pub status: String,
    pub staged: bool,
}

/// The view of a [`FileStatus`].
pub struct FileStatusView {
    pub path: Seq<char>,
    pub status: Seq<char>,
    pub staged: bool,
}

impl DeepView for FileStatus {
    type V = FileStatusView;

    open spec fn deep_view(&self) -> FileStatusView {
        FileStatusView { path: self.path@, status: self.status@, staged: self.staged }
    }
}

/// The repository status: current branch, commits ahead of and behind its
/// upstream, and the changed files.
#[derive(Debug)]
pub struct RepoStatus {
    pub branch: Option<String>,
    pub ahead: usize,
    pub behind: usize,
    pub files: Vec<FileStatus>,
}

/// The view of a [`RepoStatus`].
pub struct RepoStatusView {
    pub branch: Option<Seq<char>>,
    pub ahead: usize,
    pub behind: usize,
    pub files: Seq<FileStatusView>,
}

impl DeepView for RepoStatus {
    type V = RepoStatusView;

    open spec fn deep_view(&self) -> RepoStatusView {
        RepoStatusView { branch: self.branch.deep_view(), ahead: self.ahead, behind: self.behind, files: self.files.deep_view() }
    }
}

// ---------------------------------------------------------------------------
// History
// ---------------------------------------------------------------------------

/// How many commits the recent history holds at most.
pub const HISTORY_LENGTH: usize = 100;

/// A commit of the recent history: a missing message or e-mail is empty, a
/// missing author name is `Unknown`.
pub open spec fn info_of(f: CommitFactsView) -> CommitInfoView {
    CommitInfoView {
        id: f.oid,
        message: or_default(f.message, ""@),
        author: or_default(f.author_name, "Unknown"@),
        email: or_default(f.author_email, ""@),
        timestamp: f.time,
    }
}

/// The history entries of a sequence of commits.
pub open spec fn infos_of(fs: Seq<CommitFactsView>) -> Seq<CommitInfoView> {
    fs.map_values(|f: CommitFactsView| info_of(f))
}

/// A commit of the recent history.
pub fn commit_info(f: &CommitFacts) -> (res: CommitInfo)
    ensures
        res.deep_view() == info_of(f.deep_view()),
{
    CommitInfo {
        id: own(f.oid.as_str()),
        message: text_or(&f.message, ""),
        author: text_or(&f.author_name, "Unknown"),
        email: text_or(&f.author_email, ""),
        timestamp: f.time,
    }
}

/// The path of the open repository, or `NoRepository`.
fn opened(state: &AppState) -> (res: Result<String, AppError>)
    ensures
        state.current_repo_path is None ==> res is Err && res->Err_0.deep_view() == AppErrorView::NoRepository,
        state.current_repo_path is Some ==> res is Ok && res->Ok_0@ == state.current_repo_path->0@,
{
    match &state.current_repo_path {
        Some(p) => Ok(own(p.as_str())),
        None => Err(AppError::NoRepository),
    }
}

/// The last 100 commits reachable from `HEAD`, newest first (in the walk's
/// default order); commits that cannot be walked or read are left out.
pub fn get_commit_history(state: &AppState) -> (res: Result<Vec<CommitInfo>, AppError>)
    ensures
        state.current_repo_path is None ==> res is Err && res->Err_0.deep_view() == AppErrorView::NoRepository,
        state.current_repo_path is Some && res is Err ==> res->Err_0 is Git,
        res is Ok ==> exists|fs: Seq<CommitFactsView>| fs.len() <= HISTORY_LENGTH
            && #[trigger] infos_of(fs) == res->Ok_0.deep_view(),
{
    let repo_path = opened(state)?;
    let repo = crate::status::open_repo(repo_path.as_str())?;
    let mut walk = match git::repo_revwalk(&repo) {
        Ok(w) => w,
        Err(e) => return Err(git_error(&e)),
    };
    if let Err(e) = git::revwalk_push_head(&mut walk) {
        return Err(git_error(&e));
    }
    let ghost mut fs: Seq<CommitFactsView> = Seq::empty();
    let mut infos: Vec<CommitInfo> = Vec::new();
    // A walk yields each commit of the repository at most once; the count of
    // remaining steps bounds the loop.
    let mut steps_left: usize = usize::MAX;
    while infos.len() < HISTORY_LENGTH && steps_left > 0
        invariant
            infos.len() <= HISTORY_LENGTH,
            infos_of(fs) == infos.deep_view(),
        decreases steps_left,
    {
        steps_left = steps_left - 1;
        let oid = match git::revwalk_next(&mut walk) {
            None => break,
            Some(Err(_)) => continue,
            Some(Ok(o)) => o,
        };
        let commit = match git::repo_find_commit(&repo, oid) {
            Ok(c) => c,
            Err(_) => continue,
        };
        let facts = read_commit(&commit);
        let info = commit_info(&facts);
        let ghost before = infos.deep_view();
        infos.push(info);
        proof {
            let old_fs = fs;
            fs = fs.push(facts.deep_view());
            assert(infos.deep_view() =~= before.push(info_of(facts.deep_view())));
            assert(infos_of(fs) =~= infos_of(old_fs).push(info_of(facts.deep_view())));
        }
    }
    Ok(infos)
}

// ---------------------------------------------------------------------------
// Repository status
// ---------------------------------------------------------------------------

/// The label of a changed file: `untracked`, then staged additions, unstaged
/// modifications, staged modifications, unstaged deletions, staged
/// deletions, else `changed`.
pub open spec fn status_label(bits: u32) -> Seq<char> {
    if has_flag(bits, StatusFlag::WtNew) {
        "untracked"@
    } else if has_flag(bits, StatusFlag::IndexNew) {
        "staged"@
    } else if has_flag(bits, StatusFlag::WtModified) {
        "modified"@
    } else if has_flag(bits, StatusFlag::IndexModified) {
        "staged"@
    } else if has_flag(bits, StatusFlag::WtDeleted) {
        "deleted"@
    } else if has_flag(bits, StatusFlag::IndexDeleted) {
        "staged"@
    } else {
        "changed"@
    }
}

/// A change counts as staged when it is a staged addition, modification or deletion.
pub open spec fn staged_flag(bits: u32) -> bool {
    has_flag(bits, StatusFlag::IndexNew) || has_flag(bits, StatusFlag::IndexModified) || has_flag(bits, StatusFlag::IndexDeleted)
}

/// The reported status of one entry (path `unknown` when it has none).
pub open spec fn file_status_of(r: StatusRecordView) -> FileStatusView {
    FileStatusView { path: or_default(r.path, "unknown"@), status: status_label(r.bits), staged: staged_flag(r.bits) }
}

/// The reported statuses of a status listing.
pub open spec fn file_statuses_of(rs: Seq<StatusRecordView>) -> Seq<FileStatusView> {
    rs.map_values(|r: StatusRecordView| file_status_of(r))
}

/// The label of a status word.
pub fn label_for(bits: u32) -> (res: &'static str)
    ensures
        res@ == status_label(bits),
{
    if git::status_contains(bits, StatusFlag::WtNew) {
        "untracked"
    } else if git::status_contains(bits, StatusFlag::IndexNew) {
        "staged"
    } else if git::status_contains(bits, StatusFlag::WtModified) {
        "modified"
    } else if git::status_contains(bits, StatusFlag::IndexModified) {
        "staged"
    } else if git::status_contains(bits, StatusFlag::WtDeleted) {
        "deleted"
    } else if git::status_contains(bits, StatusFlag::IndexDeleted) {
        "staged"
    } else {
        "changed"
    }
}

/// The reported status of one entry.
pub fn file_status(r: &StatusRecord) -> (res: FileStatus)
    ensures
        res.deep_view() == file_status_of(r.deep_view()),
{
    let staged = git::status_contains(r.bits, StatusFlag::IndexNew)
        || git::status_contains(r.bits, StatusFlag::IndexModified)
        || git::status_contains(r.bits, StatusFlag::IndexDeleted);
    FileStatus { path: text_or(&r.path, "unknown"), status: own(label_for(r.bits)), staged }
}

/// A file labelled `staged` is flagged as staged, and a file flagged as
/// staged is labelled `staged` unless it is untracked or has an unstaged
/// modification or deletion that the label names first.
pub proof fn law_staged_label(bits: u32)
    ensures
        status_label(bits) == "staged"@ ==> staged_flag(bits),
        staged_flag(bits) && !has_flag(bits, StatusFlag::WtNew) && !has_flag(bits, StatusFlag::WtModified)
            && !has_flag(bits, StatusFlag::WtDeleted) ==> status_label(bits) == "staged"@,
{
    reveal_strlit("staged");
    reveal_strlit("untracked");
    reveal_strlit("modified");
    reveal_strlit("deleted");
    reveal_strlit("changed");
    assert("staged"@.len() == 6);
    assert("untracked"@.len() == 9);
    assert("modified"@.len() == 8);
    assert("deleted"@ != "staged"@) by {
        assert("deleted"@[0] != "staged"@[0]);
    }
    assert("changed"@ != "staged"@) by {
        assert("changed"@[0] != "staged"@[0]);
    }
}

/// The reported statuses of a status listing, in order.
pub fn file_statuses(records: &Vec<StatusRecord>) -> (res: Vec<FileStatus>)
    ensures
        res.deep_view() == file_statuses_of(records.deep_view()),
{
    let mut out: Vec<FileStatus> = Vec::new();
    let mut i: usize = 0;
    while i < records.len()
        invariant
            i <= records.len(),
            out.deep_view() == records.deep_view().subrange(0, i as int).map_values(|r: StatusRecordView| file_status_of(r)),
        decreases records.len() - i,
    {
        let f = file_status(&records[i]);
        let ghost before = out.deep_view();
        out.push(f);
        proof {
            assert(out.deep_view() =~= before.push(file_status_of(records.deep_view()[i as int])));
            assert(out.deep_view() =~= records.deep_view().subrange(0, i + 1).map_values(|r: StatusRecordView| file_status_of(r)));
        }
        i = i + 1;
    }
    proof {
        assert(records.deep_view().subrange(0, records.len() as int) =~= records.deep_view());
    }
    out
}

/// The ahead/behind pair reported: the count when there is one, else 0 and 0.
pub open spec fn reported_counts_of(c: Option<(usize, usize)>) -> (usize, usize) {
    match c {
        Some(pair) => pair,
        None => (0, 0),
    }
}

/// The ahead/behind pair reported for an optional count.
pub fn reported_counts(c: Option<(usize, usize)>) -> (res: (usize, usize))
    ensures
        res == reported_counts_of(c),
{
    match c {
        Some(pair) => pair,
        None => (0, 0),
    }
}

/// The ahead/behind pair reported for the answer of
/// `graph_ahead_behind(local, upstream)`: when it counted, the pair in its
/// order, ahead (commits of the local branch that the upstream lacks) first
/// and behind (commits of the upstream that the local branch lacks) second;
/// 0 and 0 when it failed.
pub fn counts_of_graph(counted: &Result<(usize, usize), git2::Error>) -> (res: (usize, usize))
    ensures
        counted matches Ok(c) ==> res.0 == c.0 && res.1 == c.1,
        counted is Err ==> res.0 == 0 && res.1 == 0,
{
    match counted {
        Ok(c) => reported_counts(Some(*c)),
        Err(_) => reported_counts(None),
    }
}

/// Commits ahead of and behind the upstream of the named local branch; 0 and
/// 0 when the branch, its upstream or either target is missing, or the
/// count fails.
fn ahead_behind_of_branch(repo: &git2::Repository, name: &str) -> (res: (usize, usize)) {
    let local = match git::repo_find_branch(repo, name, git::BranchKind::Local) {
        Ok(b) => b,
        Err(_) => return reported_counts(None),
    };
    let upstream = match git::branch_upstream(&local) {
        Ok(u) => u,
        Err(_) => return reported_counts(None),
    };
    let local_oid = git::reference_target(git::branch_reference(&local));
    let upstream_oid = git::reference_target(git::branch_reference(&upstream));
    match (local_oid, upstream_oid) {
        (Some(l), Some(u)) => counts_of_graph(&git::repo_graph_ahead_behind(repo, l, u)),
        _ => reported_counts(None),
    }
}

/// The status query of the repository status: untracked files, recursing
/// into untracked directories, without rename detection.
pub fn repo_status_query() -> (q: StatusQuery)
    ensures
        q.include_untracked,
        q.recurse_untracked_dirs,
        !q.renames_head_to_index,
        !q.renames_index_to_workdir,
{
    StatusQuery {
        include_untracked: true,
        recurse_untracked_dirs: true,
        renames_head_to_index: false,
        renames_index_to_workdir: false,
    }
}

/// The repository status: the current branch (the short name of `HEAD`),
/// its ahead/behind counts, and every changed or untracked file (recursing
/// into untracked directories).
pub fn get_repo_status(state: &AppState) -> (res: Result<RepoStatus, AppError>)
    ensures
        state.current_repo_path is None ==> res is Err && res->Err_0.deep_view() == AppErrorView::NoRepository,
        state.current_repo_path is Some && res is Err ==> res->Err_0 is Git,
        res is Ok && res->Ok_0.branch is None ==> res->Ok_0.ahead == 0 && res->Ok_0.behind == 0,
        res is Ok ==> exists|rs: Seq<StatusRecordView>|
            #[trigger] file_statuses_of(rs) == res->Ok_0.files.deep_view(),
{
    let repo_path = opened(state)?;
    let repo = crate::status::open_repo(repo_path.as_str())?;
    let branch = match git::repo_head(&repo) {
        Ok(head) => git::reference_shorthand(&head),
        Err(_) => None,
    };
    let (ahead, behind) = match &branch {
        Some(name) => ahead_behind_of_branch(&repo, name.as_str()),
        None => (0, 0),
    };
    let q = repo_status_query();
    let records = match git::repo_statuses(&repo, q) {
        Ok(r) => r,
        Err(e) => return Err(git_error(&e)),
    };
    let files = file_statuses(&records);
    Ok(RepoStatus { branch, ahead, behind, files })
}

// ---------------------------------------------------------------------------
// Committing the index
// ---------------------------------------------------------------------------

/// Commits the index on `HEAD` with the repository's configured signature;
/// refuses an empty index. Returns the new commit's id.
pub fn create_commit(state: &AppState, message: String) -> (res: Result<String, AppError>)
    ensures
        state.current_repo_path is None ==> res is Err && res->Err_0.deep_view() == AppErrorView::NoRepository,
        state.current_repo_path is Some && res is Err ==> res->Err_0 is Git,
{
    let repo_path = opened(state)?;
    let repo = crate::status::open_repo(repo_path.as_str())?;
    let mut index = match git::repo_index(&repo) {
        Ok(i) => i,
        Err(e) => return Err(git_error(&e)),
    };
    if git::index_is_empty(&index) {
        return Err(git_refusal("Nothing to commit"));
    }
    let tree_id = match git::index_write_tree(&mut index) {
        Ok(t) => t,
        Err(e) => return Err(git_error(&e)),
    };
    let tree = match git::repo_find_tree(&repo, tree_id) {
        Ok(t) => t,
        Err(e) => return Err(git_error(&e)),
    };
    let signature = match git::repo_signature(&repo) {
        Ok(s) => s,
        Err(e) => return Err(git_error(&e)),
    };
    let mut parents: Vec<git2::Commit> = Vec::new();
    if let Ok(head) = git::repo_head(&repo) {
        let target = match git::reference_target(&head) {
            Some(t) => t,
            None => return Err(git_refusal("HEAD has no target")),
        };
        match git::repo_find_commit(&repo, target) {
            Ok(c) => parents.push(c),
            Err(e) => return Err(git_error(&e)),
        }
    }
    match git::repo_commit(&repo, "HEAD", &signature, message.as_str(), &tree, &parents) {
        Ok(oid) => Ok(git::oid_hex(&oid)),
        Err(e) => Err(git_error(&e)),
    }
}

// ---------------------------------------------------------------------------
// The patch of one file
// ---------------------------------------------------------------------------

/// The view of a [`PatchLine`].
pub struct PatchLineView {
    pub origin: char,
    pub content: Seq<char>,
}

impl DeepView for PatchLine {
    type V = PatchLineView;

    open spec fn deep_view(&self) -> PatchLineView {
        PatchLineView { origin: self.origin, content: self.content@ }
    }
}

/// The marker printed before a patch line: `+` for additions (`+`, `>`,
/// `B`), `-` for deletions (`-`, `<`), a space for context (` `, `=`, `|`),
/// nothing for headers.
pub open spec fn origin_marker(c: char) -> Seq<char> {
    if c == '+' || c == '>' || c == 'B' {
        "+"@
    } else if c == '-' || c == '<' {
        "-"@
    } else if c == ' ' || c == '=' || c == '|' {
        " "@
    } else {
        ""@
    }
}

/// One printed line: marker, content, and a newline when the content does
/// not end with one.
pub open spec fn line_text(l: PatchLineView) -> Seq<char> {
    origin_marker(l.origin) + l.content + if l.content.len() > 0 && l.content.last() == '\n' { ""@ } else { "\n"@ }
}

/// The text of a patch: its printed lines one after the other.
pub open spec fn patch_text(ls: Seq<PatchLineView>) -> Seq<char>
    decreases ls.len(),
{
    if ls.len() == 0 { Seq::empty() } else { patch_text(ls.drop_last()) + line_text(ls.last()) }
}

/// The marker for a line origin.
pub fn marker_for(c: char) -> (res: &'static str)
    ensures
        res@ == origin_marker(c),
{
    if c == '+' || c == '>' || c == 'B' {
        "+"
    } else if c == '-' || c == '<' {
        "-"
    } else if c == ' ' || c == '=' || c == '|' {
        " "
    } else {
        ""
    }
}

/// Renders patch lines as text.
pub fn render_patch(lines: &Vec<PatchLine>) -> (res: String)
    ensures
        res@ == patch_text(lines.deep_view()),
{
    let ghost ls = lines.deep_view();
    let mut text = String::new();
    let mut i: usize = 0;
    while i < lines.len()
        invariant
            i <= lines.len(),
            ls == lines.deep_view(),
            text@ == patch_text(ls.subrange(0, i as int)),
        decreases lines.len() - i,
    {
        let l = &lines[i];
        proof {
            assert(ls.subrange(0, i + 1).drop_last() =~= ls.subrange(0, i as int));
            assert(ls.subrange(0, i + 1).last() == l.deep_view());
        }
        text.append(marker_for(l.origin));
        text.append(l.content.as_str());
        if !ends_with_char(l.content.as_str(), '\n') {
            text.append("\n");
        } else {
            proof { reveal_strlit(""); }
        }
        proof {
            reveal_strlit("\n");
            reveal_strlit("");
            assert(text@ =~= patch_text(ls.subrange(0, i + 1)));
        }
        i = i + 1;
    }
    proof {
        assert(ls.subrange(0, lines.len() as int) =~= ls);
    }
    text
}

/// The text of one patch after another is the patch of both.
pub proof fn law_patch_concat(a: Seq<PatchLineView>, b: Seq<PatchLineView>)
    ensures
        patch_text(a + b) == patch_text(a) + patch_text(b),
    decreases b.len(),
{
    if b.len() == 0 {
        assert(a + b =~= a);
        assert(patch_text(a) + patch_text(b) =~= patch_text(a));
    } else {
        law_patch_concat(a, b.drop_last());
        assert((a + b).drop_last() =~= a + b.drop_last());
        assert((a + b).last() == b.last());
        assert(patch_text(a + b) =~= patch_text(a) + patch_text(b));
    }
}

/// Every non-empty patch text ends with a newline.
pub proof fn law_patch_ends_with_newline(ls: Seq<PatchLineView>)
    ensures
        patch_text(ls).len() == 0 || patch_text(ls).last() == '\n',
{
    reveal_strlit("\n");
    reveal_strlit("");
    if ls.len() > 0 {
        let l = ls.last();
        let t = line_text(l);
        assert(t.len() > 0);
        assert(patch_text(ls).last() == t.last());
    }
}

/// The path a diff is limited to: `path` made relative to the repository
/// directory `base` when it lies inside it, else `path` itself.
pub open spec fn diff_path_of(path: Seq<char>, base: Seq<char>) -> Seq<char> {
    match git::stripped_path(path, base) {
        Some(r) => r,
        None => path,
    }
}

/// The path a diff is limited to.
pub fn relative_path(path: &str, base: &str) -> (res: String)
    ensures
        res@ == diff_path_of(path@, base@),
{
    match git::path_strip_prefix(path, base) {
        Some(r) => r,
        None => own(path),
    }
}

/// The patch reported for a file: the unstaged patch when it is not empty,
/// else the staged patch when there is one, else the empty text.
pub open spec fn chosen_patch(unstaged: Seq<char>, staged: Option<Seq<char>>) -> Seq<char> {
    if unstaged.len() > 0 {
        unstaged
    } else {
        match staged {
            Some(s) => s,
            None => unstaged,
        }
    }
}

/// Chooses the patch reported for a file.
pub fn choose_patch(unstaged: String, staged: Option<String>) -> (res: String)
    ensures
        res@ == chosen_patch(unstaged@, staged.deep_view()),
{
    if unstaged.unicode_len() > 0 {
        unstaged
    } else {
        match staged {
            Some(s) => s,
            None => unstaged,
        }
    }
}

/// The text of an optional patch.
pub open spec fn staged_patch_text(ls: Option<Seq<PatchLineView>>) -> Option<Seq<char>> {
    match ls {
        Some(l) => Some(patch_text(l)),
        None => None,
    }
}

/// The patch of one file: the unstaged changes; when there are none and
/// `HEAD` exists, the staged changes against `HEAD`. A path inside the
/// repository is made relative to it first; a path with a NUL character
/// names no file and is refused with `InvalidPath`.
pub fn get_diff(state: &AppState, path: String) -> (res: Result<String, AppError>)
    ensures
        state.current_repo_path is None ==> res is Err && res->Err_0.deep_view() == AppErrorView::NoRepository,
        state.current_repo_path is Some && !free_of_nul(path@) ==> res is Err
            && res->Err_0.deep_view() == AppErrorView::InvalidPath(path@),
        state.current_repo_path is Some && res is Err ==> res->Err_0 is Git || res->Err_0 is InvalidPath,
        res is Ok ==> exists|unstaged: Seq<PatchLineView>, staged: Option<Seq<PatchLineView>>|
            #[trigger] chosen_patch(patch_text(unstaged), staged_patch_text(staged)) == res->Ok_0@,
        res is Ok ==> exists|ls: Seq<PatchLineView>| #[trigger] patch_text(ls) == res->Ok_0@,
{
    let repo_path = opened(state)?;
    if contains_nul(path.as_str()) {
        return Err(AppError::InvalidPath(path));
    }
    let repo = crate::status::open_repo(repo_path.as_str())?;
    let relative = relative_path(path.as_str(), repo_path.as_str());
    if contains_nul(relative.as_str()) {
        return Err(AppError::InvalidPath(path));
    }
    let mut diff_opts = git::diff_options_new();
    git::diff_pathspec(&mut diff_opts, relative.as_str());
    let diff = match git::repo_diff_index_to_workdir(&repo, &mut diff_opts) {
        Ok(d) => d,
        Err(e) => return Err(git_error(&e)),
    };
    let lines = match git::diff_patch_lines(&diff) {
        Ok(l) => l,
        Err(e) => return Err(git_error(&e)),
    };
    let text = render_patch(&lines);
    let staged = if text.unicode_len() > 0 { None } else { staged_patch(&repo, &mut diff_opts)? };
    let ghost staged_view = staged.deep_view();
    let ghost unstaged_text = text@;
    let res = choose_patch(text, staged);
    proof {
        let u = lines.deep_view();
        let st: Option<Seq<PatchLineView>> = match staged_view {
            Some(t) => Some(choose|ls: Seq<PatchLineView>| #[trigger] patch_text(ls) == t),
            None => None,
        };
        assert(staged_patch_text(st) == staged_view);
        assert(chosen_patch(patch_text(u), staged_patch_text(st)) == res@);
        if unstaged_text.len() > 0 || staged_view is None {
            assert(patch_text(u) == res@);
        } else {
            assert(patch_text(st->0) == res@);
        }
    }
    Ok(res)
}

/// The staged patch limited by the options: the diff from the tree of
/// `HEAD` to the tree of the index; `None` when `HEAD` cannot be read.
fn staged_patch(repo: &git2::Repository, diff_opts: &mut git2::DiffOptions) -> (res: Result<Option<String>, AppError>)
    ensures
        res matches Ok(Some(t)) ==> exists|ls: Seq<PatchLineView>| #[trigger] patch_text(ls) == t@,
        res is Err ==> res->Err_0 is Git,
{
    let head = match git::repo_head(repo) {
        Ok(h) => h,
        Err(_) => return Ok(None),
    };
    let target = match git::reference_target(&head) {
        Some(t) => t,
        None => return Err(git_refusal("HEAD has no target")),
    };
    let commit = match git::repo_find_commit(repo, target) {
        Ok(c) => c,
        Err(e) => return Err(git_error(&e)),
    };
    let old_tree = match git::commit_tree(&commit) {
        Ok(t) => SourcedTree { tree: t, origin: TreeOrigin::Head },
        Err(e) => return Err(git_error(&e)),
    };
    let mut index = match git::repo_index(repo) {
        Ok(i) => i,
        Err(e) => return Err(git_error(&e)),
    };
    let new_tree_id = match git::index_write_tree(&mut index) {
        Ok(t) => t,
        Err(e) => return Err(git_error(&e)),
    };
    let new_tree = match git::repo_find_tree(repo, new_tree_id) {
        Ok(t) => SourcedTree { tree: t, origin: TreeOrigin::Index },
        Err(e) => return Err(git_error(&e)),
    };
    let staged = match diff_trees(repo, &old_tree, &new_tree, diff_opts) {
        Ok(d) => d,
        Err(e) => return Err(git_error(&e)),
    };
    let staged_lines = match git::diff_patch_lines(&staged) {
        Ok(l) => l,
        Err(e) => return Err(git_error(&e)),
    };
    Ok(Some(render_patch(&staged_lines)))
}

} // verus!
