//! The working-tree status: which files are staged, which have unstaged
//! changes, which are untracked; and the commands that stage, unstage and
//! discard them.
use vstd::prelude::*;
use crate::error::{AppError, AppErrorView, git_error};
use crate::git::{self, StatusFlag, StatusQuery, StatusRecord, StatusRecordView, has_flag};
use crate::state::AppState;
use crate::text::{normalize_path, replace_char, replace_char_in, ends_with_char, own, free_of_nul, contains_nul};

verus! {

/// The kind of change of a file.
#[derive(Debug, Clone, Copy, PartialEq, Eq, Structural)]
pub enum StatusType {
    Added,
    Modified,
    Deleted,
    Renamed,
    TypeChange,
    Conflicted,
}

/// The status of one file: its path (with forward slashes), a second path
/// taken from its deltas (see `record_old_path`), and the kind of change.
#[derive(Debug)]
pub struct FileStatus {
    pub path: String,
    pub old_path: Option<String>,
    pub status_type: StatusType,
}

/// The view of a [`FileStatus`].
pub struct FileStatusView {
    pub path: Seq<char>,
    pub old_path: Option<Seq<char>>,
    pub status_type: StatusType,
}

impl DeepView for FileStatus {
    type V = FileStatusView;

    open spec fn deep_view(&self) -> FileStatusView {
        FileStatusView {
            path: self.path@,
            old_path: self.old_path.deep_view(),
            status_type: self.status_type,
        }
    }
}

/// The files of the working tree, in three lists.
#[derive(Debug)]
pub struct WorkingStatus {
    pub staged: Vec<FileStatus>,
    pub unstaged: Vec<FileStatus>,
    pub untracked: Vec<FileStatus>,
}

/// The view of a [`WorkingStatus`].
pub struct WorkingStatusView {
    pub staged: Seq<FileStatusView>,
    pub unstaged: Seq<FileStatusView>,
    pub untracked: Seq<FileStatusView>,
}

impl DeepView for WorkingStatus {
    type V = WorkingStatusView;

    open spec fn deep_view(&self) -> WorkingStatusView {
        WorkingStatusView {
            staged: self.staged.deep_view(),
            unstaged: self.unstaged.deep_view(),
            untracked: self.untracked.deep_view(),
        }
    }
}

// ---------------------------------------------------------------------------
// Classification of one status word
// ---------------------------------------------------------------------------

/// The kind of change that a status word stands for: a conflict first, then a
/// staged rename, a type change, a deletion, an addition; anything else is a
/// modification.
pub open spec fn status_type_of(bits: u32) -> StatusType {
    if has_flag(bits, StatusFlag::Conflicted) {
        StatusType::Conflicted
    } else if has_flag(bits, StatusFlag::IndexRenamed) {
        StatusType::Renamed
    } else if has_flag(bits, StatusFlag::IndexTypechange) || has_flag(bits, StatusFlag::WtTypechange) {
        StatusType::TypeChange
    } else if has_flag(bits, StatusFlag::IndexDeleted) || has_flag(bits, StatusFlag::WtDeleted) {
        StatusType::Deleted
    } else if has_flag(bits, StatusFlag::IndexNew) || has_flag(bits, StatusFlag::WtNew) {
        StatusType::Added
    } else {
        StatusType::Modified
    }
}

/// A change is recorded in the index (staged).
pub open spec fn is_staged_bits(bits: u32) -> bool {
    has_flag(bits, StatusFlag::IndexNew) || has_flag(bits, StatusFlag::IndexModified)
        || has_flag(bits, StatusFlag::IndexDeleted) || has_flag(bits, StatusFlag::IndexRenamed)
        || has_flag(bits, StatusFlag::IndexTypechange)
}

/// A change is present in the working directory only.
pub open spec fn has_workdir_change_bits(bits: u32) -> bool {
    has_flag(bits, StatusFlag::WtModified) || has_flag(bits, StatusFlag::WtDeleted)
        || has_flag(bits, StatusFlag::WtRenamed) || has_flag(bits, StatusFlag::WtTypechange)
}

/// The kind of change for a libgit2 status word.
pub fn delta_to_status_type(status: u32) -> (res: StatusType)
    ensures
        res == status_type_of(status),
{
    if git::status_contains(status, StatusFlag::Conflicted) {
        StatusType::Conflicted
    } else if git::status_contains(status, StatusFlag::IndexRenamed) {
        StatusType::Renamed
    } else if git::status_contains(status, StatusFlag::IndexTypechange)
        || git::status_contains(status, StatusFlag::WtTypechange) {
        StatusType::TypeChange
    } else if git::status_contains(status, StatusFlag::IndexDeleted)
        || git::status_contains(status, StatusFlag::WtDeleted) {
        StatusType::Deleted
    } else if git::status_contains(status, StatusFlag::IndexNew)
        || git::status_contains(status, StatusFlag::WtNew) {
        StatusType::Added
    } else {
        StatusType::Modified
    }
}

// ---------------------------------------------------------------------------
// Classification of a status listing
// ---------------------------------------------------------------------------

/// A path with backslashes turned into forward slashes.
pub open spec fn normalized(p: Seq<char>) -> Seq<char> {
    replace_char(p, '\\', '/')
}

/// The listed path of an entry (empty when it has none).
pub open spec fn record_path(r: StatusRecordView) -> Seq<char> {
    match r.path {
        Some(p) => normalized(p),
        None => Seq::empty(),
    }
}

/// An entry is reported unless its path is empty or names a directory.
pub open spec fn record_listed(r: StatusRecordView) -> bool {
    record_path(r).len() > 0 && record_path(r).last() != '/'
}

/// The path reported in an entry's `old_path` field: the path of the new
/// side of its HEAD-to-index delta when it has one, else the path of the old
/// side of its index-to-workdir delta (for an unstaged rename, the name the
/// file had in the index).
pub open spec fn record_old_path(r: StatusRecordView) -> Option<Seq<char>> {
    match r.head_to_index_new_path {
        Some(p) => Some(normalized(p)),
        None => match r.index_to_workdir_old_path {
            Some(p) => Some(normalized(p)),
            None => None,
        },
    }
}

/// The status that an entry reports in the staged and unstaged lists.
pub open spec fn record_status(r: StatusRecordView) -> FileStatusView {
    FileStatusView { path: record_path(r), old_path: record_old_path(r), status_type: status_type_of(r.bits) }
}

/// What an entry adds to the untracked list.
pub open spec fn untracked_part(r: StatusRecordView) -> Seq<FileStatusView> {
    if record_listed(r) && has_flag(r.bits, StatusFlag::WtNew) {
        seq![FileStatusView { path: record_path(r), old_path: None, status_type: StatusType::Added }]
    } else {
        Seq::empty()
    }
}

/// What an entry adds to the staged list.
pub open spec fn staged_part(r: StatusRecordView) -> Seq<FileStatusView> {
    if record_listed(r) && !has_flag(r.bits, StatusFlag::WtNew) && is_staged_bits(r.bits) {
        seq![record_status(r)]
    } else {
        Seq::empty()
    }
}

/// What an entry adds to the unstaged list.
pub open spec fn unstaged_part(r: StatusRecordView) -> Seq<FileStatusView> {
    if record_listed(r) && !has_flag(r.bits, StatusFlag::WtNew) && has_workdir_change_bits(r.bits) {
        seq![record_status(r)]
    } else {
        Seq::empty()
    }
}

/// The staged list of a listing, in listing order.
pub open spec fn staged_of(rs: Seq<StatusRecordView>) -> Seq<FileStatusView>
    decreases rs.len(),
{
    if rs.len() == 0 { Seq::empty() } else { staged_of(rs.drop_last()) + staged_part(rs.last()) }
}

/// The unstaged list of a listing, in listing order.
pub open spec fn unstaged_of(rs: Seq<StatusRecordView>) -> Seq<FileStatusView>
    decreases rs.len(),
{
    if rs.len() == 0 { Seq::empty() } else { unstaged_of(rs.drop_last()) + unstaged_part(rs.last()) }
}

/// The untracked list of a listing, in listing order.
pub open spec fn untracked_of(rs: Seq<StatusRecordView>) -> Seq<FileStatusView>
    decreases rs.len(),
{
    if rs.len() == 0 { Seq::empty() } else { untracked_of(rs.drop_last()) + untracked_part(rs.last()) }
}

/// The working status that a status listing describes.
pub open spec fn working_status_of(rs: Seq<StatusRecordView>) -> WorkingStatusView {
    WorkingStatusView { staged: staged_of(rs), unstaged: unstaged_of(rs), untracked: untracked_of(rs) }
}

fn normalize_opt(p: &Option<String>) -> (res: Option<String>)
    ensures
        res.deep_view() == (match p.deep_view() {
            Some(q) => Some(normalized(q)),
            None => None,
        }),
{
    match p {
        Some(q) => Some(normalize_path(q.as_str())),
        None => None,
    }
}

/// Sorts a status listing into staged, unstaged and untracked files.
pub fn classify_statuses(records: &Vec<StatusRecord>) -> (res: WorkingStatus)
    ensures
        res.deep_view() == working_status_of(records.deep_view()),
{
    let ghost rs = records.deep_view();
    let mut staged: Vec<FileStatus> = Vec::new();
    let mut unstaged: Vec<FileStatus> = Vec::new();
    let mut untracked: Vec<FileStatus> = Vec::new();
    let mut i: usize = 0;
    while i < records.len()
        invariant
            i <= records.len(),
            rs == records.deep_view(),
            staged.deep_view() == staged_of(rs.subrange(0, i as int)),
            unstaged.deep_view() == unstaged_of(rs.subrange(0, i as int)),
            untracked.deep_view() == untracked_of(rs.subrange(0, i as int)),
        decreases records.len() - i,
    {
        let r = &records[i];
        proof {
            assert(rs.subrange(0, i + 1).drop_last() == rs.subrange(0, i as int));
            assert(rs.subrange(0, i + 1).last() == r.deep_view());
        }
        let path = match &r.path {
            Some(p) => normalize_path(p.as_str()),
            None => String::new(),
        };
        let skip = path.unicode_len() == 0 || ends_with_char(path.as_str(), '/');
        if !skip {
            let old_path = match &r.head_to_index_new_path {
                Some(p) => Some(normalize_path(p.as_str())),
                None => normalize_opt(&r.index_to_workdir_old_path),
            };
            if git::status_contains(r.bits, StatusFlag::WtNew) {
                untracked.push(FileStatus { path: own(path.as_str()), old_path: None, status_type: StatusType::Added });
            } else {
                let is_staged = git::status_contains(r.bits, StatusFlag::IndexNew)
                    || git::status_contains(r.bits, StatusFlag::IndexModified)
                    || git::status_contains(r.bits, StatusFlag::IndexDeleted)
                    || git::status_contains(r.bits, StatusFlag::IndexRenamed)
                    || git::status_contains(r.bits, StatusFlag::IndexTypechange);
                let has_workdir_changes = git::status_contains(r.bits, StatusFlag::WtModified)
                    || git::status_contains(r.bits, StatusFlag::WtDeleted)
                    || git::status_contains(r.bits, StatusFlag::WtRenamed)
                    || git::status_contains(r.bits, StatusFlag::WtTypechange);
                let status_type = delta_to_status_type(r.bits);
                if is_staged {
                    let op = match &old_path {
                        Some(p) => Some(own(p.as_str())),
                        None => None,
                    };
                    staged.push(FileStatus { path: own(path.as_str()), old_path: op, status_type });
                }
                if has_workdir_changes || git::status_contains(r.bits, StatusFlag::WtModified) {
                    unstaged.push(FileStatus { path: own(path.as_str()), old_path, status_type });
                }
            }
        }
        proof {
            let rv = r.deep_view();
            assert(skip == !record_listed(rv));
            assert(staged.deep_view() =~= staged_of(rs.subrange(0, i + 1)));
            assert(unstaged.deep_view() =~= unstaged_of(rs.subrange(0, i + 1)));
            assert(untracked.deep_view() =~= untracked_of(rs.subrange(0, i + 1)));
        }
        i = i + 1;
    }
    proof {
        assert(rs.subrange(0, records.len() as int) == rs);
    }
    WorkingStatus { staged, unstaged, untracked }
}

// ---------------------------------------------------------------------------
// Laws of the classification
// ---------------------------------------------------------------------------

/// Every untracked file is reported as added, with no former path.
pub proof fn law_untracked_are_added(rs: Seq<StatusRecordView>)
    ensures
        forall|i: int| 0 <= i < untracked_of(rs).len() ==> {
            &&& (#[trigger] untracked_of(rs)[i]).status_type == StatusType::Added
            &&& untracked_of(rs)[i].old_path is None
        },
    decreases rs.len(),
{
    if rs.len() > 0 {
        law_untracked_are_added(rs.drop_last());
        let a = untracked_of(rs.drop_last());
        let b = untracked_part(rs.last());
        assert forall|i: int| 0 <= i < untracked_of(rs).len() implies {
            &&& (#[trigger] untracked_of(rs)[i]).status_type == StatusType::Added
            &&& untracked_of(rs)[i].old_path is None
        } by {
            if i < a.len() {
                assert(untracked_of(rs)[i] == a[i]);
            } else {
                assert(untracked_of(rs)[i] == b[i - a.len()]);
            }
        }
    }
}

/// A reported path is never empty and never ends with `/`.
pub open spec fn reported_path(p: Seq<char>) -> bool {
    p.len() > 0 && p.last() != '/'
}

/// Every file in the three lists has a non-empty path that does not end with
/// `/`.
pub proof fn law_reported_paths_are_files(rs: Seq<StatusRecordView>)
    ensures
        forall|i: int| 0 <= i < staged_of(rs).len() ==> reported_path(#[trigger] staged_of(rs)[i].path),
        forall|i: int| 0 <= i < unstaged_of(rs).len() ==> reported_path(#[trigger] unstaged_of(rs)[i].path),
        forall|i: int| 0 <= i < untracked_of(rs).len() ==> reported_path(#[trigger] untracked_of(rs)[i].path),
    decreases rs.len(),
{
    if rs.len() > 0 {
        law_reported_paths_are_files(rs.drop_last());
        let r = rs.last();
        let (a, b) = (staged_of(rs.drop_last()), staged_part(r));
        assert forall|i: int| 0 <= i < staged_of(rs).len() implies reported_path(#[trigger] staged_of(rs)[i].path) by {
            if i >= a.len() { assert(staged_of(rs)[i] == b[i - a.len()]); } else { assert(staged_of(rs)[i] == a[i]); }
        }
        let (a, b) = (unstaged_of(rs.drop_last()), unstaged_part(r));
        assert forall|i: int| 0 <= i < unstaged_of(rs).len() implies reported_path(#[trigger] unstaged_of(rs)[i].path) by {
            if i >= a.len() { assert(unstaged_of(rs)[i] == b[i - a.len()]); } else { assert(unstaged_of(rs)[i] == a[i]); }
        }
        let (a, b) = (untracked_of(rs.drop_last()), untracked_part(r));
        assert forall|i: int| 0 <= i < untracked_of(rs).len() implies reported_path(#[trigger] untracked_of(rs)[i].path) by {
            if i >= a.len() { assert(untracked_of(rs)[i] == b[i - a.len()]); } else { assert(untracked_of(rs)[i] == a[i]); }
        }
    }
}

/// No entry of the listing is both untracked and tracked: each entry adds at
/// most one file to the untracked list or to the staged list, and at most one
/// to the untracked list or to the unstaged list.
pub proof fn law_untracked_excludes_tracked(rs: Seq<StatusRecordView>)
    ensures
        untracked_of(rs).len() + staged_of(rs).len() <= rs.len(),
        untracked_of(rs).len() + unstaged_of(rs).len() <= rs.len(),
    decreases rs.len(),
{
    if rs.len() > 0 {
        law_untracked_excludes_tracked(rs.drop_last());
    }
}

/// A listed entry that is not untracked (bit `0x80`, `WT_NEW`, clear) and
/// has a change recorded in the index (any of the bits `0x1` `INDEX_NEW`,
/// `0x2` `INDEX_MODIFIED`, `0x4` `INDEX_DELETED`, `0x8` `INDEX_RENAMED`,
/// `0x10` `INDEX_TYPECHANGE`) is reported in the staged list, once, with its
/// path, second path and kind of change; nothing of it is untracked.
pub proof fn law_index_changes_are_staged(r: StatusRecordView)
    requires
        record_listed(r),
        r.bits & 0x80u32 == 0,
        r.bits & 0x1u32 != 0 || r.bits & 0x2u32 != 0 || r.bits & 0x4u32 != 0
            || r.bits & 0x8u32 != 0 || r.bits & 0x10u32 != 0,
    ensures
        staged_of(seq![r]) == seq![record_status(r)],
        untracked_of(seq![r]).len() == 0,
{
    let one = seq![r];
    assert(one.drop_last() =~= Seq::<StatusRecordView>::empty());
    assert(one.last() == r);
    assert(staged_of(one.drop_last()) == Seq::<FileStatusView>::empty());
    assert(untracked_of(one.drop_last()) == Seq::<FileStatusView>::empty());
    assert(!has_flag(r.bits, StatusFlag::WtNew));
    assert(is_staged_bits(r.bits));
    assert(staged_of(one) =~= staged_part(r));
    assert(untracked_of(one) =~= untracked_part(r));
}

/// A staged addition (status word `0x1`, `INDEX_NEW` alone) of a listed path
/// is reported in the staged list as `Added`, with its path and second path,
/// and in neither of the other lists.
pub proof fn law_staged_addition(r: StatusRecordView)
    requires
        record_listed(r),
        r.bits == 0x1u32,
    ensures
        working_status_of(seq![r]).staged == seq![FileStatusView {
            path: record_path(r),
            old_path: record_old_path(r),
            status_type: StatusType::Added,
        }],
        working_status_of(seq![r]).unstaged.len() == 0,
        working_status_of(seq![r]).untracked.len() == 0,
{
    let one = seq![r];
    assert(one.drop_last() =~= Seq::<StatusRecordView>::empty());
    assert(one.last() == r);
    let b = r.bits;
    assert(b & 0x80u32 == 0 && b & 0x1u32 != 0 && b & 0x2u32 == 0 && b & 0x4u32 == 0
        && b & 0x8u32 == 0 && b & 0x10u32 == 0 && b & 0x100u32 == 0 && b & 0x200u32 == 0
        && b & 0x400u32 == 0 && b & 0x800u32 == 0 && b & 0x8000u32 == 0) by (bit_vector)
        requires b == 0x1u32;
    assert(staged_of(one.drop_last()) == Seq::<FileStatusView>::empty());
    assert(unstaged_of(one.drop_last()) == Seq::<FileStatusView>::empty());
    assert(untracked_of(one.drop_last()) == Seq::<FileStatusView>::empty());
    assert(staged_of(one) =~= staged_part(r));
    assert(unstaged_of(one) =~= unstaged_part(r));
    assert(untracked_of(one) =~= untracked_part(r));
}

/// Every listed entry of a listing that is not untracked and has a change
/// recorded in the index is reported, as `record_status`, in the staged list
/// of the whole listing.
pub proof fn law_listing_stages_index_changes(rs: Seq<StatusRecordView>, i: int)
    requires
        0 <= i < rs.len(),
        record_listed(rs[i]),
        rs[i].bits & 0x80u32 == 0,
        rs[i].bits & 0x1u32 != 0 || rs[i].bits & 0x2u32 != 0 || rs[i].bits & 0x4u32 != 0
            || rs[i].bits & 0x8u32 != 0 || rs[i].bits & 0x10u32 != 0,
    ensures
        staged_of(rs).contains(record_status(rs[i])),
    decreases rs.len(),
{
    let d = rs.drop_last();
    if i < rs.len() - 1 {
        assert(d[i] == rs[i]);
        law_listing_stages_index_changes(d, i);
        let k = choose|k: int| 0 <= k < staged_of(d).len() && staged_of(d)[k] == record_status(rs[i]);
        assert(staged_of(rs)[k] == staged_of(d)[k]);
    } else {
        law_index_changes_are_staged(rs[i]);
        let one = seq![rs[i]];
        assert(one.drop_last() =~= Seq::<StatusRecordView>::empty());
        assert(staged_of(one) =~= staged_part(rs[i]));
        assert(rs.last() == rs[i]);
        assert(staged_of(rs)[staged_of(d).len() as int] == record_status(rs[i]));
    }
}

/// A file with a working-directory-only change and no staged change appears
/// in the unstaged list and not in the staged one; with only a staged change
/// it appears in the staged list and not in the unstaged one.
pub proof fn law_single_side_changes(r: StatusRecordView)
    requires
        record_listed(r),
        !has_flag(r.bits, StatusFlag::WtNew),
    ensures
        is_staged_bits(r.bits) && !has_workdir_change_bits(r.bits) ==>
            staged_of(seq![r]) == seq![record_status(r)] && unstaged_of(seq![r]).len() == 0,
        !is_staged_bits(r.bits) && has_workdir_change_bits(r.bits) ==>
            unstaged_of(seq![r]) == seq![record_status(r)] && staged_of(seq![r]).len() == 0,
{
    let one = seq![r];
    assert(one.drop_last() =~= Seq::<StatusRecordView>::empty());
    assert(one.last() == r);
    assert(staged_of(one.drop_last()) == Seq::<FileStatusView>::empty());
    assert(unstaged_of(one.drop_last()) == Seq::<FileStatusView>::empty());
    assert(staged_of(one) =~= staged_part(r));
    assert(unstaged_of(one) =~= unstaged_part(r));
}

// ---------------------------------------------------------------------------
// Commands
// ---------------------------------------------------------------------------

/// The error reported when no repository has been opened.
pub open spec fn not_opened() -> AppErrorView {
    AppErrorView::NotInitialized("No repository opened"@)
}

/// The open repository's path, or the "not opened" error.
fn opened_path(state: &AppState) -> (res: Result<String, AppError>)
    ensures
        state.current_repo_path is None ==> res is Err && res->Err_0.deep_view() == not_opened(),
        state.current_repo_path is Some ==> res is Ok && res->Ok_0@ == state.current_repo_path->0@,
{
    match &state.current_repo_path {
        Some(p) => Ok(own(p.as_str())),
        None => {
            proof { reveal_strlit("No repository opened"); }
            Err(AppError::NotInitialized(String::from_str("No repository opened")))
        }
    }
}

/// Opens the repository at `path`, reporting a libgit2 failure as an error.
pub fn open_repo(path: &str) -> (res: Result<git2::Repository, AppError>)
    ensures
        res is Err ==> res->Err_0 is Git,
{
    match git::repo_open(path) {
        Ok(r) => Ok(r),
        Err(e) => Err(git_error(&e)),
    }
}

/// The status query of the working-tree view: untracked files, recursing
/// into untracked directories, and rename detection on both sides.
pub fn working_status_query() -> (q: StatusQuery)
    ensures
        q.include_untracked,
        q.recurse_untracked_dirs,
        q.renames_head_to_index,
        q.renames_index_to_workdir,
{
    StatusQuery {
        include_untracked: true,
        recurse_untracked_dirs: true,
        renames_head_to_index: true,
        renames_index_to_workdir: true,
    }
}

/// The status of the working tree of the open repository: untracked files
/// (recursing into untracked directories), and staged and unstaged changes
/// with rename detection on both sides.
pub fn get_working_status(state: &AppState) -> (res: Result<WorkingStatus, AppError>)
    ensures
        state.current_repo_path is None ==> res is Err && res->Err_0.deep_view() == not_opened(),
        state.current_repo_path is Some && res is Err ==> res->Err_0 is Git,
        res is Ok ==> exists|rs: Seq<StatusRecordView>| #[trigger] working_status_of(rs) == res->Ok_0.deep_view(),
{
    let repo_path = opened_path(state)?;
    let repo = open_repo(repo_path.as_str())?;
    let q = working_status_query();
    let records = match git::repo_statuses(&repo, q) {
        Ok(r) => r,
        Err(e) => return Err(git_error(&e)),
    };
    let ws = classify_statuses(&records);
    proof {
        assert(working_status_of(records.deep_view()) == ws.deep_view());
    }
    Ok(ws)
}

/// A repository-relative path with `/` turned into the platform separator `sep`.
pub fn to_system_path(path: &str, sep: char) -> (res: String)
    ensures
        res@ == replace_char(path@, '/', sep),
{
    replace_char_in(path, '/', sep)
}

/// Normalizing a normalized path changes nothing.
pub proof fn law_normalize_idempotent(p: Seq<char>)
    ensures
        normalized(normalized(p)) == normalized(p),
{
    assert(normalized(normalized(p)) =~= normalized(p));
}

/// A path with `/` turned into the platform separator (`/` or a backslash),
/// once normalized again, is the normalized path: a path in the status lists
/// survives the conversion that the staging commands apply to it.
pub proof fn law_system_path_round_trip(p: Seq<char>, sep: char)
    requires
        sep == '/' || sep == '\\',
    ensures
        normalized(replace_char(p, '/', sep)) == normalized(p),
{
    assert(normalized(replace_char(p, '/', sep)) =~= normalized(p));
}

/// Stages one file (given with forward slashes) and writes the index.
pub fn stage_file(path: String, state: &AppState) -> (res: Result<(), AppError>)
    ensures
        state.current_repo_path is None ==> res is Err && res->Err_0.deep_view() == not_opened(),
        state.current_repo_path is Some && res is Err ==> res->Err_0 is Git,
{
    let repo_path = opened_path(state)?;
    let repo = open_repo(repo_path.as_str())?;
    let mut index = match git::repo_index(&repo) {
        Ok(i) => i,
        Err(e) => return Err(git_error(&e)),
    };
    let system_path = to_system_path(path.as_str(), git::main_separator());
    if let Err(e) = git::index_add_path(&mut index, system_path.as_str()) {
        return Err(git_error(&e));
    }
    if let Err(e) = git::index_write(&mut index) {
        return Err(git_error(&e));
    }
    Ok(())
}

/// Unstages one file: resets its index entry to `HEAD`.
pub fn unstage_file(path: String, state: &AppState) -> (res: Result<(), AppError>)
    ensures
        state.current_repo_path is None ==> res is Err && res->Err_0.deep_view() == not_opened(),
        state.current_repo_path is Some && res is Err ==> res->Err_0 is Git,
{
    let repo_path = opened_path(state)?;
    let repo = open_repo(repo_path.as_str())?;
    let system_path = to_system_path(path.as_str(), git::main_separator());
    let head = match git::repo_revparse_ext_object(&repo, "HEAD") {
        Ok(o) => o,
        Err(e) => return Err(git_error(&e)),
    };
    match git::repo_reset_default_path(&repo, &head, system_path.as_str()) {
        Ok(()) => Ok(()),
        Err(e) => Err(git_error(&e)),
    }
}

/// Stages every new and modified file (pattern `*`) and writes the index.
pub fn stage_all(state: &AppState) -> (res: Result<(), AppError>)
    ensures
        state.current_repo_path is None ==> res is Err && res->Err_0.deep_view() == not_opened(),
        state.current_repo_path is Some && res is Err ==> res->Err_0 is Git,
{
    let repo_path = opened_path(state)?;
    let repo = open_repo(repo_path.as_str())?;
    let mut index = match git::repo_index(&repo) {
        Ok(i) => i,
        Err(e) => return Err(git_error(&e)),
    };
    if let Err(e) = git::index_add_all(&mut index, "*") {
        return Err(git_error(&e));
    }
    if let Err(e) = git::index_write(&mut index) {
        return Err(git_error(&e));
    }
    Ok(())
}

/// Discards the working-directory changes of one file: forces a checkout of
/// that path from the tree of `HEAD`. A path with a NUL character names no
/// file and is refused with `InvalidPath`.
pub fn discard_changes(path: String, state: &AppState) -> (res: Result<(), AppError>)
    ensures
        state.current_repo_path is None ==> res is Err && res->Err_0.deep_view() == not_opened(),
        state.current_repo_path is Some && !free_of_nul(path@) ==> res is Err
            && res->Err_0.deep_view() == AppErrorView::InvalidPath(path@),
        state.current_repo_path is Some && free_of_nul(path@) && res is Err ==> res->Err_0 is Git,
{
    let repo_path = opened_path(state)?;
    if contains_nul(path.as_str()) {
        return Err(AppError::InvalidPath(path));
    }
    let repo = open_repo(repo_path.as_str())?;
    let sep = git::main_separator();
    let system_path = to_system_path(path.as_str(), sep);
    proof {
        assert forall|i: int| 0 <= i < system_path@.len() implies system_path@[i] != '\0' by {
            assert(path@[i] != '\0');
        }
    }
    let head = match git::repo_head(&repo) {
        Ok(h) => h,
        Err(e) => return Err(git_error(&e)),
    };
    let head_tree = match git::reference_peel_to_tree(&head) {
        Ok(t) => t,
        Err(e) => return Err(git_error(&e)),
    };
    let tree = match git::repo_find_tree(&repo, git::tree_id(&head_tree)) {
        Ok(t) => t,
        Err(e) => return Err(git_error(&e)),
    };
    let mut checkout = git::checkout_builder_new();
    git::checkout_force(&mut checkout);
    git::checkout_path(&mut checkout, system_path.as_str());
    match git::repo_checkout_tree(&repo, &tree, &mut checkout) {
        Ok(()) => Ok(()),
        Err(e) => Err(git_error(&e)),
    }
}

} // verus!
