//! The boundary with libgit2: declarations of the `git2` types that the
//! commands carry, and one small wrapper per `git2` function they call.
//!
//! Everything here is trusted.  Most results come from the repository on disk,
//! so most wrappers promise nothing of what they return; the commands built on
//! them are verified for every value that can come back.  Where the `git2`
//! source fixes the result (status bits, one-to-one conversions), the wrapper
//! says so.
use vstd::prelude::*;

verus! {

// ---------------------------------------------------------------------------
// Declared outside types
// ---------------------------------------------------------------------------

#[verifier::external_type_specification]
#[verifier::external_body]
pub struct ExRepository(git2::Repository);

#[verifier::external_type_specification]
#[verifier::external_body]
pub struct ExError(git2::Error);

#[verifier::external_type_specification]
#[verifier::external_body]
pub struct ExOid(git2::Oid);

#[verifier::external_type_specification]
#[verifier::external_body]
pub struct ExReference<'r>(git2::Reference<'r>);

#[verifier::external_type_specification]
#[verifier::external_body]
pub struct ExBranch<'r>(git2::Branch<'r>);

#[verifier::external_type_specification]
#[verifier::external_body]
pub struct ExCommit<'r>(git2::Commit<'r>);

#[verifier::external_type_specification]
#[verifier::external_body]
pub struct ExSignature<'s>(git2::Signature<'s>);

#[verifier::external_type_specification]
#[verifier::external_body]
pub struct ExTree<'r>(git2::Tree<'r>);

#[verifier::external_type_specification]
#[verifier::external_body]
pub struct ExObject<'r>(git2::Object<'r>);

#[verifier::external_type_specification]
#[verifier::external_body]
pub struct ExTag<'r>(git2::Tag<'r>);

#[verifier::external_type_specification]
#[verifier::external_body]
pub struct ExIndex(git2::Index);

#[verifier::external_type_specification]
#[verifier::external_body]
pub struct ExRevwalk<'r>(git2::Revwalk<'r>);

#[verifier::external_type_specification]
#[verifier::external_body]
pub struct ExAnnotatedCommit<'r>(git2::AnnotatedCommit<'r>);

#[verifier::external_type_specification]
#[verifier::external_body]
pub struct ExRebase<'r>(git2::Rebase<'r>);

#[verifier::external_type_specification]
#[verifier::external_body]
pub struct ExRebaseOperation<'r>(git2::RebaseOperation<'r>);

#[verifier::external_type_specification]
#[verifier::external_body]
pub struct ExDiff<'r>(git2::Diff<'r>);

#[verifier::external_type_specification]
#[verifier::external_body]
pub struct ExConfig(git2::Config);

#[verifier::external_type_specification]
#[verifier::external_body]
pub struct ExDelta(git2::Delta);

#[verifier::external_type_specification]
#[verifier::external_body]
pub struct ExSort(git2::Sort);

#[verifier::external_type_specification]
#[verifier::external_body]
pub struct ExTreeEntry<'t>(git2::TreeEntry<'t>);

#[verifier::external_type_specification]
#[verifier::external_body]
pub struct ExCheckoutBuilder<'cb>(git2::build::CheckoutBuilder<'cb>);

#[verifier::external_type_specification]
#[verifier::external_body]
pub struct ExRebaseOptions<'cb>(git2::RebaseOptions<'cb>);

#[verifier::external_type_specification]
#[verifier::external_body]
pub struct ExCherrypickOptions<'cb>(git2::CherrypickOptions<'cb>);

#[verifier::external_type_specification]
#[verifier::external_body]
pub struct ExDiffOptions(git2::DiffOptions);

// ---------------------------------------------------------------------------
// Plain values handed out by the wrappers
// ---------------------------------------------------------------------------

/// Which branches to list.
#[derive(Debug, Clone, Copy, PartialEq, Eq, Structural)]
pub enum BranchKind {
    Local,
    Remote,
}

/// The kind of a git object, as `git2::ObjectType` names it.
#[derive(Debug, Clone, Copy, PartialEq, Eq, Structural)]
pub enum ObjectKind {
    Any,
    Commit,
    Tree,
    Blob,
    Tag,
}

/// The change kind of one file in a diff, as `git2::Delta` names it.
#[derive(Debug, Clone, Copy, PartialEq, Eq, Structural)]
pub enum DeltaKind {
    Unmodified,
    Added,
    Deleted,
    Modified,
    Renamed,
    Copied,
    Ignored,
    Untracked,
    Typechange,
    Unreadable,
    Conflicted,
}

/// One status flag of libgit2 (`git2::Status`).
#[derive(Debug, Clone, Copy, PartialEq, Eq, Structural)]
pub enum StatusFlag {
    IndexNew,
    IndexModified,
    IndexDeleted,
    IndexRenamed,
    IndexTypechange,
    WtNew,
    WtModified,
    WtDeleted,
    WtTypechange,
    WtRenamed,
    Conflicted,
}

/// The bit that libgit2 gives each status flag (`GIT_STATUS_*`).
pub open spec fn flag_bit(f: StatusFlag) -> u32 {
    match f {
        StatusFlag::IndexNew => 0x1,
        StatusFlag::IndexModified => 0x2,
        StatusFlag::IndexDeleted => 0x4,
        StatusFlag::IndexRenamed => 0x8,
        StatusFlag::IndexTypechange => 0x10,
        StatusFlag::WtNew => 0x80,
        StatusFlag::WtModified => 0x100,
        StatusFlag::WtDeleted => 0x200,
        StatusFlag::WtTypechange => 0x400,
        StatusFlag::WtRenamed => 0x800,
        StatusFlag::Conflicted => 0x8000,
    }
}

/// The status word `bits` has the flag `f` set.
pub open spec fn has_flag(bits: u32, f: StatusFlag) -> bool {
    bits & flag_bit(f) != 0
}

/// Which files a status query reports.
#[derive(Debug, Clone, Copy)]
pub struct StatusQuery {
    pub include_untracked: bool,
    pub recurse_untracked_dirs: bool,
    pub renames_head_to_index: bool,
    pub renames_index_to_workdir: bool,
}

/// One entry of a status listing: its path, its status word, and the paths
/// recorded by its two deltas (the new path of the HEAD-to-index delta and
/// the old path of the index-to-workdir delta).
#[derive(Debug)]
pub struct StatusRecord {
    pub path: Option<String>,
    pub bits: u32,
    pub head_to_index_new_path: Option<String>,
    pub index_to_workdir_old_path: Option<String>,
}

/// The view of a [`StatusRecord`].
pub struct StatusRecordView {
    pub path: Option<Seq<char>>,
    pub bits: u32,
    pub head_to_index_new_path: Option<Seq<char>>,
    pub index_to_workdir_old_path: Option<Seq<char>>,
}

impl DeepView for StatusRecord {
    type V = StatusRecordView;

    open spec fn deep_view(&self) -> StatusRecordView {
        StatusRecordView {
            path: self.path.deep_view(),
            bits: self.bits,
            head_to_index_new_path: self.head_to_index_new_path.deep_view(),
            index_to_workdir_old_path: self.index_to_workdir_old_path.deep_view(),
        }
    }
}

/// One file of a diff: how it changed and the path of its new side.
pub struct DeltaRecord {
    pub status: git2::Delta,
    pub new_path: Option<String>,
}

/// One line printed by a patch-format diff: its origin marker and its content
/// (decoded as UTF-8 with replacement characters).
#[derive(Debug)]
pub struct PatchLine {
    pub origin: char,
    pub content: String,
}

// ---------------------------------------------------------------------------
// std
// ---------------------------------------------------------------------------

/// Calls `std::path::Path::exists`; the answer depends on the file system.
#[verifier::external_body]
pub fn path_exists(path: &str) -> bool {
    std::path::Path::new(path).exists()
}

/// The platform's path separator, `std::path::MAIN_SEPARATOR`: `/` or `\`.
#[verifier::external_body]
pub fn main_separator() -> (res: char)
    ensures
        res == '/' || res == '\\',
{
    std::path::MAIN_SEPARATOR
}

/// The result of `Path::strip_prefix(base)` on the path `p`, as a string, when
/// `base` is a component-wise prefix of `p`.
pub uninterp spec fn stripped_path(p: Seq<char>, base: Seq<char>) -> Option<Seq<char>>;

/// Calls `std::path::Path::strip_prefix`, converting the remainder to a string.
#[verifier::external_body]
pub fn path_strip_prefix(p: &str, base: &str) -> (res: Option<String>)
    ensures
        res.deep_view() == stripped_path(p@, base@),
{
    match std::path::Path::new(p).strip_prefix(base) {
        Ok(rest) => Some(rest.to_string_lossy().to_string()),
        Err(_) => None,
    }
}

/// The extension that `Path::extension` finds in the path `p`.
pub uninterp spec fn path_extension_of(p: Seq<char>) -> Option<Seq<char>>;

/// Calls `std::path::Path::extension`, converting it to a string.
#[verifier::external_body]
pub fn path_extension(p: &str) -> (res: Option<String>)
    ensures
        res.deep_view() == path_extension_of(p@),
{
    std::path::Path::new(p).extension().map(|e| e.to_string_lossy().to_string())
}

/// The result of `std::str::from_utf8` on the bytes `b`: the decoded text, or
/// `None` when they are not valid UTF-8.
pub uninterp spec fn utf8_decoding(b: Seq<u8>) -> Option<Seq<char>>;

/// Calls `std::str::from_utf8`.
#[verifier::external_body]
pub fn decode_utf8(b: &Vec<u8>) -> (res: Option<String>)
    ensures
        res.deep_view() == utf8_decoding(b@),
{
    std::str::from_utf8(b).ok().map(|s| s.to_string())
}

// ---------------------------------------------------------------------------
// Errors, object ids, status flags
// ---------------------------------------------------------------------------

/// Calls `Display` of `git2::Error`: the message, then the class and code
/// when they are not the generic ones.
#[verifier::external_body]
pub fn error_text(e: &git2::Error) -> String {
    e.to_string()
}

/// Calls `Display` of `git2::Oid`: its hexadecimal form.
#[verifier::external_body]
pub fn oid_hex(oid: &git2::Oid) -> String {
    oid.to_string()
}

/// A character is a hexadecimal digit.
pub open spec fn is_hex_digit(c: char) -> bool {
    ('0' <= c && c <= '9') || ('a' <= c && c <= 'f') || ('A' <= c && c <= 'F')
}

/// Text that `Oid::from_str` may accept: 1 to 40 hexadecimal digits.
pub open spec fn oid_text_well_formed(s: Seq<char>) -> bool {
    &&& 0 < s.len() <= 40
    &&& forall|i: int| 0 <= i < s.len() ==> is_hex_digit(#[trigger] s[i])
}

/// Calls `git2::Oid::from_str`, which parses a hexadecimal object id. As its
/// documentation says, it fails on an empty string, on one longer than 40
/// hexadecimal digits and on one with a character that is not a hexadecimal
/// digit; when a well-formed text is accepted is not stated.
#[verifier::external_body]
pub fn oid_parse(s: &str) -> (res: Result<git2::Oid, git2::Error>)
    ensures
        !oid_text_well_formed(s@) ==> res is Err,
{
    git2::Oid::from_str(s)
}

/// Whether the status word `bits` has the flag `f` set, as
/// `git2::Status::contains` answers for a single flag: a test of its bit.
pub fn status_contains(bits: u32, f: StatusFlag) -> (res: bool)
    ensures
        res == has_flag(bits, f),
{
    let bit: u32 = match f {
        StatusFlag::IndexNew => 0x1,
        StatusFlag::IndexModified => 0x2,
        StatusFlag::IndexDeleted => 0x4,
        StatusFlag::IndexRenamed => 0x8,
        StatusFlag::IndexTypechange => 0x10,
        StatusFlag::WtNew => 0x80,
        StatusFlag::WtModified => 0x100,
        StatusFlag::WtDeleted => 0x200,
        StatusFlag::WtTypechange => 0x400,
        StatusFlag::WtRenamed => 0x800,
        StatusFlag::Conflicted => 0x8000,
    };
    bits & bit != 0
}

// ---------------------------------------------------------------------------
// Repository
// ---------------------------------------------------------------------------

/// Calls `git2::Repository::open`.
#[verifier::external_body]
pub fn repo_open(path: &str) -> Result<git2::Repository, git2::Error> {
    git2::Repository::open(path)
}

/// Calls `git2::Repository::init`.
#[verifier::external_body]
pub fn repo_init(path: &str) -> Result<git2::Repository, git2::Error> {
    git2::Repository::init(path)
}

/// Calls `git2::Repository::is_bare`.
#[verifier::external_body]
pub fn repo_is_bare(repo: &git2::Repository) -> bool {
    repo.is_bare()
}

/// Calls `git2::Repository::head`.
#[verifier::external_body]
pub fn repo_head<'r>(repo: &'r git2::Repository) -> Result<git2::Reference<'r>, git2::Error> {
    repo.head()
}

/// Calls `git2::Repository::statuses` with the options that `q` describes
/// (showing index and working directory, libgit2's default); each entry is
/// converted to its path, status word and the two delta paths.
#[verifier::external_body]
pub fn repo_statuses(repo: &git2::Repository, q: StatusQuery) -> Result<Vec<StatusRecord>, git2::Error> {
    let mut o = git2::StatusOptions::new();
    o.include_untracked(q.include_untracked).recurse_untracked_dirs(q.recurse_untracked_dirs)
        .renames_head_to_index(q.renames_head_to_index)
        .renames_index_to_workdir(q.renames_index_to_workdir);
    let statuses = repo.statuses(Some(&mut o))?;
    Ok(statuses.iter().map(|e| StatusRecord {
        path: e.path().ok().map(|p| p.to_string()),
        bits: e.status().bits(),
        head_to_index_new_path: e.head_to_index().and_then(|d| d.new_file().path().map(|p| p.to_string_lossy().to_string())),
        index_to_workdir_old_path: e.index_to_workdir().and_then(|d| d.old_file().path().map(|p| p.to_string_lossy().to_string())),
    }).collect())
}

/// Calls `git2::Repository::index`.
#[verifier::external_body]
pub fn repo_index(repo: &git2::Repository) -> Result<git2::Index, git2::Error> {
    repo.index()
}

/// Calls `git2::Repository::config`.
#[verifier::external_body]
pub fn repo_config(repo: &git2::Repository) -> Result<git2::Config, git2::Error> {
    repo.config()
}

/// Calls `git2::Config::get_string`.
#[verifier::external_body]
pub fn config_get_string(config: &git2::Config, name: &str) -> Result<String, git2::Error> {
    config.get_string(name)
}

/// Calls `git2::Repository::signature` (the configured identity, stamped with the current time).
#[verifier::external_body]
pub fn repo_signature(repo: &git2::Repository) -> Result<git2::Signature<'static>, git2::Error> {
    repo.signature()
}

/// Calls `git2::Signature::now` (the given identity, stamped with the current time).
#[verifier::external_body]
pub fn signature_now(name: &str, email: &str) -> Result<git2::Signature<'static>, git2::Error> {
    git2::Signature::now(name, email)
}

/// Calls `git2::Signature::name`; a name that is not UTF-8 gives `None`.
#[verifier::external_body]
pub fn signature_name(sig: &git2::Signature) -> Option<String> {
    sig.name().ok().map(|s| s.to_string())
}

/// Calls `git2::Signature::email`; an address that is not UTF-8 gives `None`.
#[verifier::external_body]
pub fn signature_email(sig: &git2::Signature) -> Option<String> {
    sig.email().ok().map(|s| s.to_string())
}

/// Calls `git2::Signature::when`, converted to its seconds since the epoch.
#[verifier::external_body]
pub fn signature_seconds(sig: &git2::Signature) -> i64 {
    sig.when().seconds()
}

// ---------------------------------------------------------------------------
// References and branches
// ---------------------------------------------------------------------------

/// Calls `git2::Reference::shorthand`; a name that is not UTF-8 gives `None`.
#[verifier::external_body]
pub fn reference_shorthand(r: &git2::Reference) -> Option<String> {
    r.shorthand().ok().map(|s| s.to_string())
}

/// Calls `git2::Reference::name`; a name that is not UTF-8 gives `None`.
#[verifier::external_body]
pub fn reference_name(r: &git2::Reference) -> Option<String> {
    r.name().ok().map(|s| s.to_string())
}

/// Calls `git2::Reference::target` (`None` for a symbolic reference).
#[verifier::external_body]
pub fn reference_target(r: &git2::Reference) -> Option<git2::Oid> {
    r.target()
}

/// Calls `git2::Reference::peel_to_commit`.
#[verifier::external_body]
pub fn reference_peel_to_commit<'r>(r: &git2::Reference<'r>) -> Result<git2::Commit<'r>, git2::Error> {
    r.peel_to_commit()
}

/// Calls `git2::Reference::peel_to_tree`.
#[verifier::external_body]
pub fn reference_peel_to_tree<'r>(r: &git2::Reference<'r>) -> Result<git2::Tree<'r>, git2::Error> {
    r.peel_to_tree()
}

/// Calls `git2::Reference::set_target`, which moves the reference (the
/// returned new reference handle is dropped).
#[verifier::external_body]
pub fn reference_set_target(r: &mut git2::Reference, oid: git2::Oid, msg: &str) -> Result<(), git2::Error> {
    r.set_target(oid, msg).map(|_| ())
}

/// Calls `git2::Repository::find_reference`.
#[verifier::external_body]
pub fn repo_find_reference<'r>(repo: &'r git2::Repository, name: &str) -> Result<git2::Reference<'r>, git2::Error> {
    repo.find_reference(name)
}

/// Calls `git2::Repository::set_head`.
#[verifier::external_body]
pub fn repo_set_head(repo: &git2::Repository, refname: &str) -> Result<(), git2::Error> {
    repo.set_head(refname)
}

/// Calls `git2::Repository::branches` and collects the items, each branch
/// without its type.
#[verifier::external_body]
pub fn repo_branches<'r>(repo: &'r git2::Repository, kind: BranchKind) -> Result<Vec<Result<git2::Branch<'r>, git2::Error>>, git2::Error> {
    let t = match kind {
        BranchKind::Local => git2::BranchType::Local,
        BranchKind::Remote => git2::BranchType::Remote,
    };
    Ok(repo.branches(Some(t))?.map(|b| b.map(|(branch, _)| branch)).collect())
}

/// Calls `git2::Repository::find_branch`.
#[verifier::external_body]
pub fn repo_find_branch<'r>(repo: &'r git2::Repository, name: &str, kind: BranchKind) -> Result<git2::Branch<'r>, git2::Error> {
    let t = match kind {
        BranchKind::Local => git2::BranchType::Local,
        BranchKind::Remote => git2::BranchType::Remote,
    };
    repo.find_branch(name, t)
}

/// Calls `git2::Repository::branch` without `force`.
#[verifier::external_body]
pub fn repo_create_branch<'r>(repo: &'r git2::Repository, name: &str, target: &git2::Commit) -> Result<git2::Branch<'r>, git2::Error> {
    repo.branch(name, target, false)
}

/// Calls `git2::Branch::name`, converting the name to an owned string.
#[verifier::external_body]
pub fn branch_name(b: &git2::Branch) -> Result<Option<String>, git2::Error> {
    b.name().map(|n| n.map(|s| s.to_string()))
}

/// Calls `git2::Branch::upstream`.
#[verifier::external_body]
pub fn branch_upstream<'r>(b: &git2::Branch<'r>) -> Result<git2::Branch<'r>, git2::Error> {
    b.upstream()
}

/// Calls `git2::Branch::get`: the branch's reference.
#[verifier::external_body]
pub fn branch_reference<'a, 'r>(b: &'a git2::Branch<'r>) -> &'a git2::Reference<'r> {
    b.get()
}

/// Calls `git2::Branch::delete`.
#[verifier::external_body]
pub fn branch_delete(b: &mut git2::Branch) -> Result<(), git2::Error> {
    b.delete()
}

// ---------------------------------------------------------------------------
// Commits, trees, objects, tags
// ---------------------------------------------------------------------------

/// Calls `git2::Repository::find_commit`.
#[verifier::external_body]
pub fn repo_find_commit<'r>(repo: &'r git2::Repository, oid: git2::Oid) -> Result<git2::Commit<'r>, git2::Error> {
    repo.find_commit(oid)
}

/// Calls `git2::Commit::id`.
#[verifier::external_body]
pub fn commit_id(c: &git2::Commit) -> git2::Oid {
    c.id()
}

/// Calls `git2::Commit::message`; a message that is not UTF-8 gives `None`.
#[verifier::external_body]
pub fn commit_message(c: &git2::Commit) -> Option<String> {
    c.message().ok().map(|s| s.to_string())
}

/// Calls `git2::Commit::author`.
#[verifier::external_body]
pub fn commit_author<'c>(c: &'c git2::Commit) -> git2::Signature<'c> {
    c.author()
}

/// Calls `git2::Commit::committer`.
#[verifier::external_body]
pub fn commit_committer<'c>(c: &'c git2::Commit) -> git2::Signature<'c> {
    c.committer()
}

/// Calls `git2::Commit::time`, converted to its seconds since the epoch.
#[verifier::external_body]
pub fn commit_seconds(c: &git2::Commit) -> i64 {
    c.time().seconds()
}

/// Calls `git2::Commit::parents` and collects the id of each parent, in
/// order; the iteration stops at the first parent that cannot be found.
#[verifier::external_body]
pub fn commit_parent_ids(c: &git2::Commit) -> Vec<git2::Oid> {
    c.parents().map(|p| p.id()).collect()
}

/// Calls `git2::Commit::parent_count`.
#[verifier::external_body]
pub fn commit_parent_count(c: &git2::Commit) -> usize {
    c.parent_count()
}

/// Calls `git2::Commit::parent`.
#[verifier::external_body]
pub fn commit_parent<'r>(c: &git2::Commit<'r>, i: usize) -> Result<git2::Commit<'r>, git2::Error> {
    c.parent(i)
}

/// Calls `git2::Commit::tree`.
#[verifier::external_body]
pub fn commit_tree<'r>(c: &git2::Commit<'r>) -> Result<git2::Tree<'r>, git2::Error> {
    c.tree()
}

/// Calls `git2::Commit::amend`, updating the reference `update_ref` and
/// replacing author and committer (both `sig`), tree and message (no message
/// encoding).
#[verifier::external_body]
pub fn commit_amend(c: &git2::Commit, update_ref: &str, sig: &git2::Signature, tree: &git2::Tree, message: &str) -> Result<git2::Oid, git2::Error> {
    c.amend(Some(update_ref), Some(sig), Some(sig), None, Some(message), Some(tree))
}

/// Calls `git2::Repository::commit`, updating the reference `update_ref`,
/// with `sig` as author and committer.
#[verifier::external_body]
pub fn repo_commit(repo: &git2::Repository, update_ref: &str, sig: &git2::Signature, message: &str, tree: &git2::Tree, parents: &Vec<git2::Commit>) -> Result<git2::Oid, git2::Error> {
    let refs: Vec<&git2::Commit> = parents.iter().collect();
    repo.commit(Some(update_ref), sig, sig, message, tree, &refs)
}

/// Calls `git2::Repository::find_tree`.
#[verifier::external_body]
pub fn repo_find_tree<'r>(repo: &'r git2::Repository, oid: git2::Oid) -> Result<git2::Tree<'r>, git2::Error> {
    repo.find_tree(oid)
}

/// Calls `git2::Tree::id`.
#[verifier::external_body]
pub fn tree_id(t: &git2::Tree) -> git2::Oid {
    t.id()
}

/// Calls `git2::Tree::get_path`: the entry at the path `path` of the tree.
#[verifier::external_body]
pub fn tree_get_path(t: &git2::Tree, path: &str) -> Result<git2::TreeEntry<'static>, git2::Error> {
    t.get_path(std::path::Path::new(path))
}

/// Calls `git2::TreeEntry::id`.
#[verifier::external_body]
pub fn tree_entry_id(e: &git2::TreeEntry) -> git2::Oid {
    e.id()
}

/// Calls `git2::Tree::walk` in pre-order and collects the name of each
/// entry (`None` where it is not UTF-8), continuing over every entry.
#[verifier::external_body]
pub fn tree_walk_names(t: &git2::Tree) -> Result<Vec<Option<String>>, git2::Error> {
    let mut names = Vec::new();
    t.walk(git2::TreeWalkMode::PreOrder, |_, entry| {
        names.push(entry.name().ok().map(|s| s.to_string()));
        git2::TreeWalkResult::Ok
    })?;
    Ok(names)
}

/// Calls `git2::Repository::revparse_single`.
#[verifier::external_body]
pub fn repo_revparse_single<'r>(repo: &'r git2::Repository, spec: &str) -> Result<git2::Object<'r>, git2::Error> {
    repo.revparse_single(spec)
}

/// Calls `git2::Repository::revparse_ext`, keeping the object.
#[verifier::external_body]
pub fn repo_revparse_ext_object<'r>(repo: &'r git2::Repository, spec: &str) -> Result<git2::Object<'r>, git2::Error> {
    repo.revparse_ext(spec).map(|(object, _)| object)
}

/// Calls `git2::Repository::find_object` with no kind.
#[verifier::external_body]
pub fn repo_find_object<'r>(repo: &'r git2::Repository, oid: git2::Oid) -> Result<git2::Object<'r>, git2::Error> {
    repo.find_object(oid, None)
}

/// Calls `git2::Object::peel_to_commit`.
#[verifier::external_body]
pub fn object_peel_to_commit<'r>(o: &git2::Object<'r>) -> Result<git2::Commit<'r>, git2::Error> {
    o.peel_to_commit()
}

/// Calls `git2::Object::id`.
#[verifier::external_body]
pub fn object_id(o: &git2::Object) -> git2::Oid {
    o.id()
}

/// Calls `git2::Object::kind`.
#[verifier::external_body]
pub fn object_kind(o: &git2::Object) -> Option<ObjectKind> {
    o.kind().map(|k| match k {
        git2::ObjectType::Any => ObjectKind::Any,
        git2::ObjectType::Commit => ObjectKind::Commit,
        git2::ObjectType::Tree => ObjectKind::Tree,
        git2::ObjectType::Blob => ObjectKind::Blob,
        git2::ObjectType::Tag => ObjectKind::Tag,
    })
}

/// Calls `git2::Object::into_tag`: the tag when the object is an annotated
/// tag, the object back otherwise.
#[verifier::external_body]
pub fn object_into_tag<'r>(o: git2::Object<'r>) -> Result<git2::Tag<'r>, git2::Object<'r>> {
    o.into_tag()
}

/// Calls `git2::Tag::target`.
#[verifier::external_body]
pub fn tag_target<'r>(t: &git2::Tag<'r>) -> Result<git2::Object<'r>, git2::Error> {
    t.target()
}

/// Calls `git2::Tag::message`; a message that is missing or not UTF-8 gives `None`.
#[verifier::external_body]
pub fn tag_message(t: &git2::Tag) -> Option<String> {
    t.message().ok().flatten().map(|s| s.to_string())
}

/// Calls `git2::Tag::tagger`.
#[verifier::external_body]
pub fn tag_tagger<'t>(t: &'t git2::Tag) -> Option<git2::Signature<'t>> {
    t.tagger()
}

/// Calls `git2::Repository::tag_names` with no pattern; each name that is
/// not UTF-8 gives `None`.
#[verifier::external_body]
pub fn repo_tag_names(repo: &git2::Repository) -> Result<Vec<Option<String>>, git2::Error> {
    Ok(repo.tag_names(None)?.iter().map(|n| n.ok().flatten().map(|s| s.to_string())).collect())
}

/// Calls `git2::Repository::tag` (annotated) without `force`.
#[verifier::external_body]
pub fn repo_tag_annotated(repo: &git2::Repository, name: &str, target: &git2::Object, tagger: &git2::Signature, message: &str) -> Result<git2::Oid, git2::Error> {
    repo.tag(name, target, tagger, message, false)
}

/// Calls `git2::Repository::tag_lightweight` without `force`.
#[verifier::external_body]
pub fn repo_tag_lightweight(repo: &git2::Repository, name: &str, target: &git2::Object) -> Result<git2::Oid, git2::Error> {
    repo.tag_lightweight(name, target, false)
}

// ---------------------------------------------------------------------------
// History walks and graph queries
// ---------------------------------------------------------------------------

/// Calls `git2::Repository::revwalk`.
#[verifier::external_body]
pub fn repo_revwalk<'r>(repo: &'r git2::Repository) -> Result<git2::Revwalk<'r>, git2::Error> {
    repo.revwalk()
}

/// Calls `git2::Revwalk::push`.
#[verifier::external_body]
pub fn revwalk_push(w: &mut git2::Revwalk, oid: git2::Oid) -> Result<(), git2::Error> {
    w.push(oid)
}

/// Calls `git2::Revwalk::push_head`.
#[verifier::external_body]
pub fn revwalk_push_head(w: &mut git2::Revwalk) -> Result<(), git2::Error> {
    w.push_head()
}

/// The sort mode `git2::Sort::TIME`.
#[verifier::external_body]
pub fn sort_time() -> git2::Sort {
    git2::Sort::TIME
}

/// The sort mode `git2::Sort::TOPOLOGICAL`.
#[verifier::external_body]
pub fn sort_topological() -> git2::Sort {
    git2::Sort::TOPOLOGICAL
}

/// Calls `BitOr` of `git2::Sort`: both sort modes together.
#[verifier::external_body]
pub fn sort_union(a: git2::Sort, b: git2::Sort) -> git2::Sort {
    a | b
}

/// Calls `git2::Revwalk::set_sorting`.
#[verifier::external_body]
pub fn revwalk_set_sorting(w: &mut git2::Revwalk, mode: git2::Sort) -> Result<(), git2::Error> {
    w.set_sorting(mode)
}

/// Calls `git2::Revwalk::simplify_first_parent`.
#[verifier::external_body]
pub fn revwalk_simplify_first_parent(w: &mut git2::Revwalk) -> Result<(), git2::Error> {
    w.simplify_first_parent()
}

/// Calls `Iterator::next` of `git2::Revwalk`.
#[verifier::external_body]
pub fn revwalk_next(w: &mut git2::Revwalk) -> Option<Result<git2::Oid, git2::Error>> {
    w.next()
}

/// Calls `git2::Repository::graph_ahead_behind`.
#[verifier::external_body]
pub fn repo_graph_ahead_behind(repo: &git2::Repository, local: git2::Oid, upstream: git2::Oid) -> Result<(usize, usize), git2::Error> {
    repo.graph_ahead_behind(local, upstream)
}

/// Calls `git2::Repository::merge_base`.
#[verifier::external_body]
pub fn repo_merge_base(repo: &git2::Repository, one: git2::Oid, two: git2::Oid) -> Result<git2::Oid, git2::Error> {
    repo.merge_base(one, two)
}

// ---------------------------------------------------------------------------
// Checkout, merge, rebase, cherry-pick
// ---------------------------------------------------------------------------

/// Calls `git2::build::CheckoutBuilder::new`.
#[verifier::external_body]
pub fn checkout_builder_new() -> git2::build::CheckoutBuilder<'static> {
    git2::build::CheckoutBuilder::new()
}

/// Calls `git2::build::CheckoutBuilder::safe`.
#[verifier::external_body]
pub fn checkout_safe(b: &mut git2::build::CheckoutBuilder) {
    b.safe();
}

/// Calls `git2::build::CheckoutBuilder::force`.
#[verifier::external_body]
pub fn checkout_force(b: &mut git2::build::CheckoutBuilder) {
    b.force();
}

/// Calls `git2::build::CheckoutBuilder::path` with the path `path` (which
/// panics on a path with a NUL character, hence the `requires`).
#[verifier::external_body]
pub fn checkout_path(b: &mut git2::build::CheckoutBuilder, path: &str)
    requires
        crate::text::free_of_nul(path@),
{
    b.path(std::path::Path::new(path));
}

/// Calls `git2::Repository::checkout_tree` on the tree with the given options.
#[verifier::external_body]
pub fn repo_checkout_tree(repo: &git2::Repository, tree: &git2::Tree, opts: &mut git2::build::CheckoutBuilder) -> Result<(), git2::Error> {
    repo.checkout_tree(tree.as_object(), Some(opts))
}

/// Calls `git2::Repository::reset_default` with the target object and one path.
#[verifier::external_body]
pub fn repo_reset_default_path(repo: &git2::Repository, target: &git2::Object, path: &str) -> Result<(), git2::Error> {
    repo.reset_default(Some(target), [path])
}

/// Calls `git2::Repository::reference_to_annotated_commit`.
#[verifier::external_body]
pub fn repo_reference_to_annotated_commit<'r>(repo: &'r git2::Repository, r: &git2::Reference) -> Result<git2::AnnotatedCommit<'r>, git2::Error> {
    repo.reference_to_annotated_commit(r)
}

/// Calls `git2::Repository::find_annotated_commit`.
#[verifier::external_body]
pub fn repo_find_annotated_commit<'r>(repo: &'r git2::Repository, oid: git2::Oid) -> Result<git2::AnnotatedCommit<'r>, git2::Error> {
    repo.find_annotated_commit(oid)
}

/// Calls `git2::Repository::merge` with one commit and default options.
#[verifier::external_body]
pub fn repo_merge(repo: &git2::Repository, commit: &git2::AnnotatedCommit) -> Result<(), git2::Error> {
    repo.merge(&[commit], None, None)
}

/// Calls `git2::Repository::cleanup_state`.
#[verifier::external_body]
pub fn repo_cleanup_state(repo: &git2::Repository) -> Result<(), git2::Error> {
    repo.cleanup_state()
}

/// Calls `git2::RebaseOptions::new`.
#[verifier::external_body]
pub fn rebase_options_new() -> git2::RebaseOptions<'static> {
    git2::RebaseOptions::new()
}

/// Calls `git2::RebaseOptions::checkout_options`.
#[verifier::external_body]
pub fn rebase_options_checkout<'cb>(o: &mut git2::RebaseOptions<'cb>, checkout: git2::build::CheckoutBuilder<'cb>) {
    o.checkout_options(checkout);
}

/// Calls `git2::Repository::rebase` with the three commits and the options.
#[verifier::external_body]
pub fn repo_rebase<'r>(repo: &'r git2::Repository, branch: &git2::AnnotatedCommit, upstream: &git2::AnnotatedCommit, onto: &git2::AnnotatedCommit, opts: &mut git2::RebaseOptions) -> Result<git2::Rebase<'r>, git2::Error> {
    repo.rebase(Some(branch), Some(upstream), Some(onto), Some(opts))
}

/// Calls `Iterator::next` of `git2::Rebase`, dropping the operation itself.
#[verifier::external_body]
pub fn rebase_next(r: &mut git2::Rebase) -> Option<Result<(), git2::Error>> {
    r.next().map(|op| op.map(|_| ()))
}

/// Calls `git2::Rebase::commit` with no author and no new message.
#[verifier::external_body]
pub fn rebase_commit(r: &mut git2::Rebase, committer: &git2::Signature) -> Result<git2::Oid, git2::Error> {
    r.commit(None, committer, None)
}

/// Calls `git2::Rebase::abort`.
#[verifier::external_body]
pub fn rebase_abort(r: &mut git2::Rebase) -> Result<(), git2::Error> {
    r.abort()
}

/// Calls `git2::Rebase::finish` with no signature.
#[verifier::external_body]
pub fn rebase_finish(r: &mut git2::Rebase) -> Result<(), git2::Error> {
    r.finish(None)
}

/// Calls `git2::CherrypickOptions::new`.
#[verifier::external_body]
pub fn cherrypick_options_new() -> git2::CherrypickOptions<'static> {
    git2::CherrypickOptions::new()
}

/// Calls `git2::CherrypickOptions::mainline`.
#[verifier::external_body]
pub fn cherrypick_mainline(o: &mut git2::CherrypickOptions, mainline: u32) {
    o.mainline(mainline);
}

/// Calls `git2::Repository::cherrypick` with the options.
#[verifier::external_body]
pub fn repo_cherrypick(repo: &git2::Repository, commit: &git2::Commit, opts: &mut git2::CherrypickOptions) -> Result<(), git2::Error> {
    repo.cherrypick(commit, Some(opts))
}

// ---------------------------------------------------------------------------
// Index
// ---------------------------------------------------------------------------

/// Calls `git2::Index::has_conflicts`.
#[verifier::external_body]
pub fn index_has_conflicts(idx: &git2::Index) -> bool {
    idx.has_conflicts()
}

/// Calls `git2::Index::is_empty`.
#[verifier::external_body]
pub fn index_is_empty(idx: &git2::Index) -> bool {
    idx.is_empty()
}

/// Calls `git2::Index::write`.
#[verifier::external_body]
pub fn index_write(idx: &mut git2::Index) -> Result<(), git2::Error> {
    idx.write()
}

/// Calls `git2::Index::write_tree`.
#[verifier::external_body]
pub fn index_write_tree(idx: &mut git2::Index) -> Result<git2::Oid, git2::Error> {
    idx.write_tree()
}

/// Calls `git2::Index::add_path`.
#[verifier::external_body]
pub fn index_add_path(idx: &mut git2::Index, path: &str) -> Result<(), git2::Error> {
    idx.add_path(std::path::Path::new(path))
}

/// Calls `git2::Index::add_all` with one pattern, default flags and no callback.
#[verifier::external_body]
pub fn index_add_all(idx: &mut git2::Index, pattern: &str) -> Result<(), git2::Error> {
    idx.add_all([pattern].iter(), git2::IndexAddOption::DEFAULT, None)
}

/// Calls `git2::Index::conflicts`; each conflict is converted to the path
/// bytes of its "ours" entry, if it has one.
#[verifier::external_body]
pub fn index_conflict_our_paths(idx: &git2::Index) -> Result<Vec<Result<Option<Vec<u8>>, git2::Error>>, git2::Error> {
    Ok(idx.conflicts()?.map(|c| c.map(|c| c.our.map(|e| e.path))).collect())
}

// ---------------------------------------------------------------------------
// Diffs
// ---------------------------------------------------------------------------

/// Calls `git2::DiffOptions::new`.
#[verifier::external_body]
pub fn diff_options_new() -> git2::DiffOptions {
    git2::DiffOptions::new()
}

/// Calls `git2::DiffOptions::include_untracked`.
#[verifier::external_body]
pub fn diff_include_untracked(o: &mut git2::DiffOptions, untracked: bool) {
    o.include_untracked(untracked);
}

/// Calls `git2::DiffOptions::pathspec` with the path `path` (which panics on
/// a path with a NUL character, hence the `requires`).
#[verifier::external_body]
pub fn diff_pathspec(o: &mut git2::DiffOptions, path: &str)
    requires
        crate::text::free_of_nul(path@),
{
    o.pathspec(std::path::Path::new(path));
}

/// Calls `git2::Repository::diff_tree_to_tree` between the two trees.
#[verifier::external_body]
pub fn repo_diff_tree_to_tree<'r>(repo: &'r git2::Repository, old: &git2::Tree, new: &git2::Tree, opts: &mut git2::DiffOptions) -> Result<git2::Diff<'r>, git2::Error> {
    repo.diff_tree_to_tree(Some(old), Some(new), Some(opts))
}

/// Calls `git2::Repository::diff_index_to_workdir` for the default index.
#[verifier::external_body]
pub fn repo_diff_index_to_workdir<'r>(repo: &'r git2::Repository, opts: &mut git2::DiffOptions) -> Result<git2::Diff<'r>, git2::Error> {
    repo.diff_index_to_workdir(None, Some(opts))
}

/// Calls `git2::Diff::foreach` with a file callback only, collecting each
/// delta's kind and new path.
#[verifier::external_body]
pub fn diff_deltas(d: &git2::Diff) -> Result<Vec<DeltaRecord>, git2::Error> {
    let mut out = Vec::new();
    d.foreach(&mut |delta, _| {
        out.push(DeltaRecord { status: delta.status(), new_path: delta.new_file().path().map(|p| p.to_string_lossy().to_string()) });
        true
    }, None, None, None)?;
    Ok(out)
}

/// Tells the variants of `git2::Delta` apart, one to one.
#[verifier::external_body]
pub fn delta_kind(d: &git2::Delta) -> DeltaKind {
    match d {
        git2::Delta::Unmodified => DeltaKind::Unmodified,
        git2::Delta::Added => DeltaKind::Added,
        git2::Delta::Deleted => DeltaKind::Deleted,
        git2::Delta::Modified => DeltaKind::Modified,
        git2::Delta::Renamed => DeltaKind::Renamed,
        git2::Delta::Copied => DeltaKind::Copied,
        git2::Delta::Ignored => DeltaKind::Ignored,
        git2::Delta::Untracked => DeltaKind::Untracked,
        git2::Delta::Typechange => DeltaKind::Typechange,
        git2::Delta::Unreadable => DeltaKind::Unreadable,
        git2::Delta::Conflicted => DeltaKind::Conflicted,
    }
}

/// Calls `git2::Diff::print` in patch format, collecting each line's origin
/// and content (decoded with `String::from_utf8_lossy`); every line is taken.
#[verifier::external_body]
pub fn diff_patch_lines(d: &git2::Diff) -> Result<Vec<PatchLine>, git2::Error> {
    let mut out = Vec::new();
    d.print(git2::DiffFormat::Patch, |_, _, line| {
        out.push(PatchLine { origin: line.origin(), content: String::from_utf8_lossy(line.content()).to_string() });
        true
    })?;
    Ok(out)
}

} // verus!
