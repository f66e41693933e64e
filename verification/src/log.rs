//! History views: the paged, searchable commit log and the commit graph with
//! its lane layout.
use vstd::prelude::*;
use crate::commit::{
    CommitFacts, CommitFactsView, CommitSummary, CommitSummaryView, AuthorInfo, summary_of,
    summarize, or_default, text_or, copy_strings, read_commit, failure, reports_failure,
    opened_path_text, open_repo_text,
};
use crate::git;
use crate::state::AppState;
use crate::text::{lowercase, has_substring, has_prefix, trim_prefix_repeatedly, to_lowercase,
    contains_str, starts_with_str, concat_str, own, str_eq, trim_start_matches_str};

verus! {

broadcast use vstd::string::group_string_axioms;

// ---------------------------------------------------------------------------
// Options and results
// ---------------------------------------------------------------------------

/// What part of the history to list: the branch to start from (`None` for
/// `HEAD`), an optional path whose history to list (the walk then follows
/// first parents, and keeps the commits that change the path against their
/// first parent), how many commits to return, how many walked commits to
/// skip first, and an optional search term matched against message, author
/// name and e-mail.
#[derive(Debug)]
pub struct LogOptions {
    pub branch: Option<String>,
    pub path_filter: Option<String>,
    pub limit: usize,
    pub offset: usize,
    pub search: Option<String>,
}

/// The commits of the graph view, newest first.
#[derive(Debug)]
pub struct GraphData {
    pub commits: Vec<GraphCommit>,
}

/// One commit of the graph: its summary, its lane, the local branches that
/// point at it, and one connection per parent.
#[derive(Debug)]
pub struct GraphCommit {
    pub summary: CommitSummary,
    pub lane: usize,
    pub branches: Vec<String>,
    pub connections: Vec<Connection>,
}

/// An edge from a commit on lane `from_lane` to its parent `to_oid` on lane `to_lane`.
#[derive(Debug)]
pub struct Connection {
    pub to_oid: String,
    pub from_lane: usize,
    pub to_lane: usize,
}

/// The view of a [`Connection`].
pub struct ConnectionView {
    pub to_oid: Seq<char>,
    pub from_lane: nat,
    pub to_lane: nat,
}

/// The view of a [`GraphCommit`].
pub struct GraphCommitView {
    pub summary: CommitSummaryView,
    pub lane: nat,
    pub branches: Seq<Seq<char>>,
    pub connections: Seq<ConnectionView>,
}

impl DeepView for Connection {
    type V = ConnectionView;

    open spec fn deep_view(&self) -> ConnectionView {
        ConnectionView { to_oid: self.to_oid@, from_lane: self.from_lane as nat, to_lane: self.to_lane as nat }
    }
}

impl DeepView for GraphCommit {
    type V = GraphCommitView;

    open spec fn deep_view(&self) -> GraphCommitView {
        GraphCommitView {
            summary: self.summary.deep_view(),
            lane: self.lane as nat,
            branches: self.branches.deep_view(),
            connections: self.connections.deep_view(),
        }
    }
}

impl DeepView for GraphData {
    type V = Seq<GraphCommitView>;

    open spec fn deep_view(&self) -> Seq<GraphCommitView> {
        self.commits.deep_view()
    }
}

// ---------------------------------------------------------------------------
// The commit log: offset, search, limit
// ---------------------------------------------------------------------------

/// A commit matches a search term when the lower-cased term occurs in the
/// lower-cased message, author name or author e-mail (missing ones count as
/// empty).
pub open spec fn search_matches(f: CommitFactsView, term: Seq<char>) -> bool {
    let t = lowercase(term);
    has_substring(lowercase(or_default(f.message, ""@)), t)
        || has_substring(lowercase(or_default(f.author_name, ""@)), t)
        || has_substring(lowercase(or_default(f.author_email, ""@)), t)
}

/// A commit is listed under an optional search term.
pub open spec fn log_matches(f: CommitFactsView, search: Option<Seq<char>>) -> bool {
    match search {
        None => true,
        Some(t) => search_matches(f, t),
    }
}

/// The commits of `fs` that match, in order.
pub open spec fn matching(fs: Seq<CommitFactsView>, search: Option<Seq<char>>) -> Seq<CommitFactsView>
    decreases fs.len(),
{
    if fs.len() == 0 {
        Seq::empty()
    } else if log_matches(fs.last(), search) {
        matching(fs.drop_last(), search).push(fs.last())
    } else {
        matching(fs.drop_last(), search)
    }
}

/// `fs` without its first `n` elements.
pub open spec fn after_offset<A>(fs: Seq<A>, n: nat) -> Seq<A> {
    if n >= fs.len() { Seq::empty() } else { fs.subrange(n as int, fs.len() as int) }
}

/// The first `n` elements of `s` (all of them when it has fewer).
pub open spec fn take_upto<A>(s: Seq<A>, n: nat) -> Seq<A> {
    if n >= s.len() { s } else { s.subrange(0, n as int) }
}

/// How many commits a page holds: `limit`, except that a limit of 0 still
/// gives one commit (the limit is checked after a commit is added).
pub open spec fn page_size(limit: usize) -> nat {
    if limit == 0 { 1 } else { limit as nat }
}

/// The commits of a page of the log: skip `offset` commits of the walk, keep
/// those that match the search, take the first `page_size(limit)` of them.
pub open spec fn page_commits(fs: Seq<CommitFactsView>, offset: nat, limit: usize, search: Option<Seq<char>>) -> Seq<CommitFactsView> {
    take_upto(matching(after_offset(fs, offset), search), page_size(limit))
}

/// The page of the log: the summaries of its commits.
pub open spec fn log_page(fs: Seq<CommitFactsView>, offset: nat, limit: usize, search: Option<Seq<char>>) -> Seq<CommitSummaryView> {
    page_commits(fs, offset, limit, search).map_values(|f: CommitFactsView| summary_of(f))
}

/// The search term of the options, as characters.
pub open spec fn search_of(o: &LogOptions) -> Option<Seq<char>> {
    o.search.deep_view()
}

/// Whether the lower-cased term occurs in one of the lower-cased message,
/// author name and author e-mail.
pub fn lowered_texts_match(message: &str, name: &str, email: &str, term: &str) -> (res: bool)
    ensures
        res == (has_substring(message@, term@) || has_substring(name@, term@) || has_substring(email@, term@)),
{
    contains_str(message, term) || contains_str(name, term) || contains_str(email, term)
}

/// Whether a commit matches a search term (case-insensitively).
pub fn commit_matches_search(f: &CommitFacts, term: &str) -> (res: bool)
    ensures
        res == search_matches(f.deep_view(), term@),
{
    let t = to_lowercase(term);
    let message = text_or(&f.message, "");
    let name = text_or(&f.author_name, "");
    let email = text_or(&f.author_email, "");
    let m = to_lowercase(message.as_str());
    let n = to_lowercase(name.as_str());
    let e = to_lowercase(email.as_str());
    lowered_texts_match(m.as_str(), n.as_str(), e.as_str(), t.as_str())
}

fn log_accepts(f: &CommitFacts, search: &Option<String>) -> (res: bool)
    ensures
        res == log_matches(f.deep_view(), search.deep_view()),
{
    match search {
        None => true,
        Some(t) => commit_matches_search(f, t.as_str()),
    }
}

/// The commits of `fs` that pass the path filter (`ts` tells, commit by
/// commit, whether it does) and match the search term, in order.
pub open spec fn matching_touched(fs: Seq<CommitFactsView>, ts: Seq<bool>, search: Option<Seq<char>>) -> Seq<CommitFactsView>
    decreases fs.len(),
{
    if fs.len() == 0 {
        Seq::empty()
    } else if ts.last() && log_matches(fs.last(), search) {
        matching_touched(fs.drop_last(), ts.drop_last(), search).push(fs.last())
    } else {
        matching_touched(fs.drop_last(), ts.drop_last(), search)
    }
}

/// The page of the log of a walk in which `ts` tells which commits pass the
/// path filter: skip `offset` walked commits, keep those that pass the filter
/// and match the search, take the first `page_size(limit)` of them.
pub open spec fn log_page_filtered(fs: Seq<CommitFactsView>, ts: Seq<bool>, offset: nat, limit: usize, search: Option<Seq<char>>) -> Seq<CommitSummaryView> {
    take_upto(matching_touched(after_offset(fs, offset), after_offset(ts, offset), search), page_size(limit))
        .map_values(|f: CommitFactsView| summary_of(f))
}

proof fn lemma_matching_all_touched(fs: Seq<CommitFactsView>, ts: Seq<bool>, search: Option<Seq<char>>)
    requires
        ts.len() == fs.len(),
        forall|i: int| 0 <= i < ts.len() ==> ts[i],
    ensures
        matching_touched(fs, ts, search) == matching(fs, search),
    decreases fs.len(),
{
    if fs.len() > 0 {
        assert(ts.last() == ts[ts.len() - 1]);
        lemma_matching_all_touched(fs.drop_last(), ts.drop_last(), search);
    }
}

proof fn lemma_matching_touched_len(fs: Seq<CommitFactsView>, ts: Seq<bool>, search: Option<Seq<char>>)
    ensures
        matching_touched(fs, ts, search).len() <= fs.len(),
    decreases fs.len(),
{
    if fs.len() > 0 {
        lemma_matching_touched_len(fs.drop_last(), ts.drop_last(), search);
    }
}

/// Without a path filter (every commit passes it), the page is the page of
/// the log: `log_page_filtered` is `log_page`.
pub proof fn law_unfiltered_page(fs: Seq<CommitFactsView>, ts: Seq<bool>, offset: nat, limit: usize, search: Option<Seq<char>>)
    requires
        ts.len() == fs.len(),
        forall|i: int| 0 <= i < ts.len() ==> ts[i],
    ensures
        log_page_filtered(fs, ts, offset, limit, search) == log_page(fs, offset, limit, search),
{
    let a = after_offset(fs, offset);
    let b = after_offset(ts, offset);
    assert forall|i: int| 0 <= i < b.len() implies b[i] by {
        assert(b[i] == ts[i + offset]);
    }
    lemma_matching_all_touched(a, b, search);
}

/// Whether a commit changes a path: the path's entry in its tree (the id of
/// the entry, absent when there is none) differs from the entry in its first
/// parent's tree (absent for a root commit).
pub fn path_changed(current: &Option<String>, before: &Option<String>) -> (res: bool)
    ensures
        res == (current.deep_view() != before.deep_view()),
{
    match (current, before) {
        (Some(a), Some(b)) => !str_eq(a.as_str(), b.as_str()),
        (None, None) => false,
        _ => true,
    }
}

/// The id of the entry at `path` in the tree, when there is one.
fn path_entry(tree: &git2::Tree, path: &str) -> Option<String> {
    match git::tree_get_path(tree, path) {
        Ok(e) => Some(git::oid_hex(&git::tree_entry_id(&e))),
        Err(_) => None,
    }
}

/// Whether the commit changes `path` against its first parent (for a root
/// commit: whether its tree has the path).
fn commit_changes_path(commit: &git2::Commit, path: &str) -> (res: Result<bool, String>)
    ensures
        res is Err ==> reports_failure(res->Err_0@, "Failed to get tree"@)
            || reports_failure(res->Err_0@, "Failed to get parent"@)
            || reports_failure(res->Err_0@, "Failed to get parent tree"@),
{
    let tree = match git::commit_tree(commit) {
        Ok(t) => t,
        Err(e) => return Err(failure("Failed to get tree", &e)),
    };
    let current = path_entry(&tree, path);
    if git::commit_parent_count(commit) > 0 {
        let parent = match git::commit_parent(commit, 0) {
            Ok(p) => p,
            Err(e) => return Err(failure("Failed to get parent", &e)),
        };
        let parent_tree = match git::commit_tree(&parent) {
            Ok(t) => t,
            Err(e) => return Err(failure("Failed to get parent tree", &e)),
        };
        let before = path_entry(&parent_tree, path);
        Ok(path_changed(&current, &before))
    } else {
        Ok(path_changed(&current, &None))
    }
}

/// Offers one walked commit (past the offset) to a page: it is added, as its
/// summary, when it passes the path filter (`touched`) and matches the
/// search term.
pub fn offer_to_page(results: &mut Vec<CommitSummary>, f: &CommitFacts, touched: bool, search: &Option<String>)
    ensures
        final(results).deep_view() == if touched && log_matches(f.deep_view(), search.deep_view()) {
            old(results).deep_view().push(summary_of(f.deep_view()))
        } else {
            old(results).deep_view()
        },
{
    if touched && log_accepts(f, search) {
        let ghost before = results.deep_view();
        let summary = summarize(f);
        results.push(summary);
        proof {
            assert(results.deep_view() =~= before.push(summary_of(f.deep_view())));
        }
    }
}

/// One more element of the walk adds at most itself to the eligible commits.
proof fn lemma_eligible_step(s: Seq<CommitFactsView>, off: nat, search: Option<Seq<char>>, i: int)
    requires
        0 <= i < s.len(),
    ensures
        matching(after_offset(s.subrange(0, i + 1), off), search) == (
            if i >= off && log_matches(s[i], search) {
                matching(after_offset(s.subrange(0, i), off), search).push(s[i])
            } else {
                matching(after_offset(s.subrange(0, i), off), search)
            }),
{
    let a = after_offset(s.subrange(0, i + 1), off);
    let b = after_offset(s.subrange(0, i), off);
    if i >= off {
        assert(a.len() > 0);
        assert(a.drop_last() =~= b);
        assert(a.last() == s[i]);
    } else {
        assert(a =~= b);
    }
}

/// The eligible commits of a prefix of the walk begin the eligible commits of the whole walk.
proof fn lemma_eligible_prefix(s: Seq<CommitFactsView>, off: nat, search: Option<Seq<char>>, j: int)
    requires
        0 <= j <= s.len(),
    ensures
        matching(after_offset(s.subrange(0, j), off), search).len() <= matching(after_offset(s, off), search).len(),
        matching(after_offset(s, off), search).subrange(0, matching(after_offset(s.subrange(0, j), off), search).len() as int)
            == matching(after_offset(s.subrange(0, j), off), search),
    decreases s.len() - j,
{
    if j == s.len() {
        assert(s.subrange(0, j) =~= s);
    } else {
        lemma_eligible_prefix(s, off, search, j + 1);
        lemma_eligible_step(s, off, search, j);
        let m = matching(after_offset(s.subrange(0, j), off), search);
        let full = matching(after_offset(s, off), search);
        let m1 = matching(after_offset(s.subrange(0, j + 1), off), search);
        assert(m1.subrange(0, m.len() as int) =~= m);
        assert(full.subrange(0, m.len() as int) =~= m1.subrange(0, m.len() as int));
    }
}

/// Selects the page of the log from the commits of a walk, in walk order.
pub fn select_commit_log(commits: &Vec<CommitFacts>, options: &LogOptions) -> (res: Vec<CommitSummary>)
    ensures
        res.deep_view() == log_page(commits.deep_view(), options.offset as nat, options.limit, search_of(options)),
{
    let ghost s = commits.deep_view();
    let ghost off = options.offset as nat;
    let ghost search = search_of(options);
    let ghost ps = page_size(options.limit);
    let mut results: Vec<CommitSummary> = Vec::new();
    let mut skipped: usize = 0;
    let mut i: usize = 0;
    while i < commits.len()
        invariant_except_break
            results.len() < ps,
        invariant
            i <= commits.len(),
            s == commits.deep_view(),
            off == options.offset as nat,
            search == search_of(options),
            ps == page_size(options.limit),
            skipped as int == if i < off { i as int } else { off as int },
            results.deep_view() == matching(after_offset(s.subrange(0, i as int), off), search).map_values(|f: CommitFactsView| summary_of(f)),
        ensures
            results.len() <= ps,
            results.len() < ps ==> i == commits.len(),
            results.deep_view() == matching(after_offset(s.subrange(0, i as int), off), search).map_values(|f: CommitFactsView| summary_of(f)),
        decreases commits.len() - i,
    {
        proof {
            lemma_eligible_step(s, off, search, i as int);
        }
        if skipped < options.offset {
            skipped = skipped + 1;
            i = i + 1;
            continue;
        }
        let c = &commits[i];
        if !log_accepts(c, &options.search) {
            i = i + 1;
            continue;
        }
        let ghost before = results.deep_view();
        let summary = summarize(c);
        results.push(summary);
        proof {
            let m = matching(after_offset(s.subrange(0, i as int), off), search);
            assert(results.deep_view() =~= before.push(summary_of(s[i as int])));
            assert(results.deep_view() =~= m.push(s[i as int]).map_values(|f: CommitFactsView| summary_of(f)));
        }
        i = i + 1;
        if results.len() >= options.limit {
            break;
        }
    }
    proof {
        let m = matching(after_offset(s.subrange(0, i as int), off), search);
        let full = matching(after_offset(s, off), search);
        lemma_eligible_prefix(s, off, search, i as int);
        if results.len() < ps {
            assert(s.subrange(0, i as int) =~= s);
        } else {
            assert(m.len() == ps);
            assert(take_upto(full, ps) =~= m);
        }
    }
    results
}

// ---------------------------------------------------------------------------
// Laws of the log
// ---------------------------------------------------------------------------

proof fn lemma_matching_len(fs: Seq<CommitFactsView>, search: Option<Seq<char>>)
    ensures
        matching(fs, search).len() <= fs.len(),
        forall|i: int| 0 <= i < matching(fs, search).len() ==> log_matches(#[trigger] matching(fs, search)[i], search),
        search is None ==> matching(fs, search) == fs,
    decreases fs.len(),
{
    if fs.len() > 0 {
        lemma_matching_len(fs.drop_last(), search);
        if search is None {
            assert(fs.drop_last().push(fs.last()) =~= fs);
        }
        let m = matching(fs, search);
        let p = matching(fs.drop_last(), search);
        assert forall|i: int| 0 <= i < m.len() implies log_matches(#[trigger] m[i], search) by {
            if i < p.len() {
                assert(m[i] == p[i]);
            }
        }
    }
}

/// A page never holds more than `page_size(limit)` commits, and every commit
/// on it matches the search term.
pub proof fn law_page_bounded_and_matching(fs: Seq<CommitFactsView>, offset: nat, limit: usize, search: Option<Seq<char>>)
    ensures
        page_commits(fs, offset, limit, search).len() <= page_size(limit),
        log_page(fs, offset, limit, search).len() == page_commits(fs, offset, limit, search).len(),
        forall|i: int| 0 <= i < page_commits(fs, offset, limit, search).len() ==>
            log_matches(#[trigger] page_commits(fs, offset, limit, search)[i], search),
{
    let m = matching(after_offset(fs, offset), search);
    lemma_matching_len(after_offset(fs, offset), search);
    let t = page_commits(fs, offset, limit, search);
    assert forall|i: int| 0 <= i < t.len() implies log_matches(#[trigger] t[i], search) by {
        assert(t[i] == m[i]);
    }
}

/// Without a search term, the page is the slice of the walk that starts at
/// `offset` and holds `page_size(limit)` commits.
pub proof fn law_page_without_search(fs: Seq<CommitFactsView>, offset: nat, limit: usize)
    ensures
        log_page(fs, offset, limit, None) == take_upto(after_offset(fs, offset), page_size(limit)).map_values(|f: CommitFactsView| summary_of(f)),
{
    lemma_matching_len(after_offset(fs, offset), None);
}

/// Without a search term, two consecutive pages of sizes `a` and `b` make up
/// the page of size `a + b`.
pub proof fn law_consecutive_pages(fs: Seq<CommitFactsView>, a: usize, b: usize)
    requires
        a > 0,
        b > 0,
        a + b <= usize::MAX,
    ensures
        log_page(fs, 0, a, None) + log_page(fs, a as nat, b, None) == log_page(fs, 0, (a + b) as usize, None),
{
    law_page_without_search(fs, 0, a);
    law_page_without_search(fs, a as nat, b);
    law_page_without_search(fs, 0, (a + b) as usize);
    let f = |x: CommitFactsView| summary_of(x);
    let all = after_offset(fs, 0);
    let p1 = take_upto(all, a as nat);
    let p2 = take_upto(after_offset(fs, a as nat), b as nat);
    let p = take_upto(all, (a + b) as nat);
    if fs.len() > 0 {
        assert(all =~= fs);
    } else {
        assert(all =~= fs);
    }
    assert(p1 + p2 =~= p);
    assert(p1.map_values(f) + p2.map_values(f) =~= (p1 + p2).map_values(f));
}

// ---------------------------------------------------------------------------
// The commit log command
// ---------------------------------------------------------------------------

/// The reference name a branch option stands for: itself when it starts with
/// `refs/`, else the local branch `refs/heads/<name>`.
pub fn branch_refname(branch: &str) -> (res: String)
    ensures
        res@ == if has_prefix(branch@, "refs/"@) { branch@ } else { "refs/heads/"@ + branch@ },
{
    if starts_with_str(branch, "refs/") {
        own(branch)
    } else {
        concat_str("refs/heads/", branch)
    }
}

/// The remote-tracking reference tried when the branch is not found:
/// `refs/remotes/origin/<name>`.
pub fn remote_refname(branch: &str) -> (res: String)
    ensures
        res@ == "refs/remotes/origin/"@ + branch@,
{
    concat_str("refs/remotes/origin/", branch)
}

/// "Branch '<name>'<rest>".
fn branch_message(branch: &str, rest: &str) -> (res: String)
    ensures
        res@ == "Branch '"@ + branch@ + "'"@ + rest@,
{
    let a = concat_str("Branch '", branch);
    let b = concat_str(a.as_str(), "'");
    concat_str(b.as_str(), rest)
}

/// Why the log cannot start from the named branch: it is found under
/// neither reference name, or it is not a direct reference.
pub open spec fn branch_start_refusal(msg: Seq<char>, name: Seq<char>) -> bool {
    ||| exists|t: Seq<char>| msg == "Branch '"@ + name + "' not found: "@ + t
    ||| msg == "Branch '"@ + name + "'"@ + " is not a direct reference"@
}

/// Why the log cannot start from `HEAD`: it cannot be read, or it has no
/// target.
pub open spec fn head_start_refusal(msg: Seq<char>) -> bool {
    ||| reports_failure(msg, "Failed to get HEAD"@)
    ||| msg == "HEAD is detached and has no target"@
}

/// The reference name a branch option stands for (see `branch_refname`).
pub open spec fn local_refname_of(branch: Seq<char>) -> Seq<char> {
    if has_prefix(branch, "refs/"@) { branch } else { "refs/heads/"@ + branch }
}

/// The remote-tracking reference name of a branch option (see `remote_refname`).
pub open spec fn remote_refname_of(branch: Seq<char>) -> Seq<char> {
    "refs/remotes/origin/"@ + branch
}

/// A reference looked up by name: the name, and what the lookup gave.
pub struct RefLookup<'r> {
    pub name: String,
    pub found: Result<git2::Reference<'r>, git2::Error>,
}

/// Looks up the reference named `refname`.
pub fn lookup_reference<'r>(repo: &'r git2::Repository, refname: &str) -> (res: RefLookup<'r>)
    ensures
        res.name@ == refname@,
{
    RefLookup { name: own(refname), found: git::repo_find_reference(repo, refname) }
}

/// The reference the log of the branch option `branch` starts from, given
/// the lookups of its reference name and of its remote-tracking name: the
/// branch's own reference whenever it was found; the remote-tracking one
/// (or its lookup failure) only when the branch's own was not found.
pub fn pick_branch_reference<'r>(branch: &str, local: RefLookup<'r>, remote: RefLookup<'r>) -> (res: Result<git2::Reference<'r>, git2::Error>)
    requires
        local.name@ == local_refname_of(branch@),
        remote.name@ == remote_refname_of(branch@),
    ensures
        local.found is Ok ==> res == local.found,
        local.found is Err ==> res == remote.found,
{
    match local.found {
        Ok(r) => Ok(r),
        Err(_) => remote.found,
    }
}

/// The commit the log starts from: the named branch (tried as a local branch
/// or full reference, then as `origin`'s branch) or `HEAD`.
fn log_start<'r>(repo: &'r git2::Repository, branch: &Option<String>) -> (res: Result<git2::Oid, String>)
    ensures
        res is Err ==> match branch {
            Some(name) => branch_start_refusal(res->Err_0@, name@),
            None => head_start_refusal(res->Err_0@),
        },
{
    match branch {
        Some(name) => {
            let refname = branch_refname(name.as_str());
            let local = lookup_reference(repo, refname.as_str());
            let remote_name = remote_refname(name.as_str());
            let remote = lookup_reference(repo, remote_name.as_str());
            let reference = match pick_branch_reference(name.as_str(), local, remote) {
                Ok(r) => r,
                Err(e) => {
                    let t = git::error_text(&e);
                    let rest = concat_str("' not found: ", t.as_str());
                    let a = concat_str("Branch '", name.as_str());
                    let msg = concat_str(a.as_str(), rest.as_str());
                    proof {
                        assert(msg@ =~= "Branch '"@ + name@ + "' not found: "@ + t@);
                        assert(branch_start_refusal(msg@, name@));
                    }
                    return Err(msg);
                }
            };
            match git::reference_target(&reference) {
                Some(t) => Ok(t),
                None => Err(branch_message(name.as_str(), " is not a direct reference")),
            }
        }
        None => {
            let head = match git::repo_head(repo) {
                Ok(h) => h,
                Err(e) => return Err(failure("Failed to get HEAD", &e)),
            };
            match git::reference_target(&head) {
                Some(t) => Ok(t),
                None => Err(own("HEAD is detached and has no target")),
            }
        }
    }
}

/// Why the log of an open repository could not be given: the repository,
/// the start, or the walk.
pub open spec fn commit_log_failure(msg: Seq<char>, branch: Option<Seq<char>>) -> bool {
    ||| reports_failure(msg, "Failed to open repository"@)
    ||| (match branch {
        Some(name) => branch_start_refusal(msg, name),
        None => head_start_refusal(msg),
    })
    ||| reports_failure(msg, "Failed to create revwalk"@)
    ||| reports_failure(msg, "Failed to push start OID"@)
    ||| reports_failure(msg, "Failed to set sorting"@)
    ||| reports_failure(msg, "Failed to simplify"@)
    ||| reports_failure(msg, "Failed to walk"@)
    ||| reports_failure(msg, "Failed to find commit"@)
    ||| reports_failure(msg, "Failed to get tree"@)
    ||| reports_failure(msg, "Failed to get parent"@)
    ||| reports_failure(msg, "Failed to get parent tree"@)
}

/// The commit log of the open repository: walks from the start commit in
/// time and topological order and returns the page that the options select.
pub fn get_commit_log(state: &AppState, options: &LogOptions) -> (res: Result<Vec<CommitSummary>, String>)
    ensures
        state.current_repo_path is None ==> res is Err && res->Err_0@ == "No repository opened"@,
        res is Ok ==> exists|walk: Seq<CommitFactsView>, touched: Seq<bool>| {
            &&& walk.len() == touched.len()
            &&& options.path_filter is None ==> forall|i: int| 0 <= i < touched.len() ==> touched[i]
            &&& #[trigger] log_page_filtered(walk, touched, options.offset as nat, options.limit, search_of(options)) == res->Ok_0.deep_view()
        },
        state.current_repo_path is Some && res is Err ==> commit_log_failure(res->Err_0@, options.branch.deep_view()),
{
    let repo_path = opened_path_text(state)?;
    let repo = open_repo_text(repo_path.as_str())?;
    let start = log_start(&repo, &options.branch)?;
    let mut walk_handle = match git::repo_revwalk(&repo) {
        Ok(w) => w,
        Err(e) => return Err(failure("Failed to create revwalk", &e)),
    };
    if let Err(e) = git::revwalk_push(&mut walk_handle, start) {
        return Err(failure("Failed to push start OID", &e));
    }
    let mode = git::sort_union(git::sort_time(), git::sort_topological());
    if let Err(e) = git::revwalk_set_sorting(&mut walk_handle, mode) {
        return Err(failure("Failed to set sorting", &e));
    }
    if options.path_filter.is_some() {
        if let Err(e) = git::revwalk_simplify_first_parent(&mut walk_handle) {
            return Err(failure("Failed to simplify", &e));
        }
    }
    let ghost search = search_of(options);
    let ghost off = options.offset as nat;
    let ghost ps = page_size(options.limit);
    // The commits walked so far; a skipped commit is not read, and stands
    // here as some commit.
    let ghost mut walk: Seq<CommitFactsView> = Seq::empty();
    // Whether each walked commit passes the path filter.
    let ghost mut touched: Seq<bool> = Seq::empty();
    let mut results: Vec<CommitSummary> = Vec::new();
    let mut skipped: usize = 0;
    // A walk yields each commit of the repository at most once; the count of
    // remaining steps bounds the loop.
    let mut steps_left: usize = usize::MAX;
    loop
        invariant_except_break
            results.len() < ps,
        invariant
            state.current_repo_path is Some,
            search == search_of(options),
            off == options.offset as nat,
            ps == page_size(options.limit),
            skipped as int == if walk.len() < off { walk.len() as int } else { off as int },
            walk.len() == touched.len(),
            options.path_filter is None ==> forall|i: int| 0 <= i < touched.len() ==> touched[i],
            results.deep_view() == matching_touched(after_offset(walk, off), after_offset(touched, off), search).map_values(|f: CommitFactsView| summary_of(f)),
        ensures
            results.len() <= ps,
            walk.len() == touched.len(),
            options.path_filter is None ==> forall|i: int| 0 <= i < touched.len() ==> touched[i],
            results.deep_view() == take_upto(matching_touched(after_offset(walk, off), after_offset(touched, off), search), ps).map_values(|f: CommitFactsView| summary_of(f)),
        decreases steps_left,
    {
        if steps_left == 0 {
            proof {
                lemma_matching_touched_len(after_offset(walk, off), after_offset(touched, off), search);
            }
            break;
        }
        steps_left = steps_left - 1;
        let oid = match git::revwalk_next(&mut walk_handle) {
            None => {
                proof {
                    lemma_matching_touched_len(after_offset(walk, off), after_offset(touched, off), search);
                }
                break;
            }
            Some(Err(e)) => return Err(failure("Failed to walk", &e)),
            Some(Ok(o)) => o,
        };
        if skipped < options.offset {
            skipped = skipped + 1;
            proof {
                let some_commit = vstd::pervasive::arbitrary::<CommitFactsView>();
                let old_walk = walk;
                let old_touched = touched;
                walk = walk.push(some_commit);
                touched = touched.push(true);
                assert(after_offset(walk, off) =~= after_offset(old_walk, off));
                assert(after_offset(touched, off) =~= after_offset(old_touched, off));
                assert forall|k: int| 0 <= k < touched.len() && options.path_filter is None implies touched[k] by {
                    if k < old_touched.len() {
                        assert(touched[k] == old_touched[k]);
                    }
                }
            }
            continue;
        }
        let commit = match git::repo_find_commit(&repo, oid) {
            Ok(c) => c,
            Err(e) => return Err(failure("Failed to find commit", &e)),
        };
        let facts = read_commit(&commit);
        let passes = match &options.path_filter {
            Some(p) => commit_changes_path(&commit, p.as_str())?,
            None => true,
        };
        let ghost before = results.deep_view();
        proof {
            let old_walk = walk;
            let old_touched = touched;
            walk = walk.push(facts.deep_view());
            touched = touched.push(passes);
            let a = after_offset(walk, off);
            let b = after_offset(touched, off);
            assert(a.drop_last() =~= after_offset(old_walk, off));
            assert(b.drop_last() =~= after_offset(old_touched, off));
            assert(a.last() == facts.deep_view());
            assert(b.last() == passes);
            assert forall|k: int| 0 <= k < touched.len() && options.path_filter is None implies touched[k] by {
                if k < old_touched.len() {
                    assert(touched[k] == old_touched[k]);
                }
            }
        }
        offer_to_page(&mut results, &facts, passes, &options.search);
        proof {
            let m = matching_touched(after_offset(walk, off), after_offset(touched, off), search);
            assert(results.deep_view() =~= m.map_values(|f: CommitFactsView| summary_of(f)));
        }
        if results.len() >= options.limit {
            proof {
                let m = matching_touched(after_offset(walk, off), after_offset(touched, off), search);
                assert(take_upto(m, ps) =~= m);
            }
            break;
        }
    }
    proof {
        assert(log_page_filtered(walk, touched, off, options.limit, search_of(options)) == results.deep_view());
    }
    Ok(results)
}

// ---------------------------------------------------------------------------
// The commit graph: branch labels and lanes
// ---------------------------------------------------------------------------

/// A local branch as the graph reads it: its name (absent when it cannot be
/// read) and the hexadecimal id of its target (absent for a symbolic one).
#[derive(Debug)]
pub struct BranchTip {
    pub name: Option<String>,
    pub target: Option<String>,
}

/// The view of a [`BranchTip`].
pub struct BranchTipView {
    pub name: Option<Seq<char>>,
    pub target: Option<Seq<char>>,
}

impl DeepView for BranchTip {
    type V = BranchTipView;

    open spec fn deep_view(&self) -> BranchTipView {
        BranchTipView { name: self.name.deep_view(), target: self.target.deep_view() }
    }
}

/// The label of a branch in the graph: its name (`unknown` when absent)
/// without leading `refs/heads/` prefixes.
pub open spec fn tip_label(t: BranchTipView) -> Seq<char> {
    trim_prefix_repeatedly(or_default(t.name, "unknown"@), "refs/heads/"@)
}

/// The labels of the branches that point at `oid`, in listing order.
pub open spec fn branches_at(tips: Seq<BranchTipView>, oid: Seq<char>) -> Seq<Seq<char>>
    decreases tips.len(),
{
    if tips.len() == 0 {
        Seq::empty()
    } else if tips.last().target == Some(oid) {
        branches_at(tips.drop_last(), oid).push(tip_label(tips.last()))
    } else {
        branches_at(tips.drop_last(), oid)
    }
}

/// The labels of the branches that point at `oid`.
pub fn branch_names_at(tips: &Vec<BranchTip>, oid: &str) -> (res: Vec<String>)
    ensures
        res.deep_view() == branches_at(tips.deep_view(), oid@),
{
    let ghost ts = tips.deep_view();
    let mut out: Vec<String> = Vec::new();
    let mut i: usize = 0;
    while i < tips.len()
        invariant
            i <= tips.len(),
            ts == tips.deep_view(),
            out.deep_view() == branches_at(ts.subrange(0, i as int), oid@),
        decreases tips.len() - i,
    {
        proof {
            assert(ts.subrange(0, i + 1).drop_last() =~= ts.subrange(0, i as int));
        }
        let t = &tips[i];
        let hit = match &t.target {
            Some(target) => str_eq(target.as_str(), oid),
            None => false,
        };
        if hit {
            let name = text_or(&t.name, "unknown");
            let label = trim_start_matches_str(name.as_str(), "refs/heads/");
            let ghost before = out.deep_view();
            out.push(label);
            proof {
                assert(out.deep_view() =~= before.push(tip_label(ts[i as int])));
            }
        }
        i = i + 1;
    }
    proof {
        assert(ts.subrange(0, tips.len() as int) =~= ts);
    }
    out
}

/// One commit to place in the graph: its summary, the branches that point at
/// it, and the hexadecimal ids of its parents in order.
#[derive(Debug)]
pub struct GraphInput {
    pub summary: CommitSummary,
    pub branches: Vec<String>,
    pub parents: Vec<String>,
}

/// The view of a [`GraphInput`].
pub struct GraphInputView {
    pub summary: CommitSummaryView,
    pub branches: Seq<Seq<char>>,
    pub parents: Seq<Seq<char>>,
}

impl DeepView for GraphInput {
    type V = GraphInputView;

    open spec fn deep_view(&self) -> GraphInputView {
        GraphInputView {
            summary: self.summary.deep_view(),
            branches: self.branches.deep_view(),
            parents: self.parents.deep_view(),
        }
    }
}

/// What the graph places for a commit: its summary, the labels of the local
/// branches that point at it, and its parents.
pub open spec fn graph_input_of(f: CommitFactsView, tips: Seq<BranchTipView>) -> GraphInputView {
    GraphInputView { summary: summary_of(f), branches: branches_at(tips, f.oid), parents: f.parents }
}

/// What the graph places for each of a sequence of commits.
pub open spec fn graph_inputs(fs: Seq<CommitFactsView>, tips: Seq<BranchTipView>) -> Seq<GraphInputView> {
    fs.map_values(|f: CommitFactsView| graph_input_of(f, tips))
}

/// The lane recorded last for `oid` in a table of (commit id, lane) pairs.
pub open spec fn table_lookup(t: Seq<(Seq<char>, nat)>, oid: Seq<char>) -> Option<nat>
    decreases t.len(),
{
    if t.len() == 0 {
        None
    } else if t.last().0 == oid {
        Some(t.last().1)
    } else {
        table_lookup(t.drop_last(), oid)
    }
}

/// The edges of a commit on `lane` to its parents: each parent is drawn on
/// its own lane when it has one, else on the commit's lane.
pub open spec fn connections_of(t: Seq<(Seq<char>, nat)>, parents: Seq<Seq<char>>, lane: nat) -> Seq<ConnectionView> {
    parents.map_values(|p: Seq<char>| ConnectionView {
        to_oid: p,
        from_lane: lane,
        to_lane: match table_lookup(t, p) {
            Some(l) => l,
            None => lane,
        },
    })
}

/// The layout after placing some commits: the placed commits, the lane table
/// (one entry per placed commit), and how many lanes have been opened.
pub struct LaneState {
    pub nodes: Seq<GraphCommitView>,
    pub table: Seq<(Seq<char>, nat)>,
    pub opened: nat,
}

/// Places commits one after the other: a commit continues on the lane of its
/// first parent when that parent is already placed, and opens a new lane
/// otherwise (also when it has no parent); its edges are drawn once it is
/// recorded in the table.
pub open spec fn lane_state(ins: Seq<GraphInputView>) -> LaneState
    decreases ins.len(),
{
    if ins.len() == 0 {
        LaneState { nodes: Seq::empty(), table: Seq::empty(), opened: 0 }
    } else {
        let st = lane_state(ins.drop_last());
        let x = ins.last();
        let found = if x.parents.len() > 0 { table_lookup(st.table, x.parents[0]) } else { None };
        let lane = match found {
            Some(l) => l,
            None => st.opened,
        };
        let opened = match found {
            Some(_) => st.opened,
            None => st.opened + 1,
        };
        let table = st.table.push((x.summary.oid, lane));
        let node = GraphCommitView {
            summary: x.summary,
            lane: lane,
            branches: x.branches,
            connections: connections_of(table, x.parents, lane),
        };
        LaneState { nodes: st.nodes.push(node), table: table, opened: opened }
    }
}

/// The graph of a sequence of commits.
pub open spec fn graph_of(ins: Seq<GraphInputView>) -> Seq<GraphCommitView> {
    lane_state(ins).nodes
}

/// How many lanes the graph of a sequence of commits uses.
pub open spec fn lanes_opened(ins: Seq<GraphInputView>) -> nat {
    lane_state(ins).opened
}

/// The view of an executable lane table.
pub open spec fn table_view(t: Seq<(String, usize)>) -> Seq<(Seq<char>, nat)> {
    t.map_values(|e: (String, usize)| (e.0@, e.1 as nat))
}

/// The lane recorded last for `oid`.
fn find_lane(table: &Vec<(String, usize)>, oid: &str) -> (res: Option<usize>)
    ensures
        match res {
            Some(l) => table_lookup(table_view(table@), oid@) == Some(l as nat),
            None => table_lookup(table_view(table@), oid@) is None,
        },
{
    let ghost tv = table_view(table@);
    let mut j: usize = table.len();
    proof {
        assert(tv.subrange(0, j as int) =~= tv);
    }
    while j > 0
        invariant
            j <= table.len(),
            tv == table_view(table@),
            table_lookup(tv, oid@) == table_lookup(tv.subrange(0, j as int), oid@),
        decreases j,
    {
        let hit = str_eq(table[j - 1].0.as_str(), oid);
        proof {
            let sub = tv.subrange(0, j as int);
            assert(sub.drop_last() =~= tv.subrange(0, j - 1));
            assert(sub.last() == tv[j - 1]);
        }
        if hit {
            return Some(table[j - 1].1);
        }
        j = j - 1;
    }
    None
}

/// A copy of a commit summary.
pub fn copy_summary(s: &CommitSummary) -> (res: CommitSummary)
    ensures
        res.deep_view() == s.deep_view(),
{
    CommitSummary {
        oid: own(s.oid.as_str()),
        message: own(s.message.as_str()),
        author: AuthorInfo { name: own(s.author.name.as_str()), email: own(s.author.email.as_str()) },
        timestamp: s.timestamp,
    }
}

/// Lays out commits (newest first) on lanes and draws their edges.
pub fn build_graph(inputs: &Vec<GraphInput>) -> (res: GraphData)
    ensures
        res.deep_view() == graph_of(inputs.deep_view()),
{
    let ghost ins = inputs.deep_view();
    let mut table: Vec<(String, usize)> = Vec::new();
    let mut next_lane: usize = 0;
    let mut out: Vec<GraphCommit> = Vec::new();
    let mut i: usize = 0;
    while i < inputs.len()
        invariant
            i <= inputs.len(),
            ins == inputs.deep_view(),
            out.deep_view() == lane_state(ins.subrange(0, i as int)).nodes,
            table_view(table@) == lane_state(ins.subrange(0, i as int)).table,
            next_lane as nat == lane_state(ins.subrange(0, i as int)).opened,
            next_lane <= i,
        decreases inputs.len() - i,
    {
        let ghost pre = ins.subrange(0, i as int);
        let ghost st = lane_state(pre);
        proof {
            assert(ins.subrange(0, i + 1).drop_last() =~= pre);
            assert(ins.subrange(0, i + 1).last() == ins[i as int]);
        }
        let x = &inputs[i];
        let found = if x.parents.len() > 0 { find_lane(&table, x.parents[0].as_str()) } else { None };
        let lane = match found {
            Some(l) => l,
            None => {
                let l = next_lane;
                next_lane = next_lane + 1;
                l
            }
        };
        let ghost before_table = table_view(table@);
        table.push((own(x.summary.oid.as_str()), lane));
        proof {
            assert(table_view(table@) =~= before_table.push((x.summary.oid@, lane as nat)));
        }
        let ghost tv = table_view(table@);
        let mut connections: Vec<Connection> = Vec::new();
        let mut k: usize = 0;
        while k < x.parents.len()
            invariant
                k <= x.parents.len(),
                tv == table_view(table@),
                connections.deep_view() == connections_of(tv, x.parents.deep_view().subrange(0, k as int), lane as nat),
            decreases x.parents.len() - k,
        {
            let p = &x.parents[k];
            let to_lane = match find_lane(&table, p.as_str()) {
                Some(l) => l,
                None => lane,
            };
            let ghost before = connections.deep_view();
            let c = Connection { to_oid: own(p.as_str()), from_lane: lane, to_lane };
            connections.push(c);
            proof {
                let ps = x.parents.deep_view();
                assert(ps[k as int] == p@);
                let want = ConnectionView {
                    to_oid: ps[k as int],
                    from_lane: lane as nat,
                    to_lane: match table_lookup(tv, ps[k as int]) {
                        Some(l) => l,
                        None => lane as nat,
                    },
                };
                assert(c.deep_view() == want);
                assert(connections.deep_view() =~= before.push(want));
                assert(connections.deep_view() =~= connections_of(tv, ps.subrange(0, k + 1), lane as nat));
            }
            k = k + 1;
        }
        proof {
            assert(x.parents.deep_view().subrange(0, x.parents.len() as int) =~= x.parents.deep_view());
        }
        let node = GraphCommit {
            summary: copy_summary(&x.summary),
            lane,
            branches: copy_strings(&x.branches),
            connections,
        };
        let ghost before_nodes = out.deep_view();
        out.push(node);
        proof {
            assert(out.deep_view() =~= before_nodes.push(node.deep_view()));
            assert(out.deep_view() =~= lane_state(ins.subrange(0, i + 1)).nodes);
        }
        i = i + 1;
    }
    proof {
        assert(ins.subrange(0, inputs.len() as int) =~= ins);
    }
    GraphData { commits: out }
}

// ---------------------------------------------------------------------------
// Laws of the graph layout
// ---------------------------------------------------------------------------

proof fn lemma_lookup(t: Seq<(Seq<char>, nat)>, oid: Seq<char>)
    ensures
        table_lookup(t, oid) is Some ==> exists|j: int| 0 <= j < t.len() && #[trigger] t[j] == (oid, table_lookup(t, oid)->0),
        table_lookup(t, oid) is None ==> forall|j: int| 0 <= j < t.len() ==> (#[trigger] t[j]).0 != oid,
    decreases t.len(),
{
    if t.len() > 0 {
        lemma_lookup(t.drop_last(), oid);
        if t.last().0 == oid {
            assert(t[t.len() - 1] == (oid, table_lookup(t, oid)->0));
        } else if table_lookup(t, oid) is Some {
            let j = choose|j: int| 0 <= j < t.drop_last().len() && #[trigger] t.drop_last()[j] == (oid, table_lookup(t, oid)->0);
            assert(t[j] == t.drop_last()[j]);
        } else {
            assert forall|j: int| 0 <= j < t.len() implies (#[trigger] t[j]).0 != oid by {
                if j < t.len() - 1 {
                    assert(t[j] == t.drop_last()[j]);
                }
            }
        }
    }
}

/// The layout of a prefix of the commits is the prefix of the layout.
proof fn lemma_state_prefix(ins: Seq<GraphInputView>, k: int)
    requires
        0 <= k <= ins.len(),
    ensures
        lane_state(ins.subrange(0, k)).nodes == lane_state(ins).nodes.subrange(0, k),
        lane_state(ins.subrange(0, k)).table == lane_state(ins).table.subrange(0, k),
    decreases ins.len(),
{
    lemma_state_shape(ins);
    if k == ins.len() {
        assert(ins.subrange(0, k) =~= ins);
        assert(lane_state(ins).nodes.subrange(0, k) =~= lane_state(ins).nodes);
        assert(lane_state(ins).table.subrange(0, k) =~= lane_state(ins).table);
    } else {
        let d = ins.drop_last();
        lemma_state_prefix(d, k);
        lemma_state_shape(d);
        assert(d.subrange(0, k) =~= ins.subrange(0, k));
        assert(lane_state(ins).nodes.subrange(0, k) =~= lane_state(d).nodes.subrange(0, k));
        assert(lane_state(ins).table.subrange(0, k) =~= lane_state(d).table.subrange(0, k));
    }
}

/// The layout has one node and one table entry per commit; each entry
/// records the commit's id and lane; every lane is below the count of opened
/// lanes.
proof fn lemma_state_shape(ins: Seq<GraphInputView>)
    ensures
        lane_state(ins).nodes.len() == ins.len(),
        lane_state(ins).table.len() == ins.len(),
        lane_state(ins).opened <= ins.len(),
        forall|j: int| 0 <= j < ins.len() ==> {
            &&& (#[trigger] lane_state(ins).table[j]) == (ins[j].summary.oid, lane_state(ins).nodes[j].lane)
            &&& lane_state(ins).nodes[j].lane < lane_state(ins).opened
        },
    decreases ins.len(),
{
    if ins.len() > 0 {
        let d = ins.drop_last();
        lemma_state_shape(d);
        let st = lane_state(d);
        let x = ins.last();
        let found = if x.parents.len() > 0 { table_lookup(st.table, x.parents[0]) } else { None };
        if found is Some {
            lemma_lookup(st.table, x.parents[0]);
            let j = choose|j: int| 0 <= j < st.table.len() && #[trigger] st.table[j] == (x.parents[0], table_lookup(st.table, x.parents[0])->0);
            assert(st.nodes[j].lane < st.opened);
        }
        assert forall|j: int| 0 <= j < ins.len() implies {
            &&& (#[trigger] lane_state(ins).table[j]) == (ins[j].summary.oid, lane_state(ins).nodes[j].lane)
            &&& lane_state(ins).nodes[j].lane < lane_state(ins).opened
        } by {
            if j < d.len() {
                assert(lane_state(ins).table[j] == st.table[j]);
                assert(lane_state(ins).nodes[j] == st.nodes[j]);
                assert(d[j] == ins[j]);
            }
        }
    }
}

/// The node of commit `k`, as the step that places it builds it.
proof fn lemma_node(ins: Seq<GraphInputView>, k: int)
    requires
        0 <= k < ins.len(),
    ensures
        ({
            let st = lane_state(ins.subrange(0, k));
            let x = ins[k];
            let found = if x.parents.len() > 0 { table_lookup(st.table, x.parents[0]) } else { None };
            let lane = match found { Some(l) => l, None => st.opened };
            let table = st.table.push((x.summary.oid, lane));
            graph_of(ins)[k] == GraphCommitView {
                summary: x.summary,
                lane: lane,
                branches: x.branches,
                connections: connections_of(table, x.parents, lane),
            } && table == lane_state(ins).table.subrange(0, k + 1)
        }),
{
    lemma_state_prefix(ins, k + 1);
    lemma_state_shape(ins);
    let p = ins.subrange(0, k + 1);
    assert(p.drop_last() =~= ins.subrange(0, k));
    assert(p.last() == ins[k]);
    assert(lane_state(p).nodes.last() == graph_of(ins)[k]);
}

/// The graph has one node per commit, in order; each node keeps its commit's
/// summary and branch labels and has one edge per parent, from its own lane
/// to that parent.
pub proof fn law_graph_shape(ins: Seq<GraphInputView>, k: int)
    requires
        0 <= k < ins.len(),
    ensures
        graph_of(ins).len() == ins.len(),
        graph_of(ins)[k].summary == ins[k].summary,
        graph_of(ins)[k].branches == ins[k].branches,
        graph_of(ins)[k].connections.len() == ins[k].parents.len(),
        forall|c: int| 0 <= c < ins[k].parents.len() ==> {
            &&& (#[trigger] graph_of(ins)[k].connections[c]).to_oid == ins[k].parents[c]
            &&& graph_of(ins)[k].connections[c].from_lane == graph_of(ins)[k].lane
        },
{
    lemma_state_shape(ins);
    lemma_node(ins, k);
}

/// Every lane of the graph is one of the lanes it opened, and it opens at
/// most one lane per commit.
pub proof fn law_lanes_dense(ins: Seq<GraphInputView>, k: int)
    requires
        0 <= k < ins.len(),
    ensures
        graph_of(ins)[k].lane < lanes_opened(ins),
        lanes_opened(ins) <= ins.len(),
{
    lemma_state_shape(ins);
    assert(lane_state(ins).table[k] == (ins[k].summary.oid, lane_state(ins).nodes[k].lane));
}

/// `oid` is the id of one of the first `k` commits.
pub open spec fn placed_before(ins: Seq<GraphInputView>, k: int, oid: Seq<char>) -> bool {
    exists|j: int| 0 <= j < k && #[trigger] ins[j].summary.oid == oid
}

/// Commit `k` has a first parent that was placed before it.
pub open spec fn continues_first_parent(ins: Seq<GraphInputView>, k: int) -> bool {
    ins[k].parents.len() > 0 && placed_before(ins, k, ins[k].parents[0])
}

/// A commit whose first parent is already in the graph sits on the lane of
/// that parent (its latest placement).
pub proof fn law_first_parent_lane(ins: Seq<GraphInputView>, k: int)
    requires
        0 <= k < ins.len(),
        continues_first_parent(ins, k),
    ensures
        exists|j: int| 0 <= j < k && ins[j].summary.oid == ins[k].parents[0]
            && #[trigger] graph_of(ins)[j].lane == graph_of(ins)[k].lane,
{
    lemma_node(ins, k);
    lemma_state_shape(ins);
    lemma_state_prefix(ins, k);
    let pre = ins.subrange(0, k);
    let t = lane_state(pre).table;
    let p0 = ins[k].parents[0];
    lemma_lookup(t, p0);
    let w = choose|j: int| 0 <= j < k && #[trigger] ins[j].summary.oid == p0;
    assert(t[w] == lane_state(ins).table[w]);
    assert(t[w].0 == p0);
    let j = choose|j: int| 0 <= j < t.len() && #[trigger] t[j] == (p0, table_lookup(t, p0)->0);
    assert(t[j] == lane_state(ins).table[j]);
    assert(graph_of(ins)[j].lane == graph_of(ins)[k].lane);
}

/// A commit without a placed first parent (a root commit, or the first of a
/// line of history) opens a new lane: the number of lanes opened before it,
/// a lane that no earlier commit uses.
pub proof fn law_new_lane(ins: Seq<GraphInputView>, k: int)
    requires
        0 <= k < ins.len(),
        !continues_first_parent(ins, k),
    ensures
        graph_of(ins)[k].lane == lanes_opened(ins.subrange(0, k)),
        forall|j: int| 0 <= j < k ==> #[trigger] graph_of(ins)[j].lane != graph_of(ins)[k].lane,
{
    lemma_node(ins, k);
    lemma_state_shape(ins);
    lemma_state_prefix(ins, k);
    let pre = ins.subrange(0, k);
    lemma_state_shape(pre);
    let t = lane_state(pre).table;
    if ins[k].parents.len() > 0 {
        let p0 = ins[k].parents[0];
        lemma_lookup(t, p0);
        if table_lookup(t, p0) is Some {
            let j = choose|j: int| 0 <= j < t.len() && #[trigger] t[j] == (p0, table_lookup(t, p0)->0);
            assert(t[j] == lane_state(ins).table[j]);
            assert(ins[j].summary.oid == p0);
            assert(placed_before(ins, k, p0));
        }
    }
    assert forall|j: int| 0 <= j < k implies #[trigger] graph_of(ins)[j].lane != graph_of(ins)[k].lane by {
        assert(lane_state(pre).nodes[j] == graph_of(ins)[j]);
        assert(lane_state(pre).table[j] == (pre[j].summary.oid, lane_state(pre).nodes[j].lane));
    }
}

/// An edge to a parent that is already in the graph (or is the commit
/// itself) ends on the lane of that parent's latest placement; an edge to a
/// parent not yet placed stays on the commit's own lane.
pub proof fn law_edge_targets(ins: Seq<GraphInputView>, k: int, c: int)
    requires
        0 <= k < ins.len(),
        0 <= c < ins[k].parents.len(),
    ensures
        placed_before(ins, k + 1, ins[k].parents[c]) ==> exists|j: int| 0 <= j <= k
            && ins[j].summary.oid == ins[k].parents[c]
            && #[trigger] graph_of(ins)[j].lane == graph_of(ins)[k].connections[c].to_lane,
        !placed_before(ins, k + 1, ins[k].parents[c]) ==> graph_of(ins)[k].connections[c].to_lane == graph_of(ins)[k].lane,
{
    lemma_node(ins, k);
    lemma_state_shape(ins);
    let t = lane_state(ins).table.subrange(0, k + 1);
    let p = ins[k].parents[c];
    lemma_lookup(t, p);
    if table_lookup(t, p) is Some {
        let j = choose|j: int| 0 <= j < t.len() && #[trigger] t[j] == (p, table_lookup(t, p)->0);
        assert(t[j] == lane_state(ins).table[j]);
        assert(ins[j].summary.oid == p);
    } else {
        if placed_before(ins, k + 1, p) {
            let w = choose|j: int| 0 <= j < k + 1 && #[trigger] ins[j].summary.oid == p;
            assert(t[w] == lane_state(ins).table[w]);
        }
    }
}

// ---------------------------------------------------------------------------
// The graph command
// ---------------------------------------------------------------------------

/// The local branches, each with its name (absent when it cannot be read)
/// and its target.
fn list_branch_tips(repo: &git2::Repository) -> (res: Result<Vec<BranchTip>, String>)
    ensures
        res is Err ==> reports_failure(res->Err_0@, "Failed to list branches"@)
            || reports_failure(res->Err_0@, "Failed to get branch"@),
{
    let branches = match git::repo_branches(repo, git::BranchKind::Local) {
        Ok(b) => b,
        Err(e) => return Err(failure("Failed to list branches", &e)),
    };
    let mut tips: Vec<BranchTip> = Vec::new();
    let mut i: usize = 0;
    while i < branches.len()
        invariant
            i <= branches.len(),
        decreases branches.len() - i,
    {
        let b = match &branches[i] {
            Ok(b) => b,
            Err(e) => return Err(failure("Failed to get branch", e)),
        };
        let name = match git::branch_name(b) {
            Ok(n) => n,
            Err(_) => None,
        };
        let target = match git::reference_target(git::branch_reference(b)) {
            Some(oid) => Some(git::oid_hex(&oid)),
            None => None,
        };
        tips.push(BranchTip { name, target });
        i = i + 1;
    }
    Ok(tips)
}

/// Starts the walk at every local branch (a branch that cannot be pushed is
/// skipped); tells whether any branch was pushed.
fn push_branch_targets(repo: &git2::Repository, walk: &mut git2::Revwalk) -> (res: Result<bool, String>)
    ensures
        res is Err ==> reports_failure(res->Err_0@, "Failed to list branches"@)
            || reports_failure(res->Err_0@, "Failed to get branch"@),
{
    let branches = match git::repo_branches(repo, git::BranchKind::Local) {
        Ok(b) => b,
        Err(e) => return Err(failure("Failed to list branches", &e)),
    };
    let mut pushed_any = false;
    let mut i: usize = 0;
    while i < branches.len()
        invariant
            i <= branches.len(),
        decreases branches.len() - i,
    {
        let b = match &branches[i] {
            Ok(b) => b,
            Err(e) => return Err(failure("Failed to get branch", e)),
        };
        if let Some(target) = git::reference_target(git::branch_reference(b)) {
            if git::revwalk_push(walk, target).is_ok() {
                pushed_any = true;
            }
        }
        i = i + 1;
    }
    Ok(pushed_any)
}

/// The commit graph of the open repository: up to `limit` commits reachable
/// from the local branches (or from `HEAD` when no local branch could be
/// pushed), in time and topological order, laid out on lanes.
pub fn get_graph_data(state: &AppState, limit: usize) -> (res: Result<GraphData, String>)
    ensures
        state.current_repo_path is None ==> res is Err && res->Err_0@ == "No repository opened"@,
        res is Ok ==> exists|fs: Seq<CommitFactsView>, tips: Seq<BranchTipView>|
            fs.len() <= limit && #[trigger] graph_of(graph_inputs(fs, tips)) == res->Ok_0.deep_view(),
{
    let repo_path = opened_path_text(state)?;
    let repo = open_repo_text(repo_path.as_str())?;
    let tips = list_branch_tips(&repo)?;
    let mut walk = match git::repo_revwalk(&repo) {
        Ok(w) => w,
        Err(e) => return Err(failure("Failed to create revwalk", &e)),
    };
    let pushed_any = push_branch_targets(&repo, &mut walk)?;
    if !pushed_any {
        if let Ok(head) = git::repo_head(&repo) {
            if let Some(target) = git::reference_target(&head) {
                if let Err(e) = git::revwalk_push(&mut walk, target) {
                    return Err(failure("Failed to push HEAD", &e));
                }
            }
        }
    }
    let mode = git::sort_union(git::sort_time(), git::sort_topological());
    if let Err(e) = git::revwalk_set_sorting(&mut walk, mode) {
        return Err(failure("Failed to set sorting", &e));
    }
    let ghost tv = tips.deep_view();
    let ghost mut fs: Seq<CommitFactsView> = Seq::empty();
    let mut inputs: Vec<GraphInput> = Vec::new();
    while inputs.len() < limit
        invariant
            state.current_repo_path is Some,
            inputs.len() <= limit,
            tv == tips.deep_view(),
            fs.len() == inputs.len(),
            inputs.deep_view() == graph_inputs(fs, tv),
        decreases limit - inputs.len(),
    {
        let oid = match git::revwalk_next(&mut walk) {
            None => break,
            Some(Err(e)) => return Err(failure("Failed to walk", &e)),
            Some(Ok(o)) => o,
        };
        let commit = match git::repo_find_commit(&repo, oid) {
            Ok(c) => c,
            Err(e) => return Err(failure("Failed to find commit", &e)),
        };
        let facts = read_commit(&commit);
        let summary = summarize(&facts);
        let branches = branch_names_at(&tips, facts.oid.as_str());
        let parents = copy_strings(&facts.parents);
        let input = GraphInput { summary, branches, parents };
        let ghost before = inputs.deep_view();
        inputs.push(input);
        proof {
            let f = facts.deep_view();
            fs = fs.push(f);
            assert(input.deep_view() == graph_input_of(f, tv));
            assert(inputs.deep_view() =~= before.push(graph_input_of(f, tv)));
            assert(inputs.deep_view() =~= graph_inputs(fs, tv));
        }
    }
    let graph = build_graph(&inputs);
    Ok(graph)
}

} // verus!
