# git_gui

The core of a desktop Git client: the commands behind its repository,
status, staging, commit, history, graph, branch, merge, rebase, cherry-pick,
tag and diff views, written in Verus over libgit2 (the `git2` crate).

## Layout

- `src/` — the verified library.
  - `git.rs` — the trusted boundary: declarations of the `git2` types and one
    small wrapper per `git2` (or `std`) function the commands call.
  - `text.rs` — path rewriting, prefix and substring tests, case folding.
  - `status.rs` — classification of a status listing into staged, unstaged
    and untracked files; staging, unstaging and discarding.
  - `commit.rs` — commit facts, summaries and details; creating a commit.
  - `log.rs` — the paged, searchable log and the lane layout of the graph.
  - `git_ops.rs` — recent history, repository status, committing the index,
    rendering a patch.
  - `repo.rs` — opening, creating and describing repositories.
  - `branch.rs` — branches, merges, rebases, cherry-picks and tags.
  - `watch.rs` — which file-system events are worth reporting.
- `tests/` — tests of the pure functions (`logic.rs`) and of the commands on
  repositories created for the purpose (`repository.rs`).
- `app/` — the desktop shell: the Tauri builder and command handlers, the
  shared state behind a mutex, serializable copies of the library's types,
  cloning with progress events, and the file watcher.

Most commands read the repository on disk, so their contracts say what holds
for every result libgit2 can give; the decisions they make (classification,
paging and search, lane layout, labels, merge plans, patch text) are exact
functions with their own contracts and laws.
