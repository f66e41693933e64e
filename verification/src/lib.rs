//! Verified core of a desktop Git client: repository, branch, commit, log,
//! status and diff commands over libgit2 (through the `git2` crate).
pub mod text;
pub mod error;
pub mod git;
pub mod state;
pub mod status;
pub mod commit;
pub mod log;
pub mod git_ops;
pub mod repo;
pub mod branch;
pub mod watch;
