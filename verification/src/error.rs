//! The library's error type.
use vstd::prelude::*;

verus! {

/// Errors returned by the repository, branch, status and history commands.
/// `Git` carries the text of the libgit2 error that caused it (or the text of
/// a refusal decided by the library itself).
#[derive(Debug)]
pub enum AppError {
    Git(String),
    InvalidPath(String),
    NoRepository,
    Io(String),
    StateLockError(String),
    NotInitialized(String),
    Watch(String),
}

/// The mathematical value of an [`AppError`].
pub enum AppErrorView {
    Git(Seq<char>),
    InvalidPath(Seq<char>),
    NoRepository,
    Io(Seq<char>),
    StateLockError(Seq<char>),
    NotInitialized(Seq<char>),
    Watch(Seq<char>),
}

impl DeepView for AppError {
    type V = AppErrorView;

    open spec fn deep_view(&self) -> AppErrorView {
        match self {
            AppError::Git(s) => AppErrorView::Git(s@),
            AppError::InvalidPath(s) => AppErrorView::InvalidPath(s@),
            AppError::NoRepository => AppErrorView::NoRepository,
            AppError::Io(s) => AppErrorView::Io(s@),
            AppError::StateLockError(s) => AppErrorView::StateLockError(s@),
            AppError::NotInitialized(s) => AppErrorView::NotInitialized(s@),
            AppError::Watch(s) => AppErrorView::Watch(s@),
        }
    }
}

/// A refusal decided by the library, reported like a libgit2 error with that text.
pub fn git_refusal(msg: &str) -> (res: AppError)
    ensures
        res.deep_view() == AppErrorView::Git(msg@),
{
    AppError::Git(String::from_str(msg))
}

} // verus!

verus! {

/// A libgit2 failure, carried as its text.
pub fn git_error(e: &git2::Error) -> (res: AppError)
    ensures
        res is Git,
{
    AppError::Git(crate::git::error_text(e))
}

} // verus!
