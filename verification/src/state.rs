//! The application state shared by the commands: which repository is open.
use vstd::prelude::*;

verus! {

/// The path of the repository the commands work on, if one was opened.
#[derive(Debug)]
pub struct AppState {
    pub current_repo_path: Option<String>,
}

impl AppState {
    /// The open repository's path, as characters.
    pub open spec fn repo_path_view(&self) -> Option<Seq<char>> {
        match &self.current_repo_path {
            Some(p) => Some(p@),
            None => None,
        }
    }
}

impl Default for AppState {
    /// No repository is open.
    fn default() -> (res: Self)
        ensures
            res.current_repo_path is None,
    {
        AppState { current_repo_path: None }
    }
}

} // verus!
