use vstd::prelude::*;

use crate::error::MageError;
use crate::util::FullPath;

verus! {

/// The external capability that runs `git pull` in a directory; an
/// implementation reports `Err(description)` when the process could not run.
pub trait GitPull {
    fn pull(&self, directory: &str) -> Result<(), String>;
}

/// Pulls the dotfiles repository before the clean and link stages rerun.
pub struct Syncer {
    pub directory: FullPath,
}

impl Syncer {
    /// A syncer over the given dotfiles directory.
    pub fn with_dir(directory: FullPath) -> (r: Syncer)
        ensures
            r.directory == directory,
    {
        Syncer { directory }
    }

    /// Runs the pull in the syncer's directory through the capability; a
    /// process failure is surfaced as a file error with its description.
    pub fn pull<G: GitPull>(self, git: &G) -> (r: Result<(), MageError>)
        ensures
            r matches Err(e) ==> e matches MageError::File(m),
    {
        match git.pull(self.directory.to_str()) {
            Result::Ok(u) => Ok(()),
            Result::Err(m) => Err(MageError::File(m)),
        }
    }
}

} // verus!
