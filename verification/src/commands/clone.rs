use vstd::prelude::*;

use crate::dotfiles::DotfilesOrigin;
use crate::dotfiles::GitClone;
use crate::dotfiles::clone_repo;
use crate::error::MageError;
use crate::repo_url::spec_is_repo_url;
use crate::repo_url::spec_is_shorthand;
use crate::util::resolve_path;
use crate::util::spec_resolved;

verus! {

/// The clone command: classifies `repository` and clones it into the
/// resolved `directory` through `git` — unless something already sits
/// there, which fails without invoking the clone capability. An origin that
/// is no repository is rejected. `repo_resolved_exists` says whether the
/// repository string itself names something on disk; `dir_exists` is the
/// probe of the resolved destination.
pub fn execute<G: GitClone>(
    repository: &str,
    directory: &str,
    home: &str,
    repo_resolved_exists: bool,
    dir_exists: bool,
    git: &G,
) -> (r: Result<(), MageError>)
    ensures
        repo_resolved_exists ==> (r matches Err(MageError::Unexpected(m)) && m@
            == "Invalid repository: "@ + repository@),
        !repo_resolved_exists && !spec_is_repo_url(repository@) && !spec_is_shorthand(repository@)
            ==> (r matches Err(MageError::InvalidDotfilesOrigin(m)) && m@ == repository@),
        !repo_resolved_exists && (spec_is_repo_url(repository@) || spec_is_shorthand(repository@))
            ==> {
            &&& dir_exists ==> (r matches Err(MageError::Unexpected(m)) && m@ == "Target path \""@
                + spec_resolved(directory@, home@) + "\" already exists"@)
            &&& !dir_exists ==> match r {
                Result::Ok(u) => true,
                Result::Err(e) => (e matches MageError::Unexpected(m) && (spec_is_repo_url(
                    repository@,
                ) ==> m@ == "Failed to clone repository "@ + repository@)) || (e matches
                MageError::File(m)),
            }
        },
{
    let full_dir = resolve_path(directory, home);
    match DotfilesOrigin::classify(repository, home, repo_resolved_exists) {
        Result::Ok(DotfilesOrigin::Repository(url, location)) => {
            match clone_repo(url.as_str(), full_dir.as_str(), dir_exists, git) {
                Result::Ok(p) => Ok(()),
                Result::Err(e) => Err(e),
            }
        },
        Result::Ok(DotfilesOrigin::Directory(d)) => {
            let msg = String::from_str("Invalid repository: ").concat(repository);
            Err(MageError::Unexpected(msg))
        },
        Result::Err(e) => Err(e),
    }
}

} // verus!
