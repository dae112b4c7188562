use vstd::prelude::*;

use crate::dotfiles::ProgramOptions;
use crate::dotfiles::spec_locate_expand_post;
use crate::error::MageError;
use crate::magefile::find_magefile;
use crate::magefile::parse_magefile;
use crate::util::FullPath;
use crate::util::spec_resolved;

verus! {

/// What the unlink engine does with one target.
#[derive(Debug, Clone, PartialEq)]
pub enum UnlinkDecision {
    /// The target is a symlink: remove it, and only it — never what it
    /// points at.
    Remove,
    /// Something sits at the target but it is no symlink: leave the user's
    /// file alone.
    SkippedNotASymlink,
    /// Nothing sits at the target: a normal state, not an error.
    NothingToRemove,
}

/// Decides the unlink of one target from its probes. Only a symlink is ever
/// removed: a removal is decided exactly when the target exists and is a
/// symlink, so a regular file in the target's place always stays on disk.
pub fn unlink_decide(target_exists: bool, target_is_symlink: bool) -> (r: UnlinkDecision)
    ensures
        r == UnlinkDecision::Remove <==> (target_exists && target_is_symlink),
        r == (if target_exists && target_is_symlink {
            UnlinkDecision::Remove
        } else if target_exists {
            UnlinkDecision::SkippedNotASymlink
        } else {
            UnlinkDecision::NothingToRemove
        }),
{
    if target_exists && target_is_symlink {
        UnlinkDecision::Remove
    } else if target_exists {
        UnlinkDecision::SkippedNotASymlink
    } else {
        UnlinkDecision::NothingToRemove
    }
}

/// The decisions of the clean command up to its descriptors: the resolved
/// dotfiles path must exist, and its manifest is located, parsed and
/// expanded; the caller then probes each descriptor's target and asks
/// `unlink_decide`. `path_exists` is the probe of the resolved path, `names`
/// the directory's entries, `magefile_text` the located manifest's text.
pub fn execute(
    dotfiles_path: &str,
    home: &str,
    path_exists: bool,
    names: &Vec<String>,
    magefile_text: &str,
) -> (r: Result<Vec<ProgramOptions>, MageError>)
    ensures
        !path_exists ==> (r matches Err(MageError::Unexpected(m)) && m@ == "invalid path: "@
            + spec_resolved(dotfiles_path@, home@)),
        path_exists ==> spec_locate_expand_post(
            names@,
            magefile_text@,
            spec_resolved(dotfiles_path@, home@),
            home@,
            r,
        ),
{
    let full_path = FullPath::from_raw(dotfiles_path, home);
    if !path_exists {
        let msg = String::from_str("invalid path: ").concat(full_path.to_str());
        return Err(MageError::Unexpected(msg));
    }
    match find_magefile(names) {
        Result::Ok(_) => {},
        Result::Err(e) => {
            return Err(e);
        },
    }
    let mf = match parse_magefile(magefile_text) {
        Result::Ok(m) => m,
        Result::Err(e) => {
            return Err(e);
        },
    };
    ProgramOptions::generate(&mf, &full_path, home)
}

} // verus!
