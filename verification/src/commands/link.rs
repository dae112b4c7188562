use vstd::prelude::*;

use crate::dotfiles::DotfilesOrigin;
use crate::dotfiles::GitClone;
use crate::dotfiles::ProgramOptions;
use crate::dotfiles::ensure_repo_is_setup;
use crate::dotfiles::spec_locate_expand_post;
use crate::error::MageError;
use crate::magefile::find_magefile;
use crate::magefile::parse_magefile;
use crate::repo_url::spec_is_repo_url;
use crate::repo_url::spec_is_shorthand;
use crate::util::spec_resolved;

verus! {

/// Where a classified origin is materialized: the resolved directory itself,
/// or the default clone location for a remote origin.
pub open spec fn spec_link_base(
    directory: Seq<char>,
    home: Seq<char>,
    resolved_exists: bool,
) -> Seq<char> {
    if resolved_exists {
        spec_resolved(directory, home)
    } else {
        spec_resolved("~/.mage"@, home)
    }
}

/// The decisions of the link command up to its descriptors: classify the
/// origin, materialize it — cloning through `git` when the destination is
/// not there yet — then locate, parse and expand the manifest. The caller
/// performs the listing and the read between the stages and hands their
/// results in: `names` are the materialized directory's entries and
/// `magefile_text` the located manifest's text.
pub fn run<G: GitClone>(
    directory: &str,
    home: &str,
    resolved_exists: bool,
    dest_exists: bool,
    names: &Vec<String>,
    magefile_text: &str,
    git: &G,
) -> (r: Result<Vec<ProgramOptions>, MageError>)
    ensures
        !resolved_exists && !spec_is_repo_url(directory@) && !spec_is_shorthand(directory@) ==> (r
            matches Err(MageError::InvalidDotfilesOrigin(m)) && m@ == directory@),
        resolved_exists || (dest_exists && (spec_is_repo_url(directory@) || spec_is_shorthand(
            directory@,
        ))) ==> spec_locate_expand_post(
            names@,
            magefile_text@,
            spec_link_base(directory@, home@, resolved_exists),
            home@,
            r,
        ),
        r is Ok ==> spec_locate_expand_post(
            names@,
            magefile_text@,
            spec_link_base(directory@, home@, resolved_exists),
            home@,
            r,
        ),
{
    let origin = match DotfilesOrigin::classify(directory, home, resolved_exists) {
        Result::Ok(o) => o,
        Result::Err(e) => {
            return Err(e);
        },
    };
    let base = match ensure_repo_is_setup(origin, dest_exists, git) {
        Result::Ok(p) => p,
        Result::Err(e) => {
            return Err(e);
        },
    };
    match find_magefile(names) {
        Result::Ok(_) => {},
        Result::Err(e) => {
            return Err(e);
        },
    }
    let mf = match parse_magefile(magefile_text) {
        Result::Ok(m) => m,
        Result::Err(e) => {
            return Err(e);
        },
    };
    ProgramOptions::generate(&mf, &base, home)
}

} // verus!
