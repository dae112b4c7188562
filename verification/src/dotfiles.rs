use vstd::prelude::*;

use crate::error::MageError;
use crate::magefile::Magefile;
use crate::repo_url::is_shorthand;
use crate::repo_url::is_valid_repo_url;
use crate::repo_url::spec_is_repo_url;
use crate::repo_url::spec_is_shorthand;
use crate::util::FullPath;
use crate::util::spec_joined;
use crate::util::spec_resolved;

verus! {

/// One program config in the dotfiles directory: where its file sits in the
/// dotfiles tree and where its symlink belongs on the host.
#[derive(Debug, Clone, PartialEq)]
pub struct ProgramOptions {
    /// Path of the config file or directory inside the dotfiles tree; its
    /// name is the key in the magefile.
    pub origin_path: FullPath,
    /// Target path for the symlink.
    pub target_path: FullPath,
}

/// What expanding a manifest `mfv` under base directory `base` yields: on
/// success one descriptor per entry in stored order, each origin the entry's
/// name under `base` and each target the entry's resolved target path; the
/// expansion succeeds exactly when every entry has a target path, and
/// otherwise aborts with the first incomplete entry's error.
pub open spec fn spec_generate_post(
    mfv: Seq<crate::magefile::EntryView>,
    base: Seq<char>,
    home: Seq<char>,
    r: Result<Vec<ProgramOptions>, MageError>,
) -> bool {
    &&& (r matches Ok(v) ==> {
        &&& forall|i: int| 0 <= i < mfv.len() ==> (#[trigger] mfv[i]).1 is Some
        &&& v@.len() == mfv.len()
        &&& forall|i: int|
            0 <= i < v@.len() ==> (#[trigger] v@[i]).origin_path@ == spec_resolved(
                spec_joined(base, mfv[i].0),
                home,
            ) && v@[i].target_path@ == spec_resolved(mfv[i].1->0, home)
    })
    &&& (r matches Err(e) ==> exists|i: int|
        {
            &&& 0 <= i < mfv.len()
            &&& (#[trigger] mfv[i]).1 is None
            &&& forall|j: int| 0 <= j < i ==> (#[trigger] mfv[j]).1 is Some
            &&& e matches MageError::InvalidMageFile(d) && d@ == mfv[i].0
                + " missing key: target_path"@
        })
    &&& (r is Err <==> exists|i: int| 0 <= i < mfv.len() && (#[trigger] mfv[i]).1 is None)
}

impl ProgramOptions {
    /// Expands a manifest into link descriptors, one per entry, in the
    /// manifest's stored key order. The origin of an entry is its name under
    /// `base_path`; the target is its resolved `target_path` field. An entry
    /// without that field aborts the whole expansion with the first such
    /// entry's error: a malformed manifest is a broken configuration, not a
    /// per-entry condition.
    pub fn generate(magefile: &Magefile, base_path: &FullPath, home: &str) -> (r: Result<
        Vec<ProgramOptions>,
        MageError,
    >)
        ensures
            spec_generate_post(magefile@, base_path@, home@, r),
    {
        let mut result: Vec<ProgramOptions> = Vec::new();
        let mut i: usize = 0;
        while i < magefile.entries.len()
            invariant
                i <= magefile.entries@.len(),
                result@.len() == i,
                forall|j: int| 0 <= j < i ==> (#[trigger] magefile@[j]).1 is Some,
                forall|j: int|
                    0 <= j < i ==> (#[trigger] result@[j]).origin_path@ == spec_resolved(
                        spec_joined(base_path@, magefile@[j].0),
                        home@,
                    ) && result@[j].target_path@ == spec_resolved(magefile@[j].1->0, home@),
            decreases magefile.entries@.len() - i,
        {
            proof {
                assert(magefile@[i as int] == magefile.entries@[i as int]@);
            }
            let entry = &magefile.entries[i];
            let target = match &entry.target_path {
                Option::Some(t) => t,
                Option::None => {
                    let msg = entry.name.clone().concat(" missing key: target_path");
                    return Err(MageError::InvalidMageFile(msg));
                },
            };
            let joined = base_path.join(entry.name.as_str());
            let opts = ProgramOptions {
                origin_path: FullPath::from_raw(joined.to_str(), home),
                target_path: FullPath::from_raw(target.as_str(), home),
            };
            result.push(opts);
            i = i + 1;
        }
        proof {
            assert(magefile@.len() == magefile.entries@.len());
        }
        Ok(result)
    }
}

/// Where dotfiles come from: an existing local directory, or a remote
/// repository together with the path it is cloned into.
#[derive(Debug, Clone, PartialEq)]
pub enum DotfilesOrigin {
    Directory(FullPath),
    Repository(String, FullPath),
}

/// The external capability that runs `git clone`. The library decides when a
/// clone happens; an implementation performs it and reports `Ok(success)` on
/// completion or `Err(description)` when the process could not run.
pub trait GitClone {
    fn clone_repo(&self, url: &str, path: &str) -> Result<bool, String>;
}

/// The SSH clone URL of a `<owner>/<repo>` shorthand.
pub fn full_repo_url(s: &str) -> (r: String)
    ensures
        r@ == "git@github.com:"@ + s@ + ".git"@,
{
    String::from_str("git@github.com:").concat(s).concat(".git")
}

impl DotfilesOrigin {
    /// Classifies an origin string, in priority order: an existing local
    /// directory, a full repository URL, the `<owner>/<repo>` shorthand, and
    /// otherwise a classification error. `home` is the injected home
    /// directory and `resolved_exists` says whether the expanded string
    /// exists on disk; a remote origin is cloned into the default location.
    /// Classification itself touches neither disk nor network: the one
    /// probe is handed in, and a directory origin never reaches a clone.
    pub fn classify(s: &str, home: &str, resolved_exists: bool) -> (r: Result<
        DotfilesOrigin,
        MageError,
    >)
        ensures
            resolved_exists ==> (r matches Ok(DotfilesOrigin::Directory(d)) && d@
                == spec_resolved(s@, home@)),
            !resolved_exists && spec_is_repo_url(s@) ==> (r matches Ok(
                DotfilesOrigin::Repository(u, p),
            ) && u@ == s@ && p@ == spec_resolved("~/.mage"@, home@)),
            !resolved_exists && spec_is_shorthand(s@) ==> (r matches Ok(
                DotfilesOrigin::Repository(u, p),
            ) && u@ == "git@github.com:"@ + s@ + ".git"@ && p@ == spec_resolved(
                "~/.mage"@,
                home@,
            )),
            !resolved_exists && !spec_is_repo_url(s@) && !spec_is_shorthand(s@) ==> (r matches Err(
                MageError::InvalidDotfilesOrigin(m),
            ) && m@ == s@),
    {
        if resolved_exists {
            return Ok(DotfilesOrigin::Directory(FullPath::from_raw(s, home)));
        }
        if is_valid_repo_url(s) {
            proof {
                if spec_is_shorthand(s@) {
                    crate::repo_url::lemma_shorthand_not_url(s@);
                }
            }
            return Ok(
                DotfilesOrigin::Repository(
                    String::from_str(s),
                    FullPath::from_raw("~/.mage", home),
                ),
            );
        }
        if is_shorthand(s) {
            return Ok(
                DotfilesOrigin::Repository(full_repo_url(s), FullPath::from_raw("~/.mage", home)),
            );
        }
        Err(MageError::InvalidDotfilesOrigin(String::from_str(s)))
    }
}

/// Whether some name in the listing begins with the manifest prefix.
pub open spec fn spec_has_magefile(names: Seq<String>) -> bool {
    exists|j: int| 0 <= j < names.len() && "magefile"@.is_prefix_of((#[trigger] names[j])@)
}

/// What locating, parsing and expanding the manifest of a materialized
/// directory yields: without a matching name the dedicated error; with one,
/// the parse of its text — whose failure carries the parser diagnostic — and
/// then the expansion under `base`.
pub open spec fn spec_locate_expand_post(
    names: Seq<String>,
    text: Seq<char>,
    base: Seq<char>,
    home: Seq<char>,
    r: Result<Vec<ProgramOptions>, MageError>,
) -> bool {
    &&& (!spec_has_magefile(names) ==> (r matches Err(e) && e == MageError::MageFileNotFound))
    &&& (spec_has_magefile(names) ==> match crate::magefile::toml_manifest_of(text) {
        Result::Err(m) => r matches Err(MageError::InvalidMageFile(d)) && d@
            == "Failed to parse magefile:\n"@ + m,
        Result::Ok(secs) => spec_generate_post(
            crate::magefile::spec_magefile_of_sections(secs),
            base,
            home,
            r,
        ),
    })
}

/// Clones `url` into `path` through the given capability, unless something
/// already sits at `path`; `path_exists` is that probe. A single attempt, no
/// retry: a failure is surfaced directly.
pub fn clone_repo<'a, G: GitClone>(url: &str, path: &'a str, path_exists: bool, git: &G) -> (r:
    Result<&'a str, MageError>)
    ensures
        path_exists ==> (r matches Err(MageError::Unexpected(m)) && m@ == "Target path \""@ + path@
            + "\" already exists"@),
        !path_exists ==> match r {
            Result::Ok(p) => p@ == path@,
            Result::Err(e) => (e matches MageError::Unexpected(m) && m@
                == "Failed to clone repository "@ + url@) || (e matches MageError::File(m)),
        },
{
    if path_exists {
        let msg = String::from_str("Target path \"").concat(path).concat("\" already exists");
        return Err(MageError::Unexpected(msg));
    }
    match git.clone_repo(url, path) {
        Result::Err(m) => Err(MageError::File(m)),
        Result::Ok(false) => {
            let msg = String::from_str("Failed to clone repository ").concat(url);
            Err(MageError::Unexpected(msg))
        },
        Result::Ok(true) => Ok(path),
    }
}

/// Materializes an origin as a local directory: a directory origin is
/// returned as it is; a repository origin is returned when its destination
/// already exists (treated as already cloned, no freshness check), and is
/// cloned there otherwise. `dest_exists` is the probe of the destination.
pub fn ensure_repo_is_setup<G: GitClone>(
    origin: DotfilesOrigin,
    dest_exists: bool,
    git: &G,
) -> (r: Result<FullPath, MageError>)
    ensures
        origin matches DotfilesOrigin::Directory(d) ==> r == Ok::<FullPath, MageError>(d),
        origin matches DotfilesOrigin::Repository(u, p) ==> {
            &&& dest_exists ==> r == Ok::<FullPath, MageError>(p)
            &&& !dest_exists ==> match r {
                Result::Ok(q) => q == p,
                Result::Err(e) => (e matches MageError::Unexpected(m) && m@
                    == "Failed to clone repository "@ + u@) || (e matches MageError::File(m)),
            }
        },
{
    match origin {
        DotfilesOrigin::Directory(dir) => Ok(dir),
        DotfilesOrigin::Repository(url, path) => {
            if dest_exists {
                return Ok(path);
            }
            match clone_repo(url.as_str(), path.to_str(), false, git) {
                Result::Ok(q) => Ok(path),
                Result::Err(e) => Err(e),
            }
        },
    }
}

} // verus!
