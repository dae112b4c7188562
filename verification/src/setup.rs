use vstd::prelude::*;

use crate::Args;
use crate::MageResult;
use crate::error::MageError;
use crate::magefile::EntryView;
use crate::magefile::Magefile;
use crate::magefile::spec_find_entry;
use crate::magefile::spec_opt_view;
use crate::text::str_starts_with;
use crate::util::file_stem;
use crate::util::resolve_path;
use crate::util::spec_file_stem;
use crate::util::spec_resolved;

verus! {

/// One resolved program: its key, its path inside the dotfiles tree, the
/// target path of its symlink, and the optional install-check command.
#[derive(Debug, Clone, PartialEq)]
pub struct ProgramOptions {
    pub name: String,
    pub path: String,
    pub target_path: String,
    pub is_installed_cmd: Option<String>,
}

/// One program as (name, path, target path, install-check command).
pub type ProgramView = (Seq<char>, Seq<char>, Seq<char>, Option<Seq<char>>);

impl View for ProgramOptions {
    type V = ProgramView;

    open spec fn view(&self) -> ProgramView {
        (self.name@, self.path@, self.target_path@, spec_opt_view(self.is_installed_cmd))
    }
}

/// The views of a list of programs, in order.
pub open spec fn spec_program_views(v: Seq<ProgramOptions>) -> Seq<ProgramView> {
    v.map(|i: int, p: ProgramOptions| p@)
}

/// One immediate entry of the dotfiles directory, classified: the manifest,
/// or one config file or directory as its key and its path.
#[derive(Debug)]
pub enum DotfilesEntry {
    ConfigFileOrDir(String, String),
    Magefile(Magefile),
}

/// Where the dotfiles come from, as the setup pipeline takes it: a web URL
/// together with its clone path, or a local directory.
#[derive(Debug, PartialEq)]
pub enum DotfilesOrigin {
    Directory(String),
    Repository(String, String),
}

/// A web URL: the string begins with an HTTP scheme.
pub open spec fn spec_is_web_url(s: Seq<char>) -> bool {
    "https://"@.is_prefix_of(s) || "http://"@.is_prefix_of(s)
}

pub fn is_url(s: &str) -> (r: bool)
    ensures
        r == spec_is_web_url(s@),
{
    str_starts_with(s, "https://") || str_starts_with(s, "http://")
}

impl DotfilesOrigin {
    /// Classifies an (origin, clone path) pair: a web URL becomes a
    /// repository cloned to the given path; otherwise an existing directory
    /// is taken as it is; anything else is rejected. `origin_is_dir` says
    /// whether `origin` is a directory on disk.
    pub fn from_pair(origin: &str, clone_path: &str, origin_is_dir: bool) -> (r: Result<
        DotfilesOrigin,
        MageError,
    >)
        ensures
            spec_is_web_url(origin@) ==> (r matches Ok(DotfilesOrigin::Repository(u, p)) && u@
                == origin@ && p@ == clone_path@),
            !spec_is_web_url(origin@) && origin_is_dir ==> (r matches Ok(
                DotfilesOrigin::Directory(d),
            ) && d@ == origin@),
            !spec_is_web_url(origin@) && !origin_is_dir ==> (r matches Err(
                MageError::InvalidDotfilesOrigin(m),
            ) && m@ == origin@),
    {
        if is_url(origin) {
            Ok(DotfilesOrigin::Repository(String::from_str(origin), String::from_str(clone_path)))
        } else if origin_is_dir {
            Ok(DotfilesOrigin::Directory(String::from_str(origin)))
        } else {
            Err(MageError::InvalidDotfilesOrigin(String::from_str(origin)))
        }
    }
}

/// Whether a directory entry of this name is taken for the manifest file.
pub fn is_magefile_name(name: &str) -> (r: bool)
    ensures
        r == "magefile"@.is_prefix_of(name@),
{
    str_starts_with(name, "magefile")
}

/// Classifies one non-manifest directory entry: its key is the stem of its
/// file name; its path is the full path the caller resolved for it.
pub fn config_entry(file_name: &str, path: String) -> (r: DotfilesEntry)
    ensures
        r matches DotfilesEntry::ConfigFileOrDir(k, p) && k@ == spec_file_stem(file_name@) && p@
            == path@,
{
    DotfilesEntry::ConfigFileOrDir(file_stem(file_name), path)
}

/// The manifest that a forward scan of the entries leaves in hand: the last
/// one in the list, if any.
pub open spec fn spec_last_magefile(entries: Seq<DotfilesEntry>) -> Option<Seq<EntryView>>
    decreases entries.len(),
{
    if entries.len() == 0 {
        Option::None
    } else {
        match entries.last() {
            DotfilesEntry::Magefile(m) => Option::Some(m@),
            DotfilesEntry::ConfigFileOrDir(n, p) => spec_last_magefile(entries.drop_last()),
        }
    }
}

/// The (key, path) pairs of the config entries, in listing order.
pub open spec fn spec_config_pairs(entries: Seq<DotfilesEntry>) -> Seq<(Seq<char>, Seq<char>)>
    decreases entries.len(),
{
    if entries.len() == 0 {
        Seq::<(Seq<char>, Seq<char>)>::empty()
    } else {
        let pre = spec_config_pairs(entries.drop_last());
        match entries.last() {
            DotfilesEntry::ConfigFileOrDir(n, p) => pre.push((n@, p@)),
            DotfilesEntry::Magefile(m) => pre,
        }
    }
}

/// The pairs whose key the manifest mentions, in order: config files that the
/// manifest does not know are skipped, not errors.
pub open spec fn spec_retained(
    pairs: Seq<(Seq<char>, Seq<char>)>,
    mf: Seq<EntryView>,
) -> Seq<(Seq<char>, Seq<char>)>
    decreases pairs.len(),
{
    if pairs.len() == 0 {
        Seq::<(Seq<char>, Seq<char>)>::empty()
    } else {
        let pre = spec_retained(pairs.drop_last(), mf);
        if spec_find_entry(mf, pairs.last().0) is Some {
            pre.push(pairs.last())
        } else {
            pre
        }
    }
}

/// The program of one retained pair under its manifest entry.
pub open spec fn spec_program_of(
    name: Seq<char>,
    path: Seq<char>,
    e: EntryView,
    home: Seq<char>,
) -> ProgramView {
    (name, path, spec_resolved(e.1->0, home), e.2)
}

/// The programs of the retained pairs, in order.
pub open spec fn spec_programs(
    ret: Seq<(Seq<char>, Seq<char>)>,
    mf: Seq<EntryView>,
    home: Seq<char>,
) -> Seq<ProgramView> {
    ret.map(
        |i: int, p: (Seq<char>, Seq<char>)|
            spec_program_of(p.0, p.1, spec_find_entry(mf, p.0)->0, home),
    )
}

pub open spec fn spec_pair_views(pairs: Seq<(String, String)>) -> Seq<(Seq<char>, Seq<char>)> {
    pairs.map(|i: int, p: (String, String)| (p.0@, p.1@))
}

/// What parsing a listing of classified entries yields: without a manifest
/// the dedicated error; otherwise the programs of the retained pairs in
/// order, unless a retained entry lacks its target path, which aborts the
/// whole parse with the first such entry's error.
pub open spec fn spec_parse_dotfiles_post(
    entries: Seq<DotfilesEntry>,
    home: Seq<char>,
    r: Result<Vec<ProgramOptions>, MageError>,
) -> bool {
    match spec_last_magefile(entries) {
        Option::None => r matches Err(e) && e == MageError::MageFileNotFound,
        Option::Some(mf) => {
            let ret = spec_retained(spec_config_pairs(entries), mf);
            &&& (r is Ok <==> forall|i: int|
                0 <= i < ret.len() ==> (spec_find_entry(mf, (#[trigger] ret[i]).0)->0).1 is Some)
            &&& (r matches Ok(v) ==> spec_program_views(v@) == spec_programs(ret, mf, home))
            &&& (r matches Err(e) ==> exists|i: int|
                {
                    &&& 0 <= i < ret.len()
                    &&& (spec_find_entry(mf, (#[trigger] ret[i]).0)->0).1 is None
                    &&& forall|j: int|
                        0 <= j < i ==> (spec_find_entry(mf, (#[trigger] ret[j]).0)->0).1 is Some
                    &&& e matches MageError::InvalidMageFile(d) && d@ == ret[i].0
                        + " missing key: target_path"@
                })
        },
    }
}

/// The program of one (name, path) pair: looked up in the manifest, with the
/// required target path resolved and the raw install-check command kept.
pub fn program_from_magefile(magefile: &Magefile, name: String, path: String, home: &str) -> (r:
    Result<ProgramOptions, MageError>)
    ensures
        spec_find_entry(magefile@, name@) is None ==> (r matches Err(MageError::InvalidMageFile(d))
            && d@ == "Missing key: "@ + name@ + " from magefile"@),
        spec_find_entry(magefile@, name@) matches Some(e) ==> {
            &&& e.1 is None ==> (r matches Err(MageError::InvalidMageFile(d)) && d@ == name@
                + " missing key: target_path"@)
            &&& e.1 is Some ==> (r matches Ok(p) && p@ == spec_program_of(name@, path@, e, home@))
        },
{
    let ix = match magefile.find_entry(name.as_str()) {
        Option::Some(ix) => ix,
        Option::None => {
            let msg = String::from_str("Missing key: ").concat(name.as_str()).concat(
                " from magefile",
            );
            return Err(MageError::InvalidMageFile(msg));
        },
    };
    proof {
        assert(magefile@[ix as int] == magefile.entries@[ix as int]@);
    }
    let entry = &magefile.entries[ix];
    match &entry.target_path {
        Option::None => {
            let msg = name.concat(" missing key: target_path");
            Err(MageError::InvalidMageFile(msg))
        },
        Option::Some(t) => {
            let target_path = resolve_path(t.as_str(), home);
            let is_installed_cmd = match &entry.is_installed_cmd {
                Option::Some(c) => Option::Some(c.clone()),
                Option::None => Option::None,
            };
            Ok(ProgramOptions { name, path, target_path, is_installed_cmd })
        },
    }
}

/// Retaining one more pair appends it exactly when the manifest knows it.
proof fn lemma_retained_step(pairs: Seq<(Seq<char>, Seq<char>)>, mf: Seq<EntryView>, i: int)
    requires
        0 <= i < pairs.len(),
    ensures
        spec_retained(pairs.take(i + 1), mf) == (if spec_find_entry(mf, pairs[i].0) is Some {
            spec_retained(pairs.take(i), mf).push(pairs[i])
        } else {
            spec_retained(pairs.take(i), mf)
        }),
{
    let t = pairs.take(i + 1);
    assert(t.len() == i + 1);
    assert(t.drop_last() =~= pairs.take(i));
    assert(t.last() == pairs[i]);
    assert(spec_retained(t, mf) == (if spec_find_entry(mf, t.last().0) is Some {
        spec_retained(t.drop_last(), mf).push(t.last())
    } else {
        spec_retained(t.drop_last(), mf)
    }));
}

/// Retaining a prefix of the pairs yields a prefix of retaining them all.
proof fn lemma_retained_take_prefix(pairs: Seq<(Seq<char>, Seq<char>)>, mf: Seq<EntryView>, i: int)
    requires
        0 <= i <= pairs.len(),
    ensures
        spec_retained(pairs.take(i), mf).is_prefix_of(spec_retained(pairs, mf)),
    decreases pairs.len() - i,
{
    if i == pairs.len() {
        assert(pairs.take(i) =~= pairs);
    } else {
        assert(pairs.take(i + 1).drop_last() =~= pairs.take(i));
        assert(pairs.take(i + 1).last() == pairs[i]);
        lemma_retained_take_prefix(pairs, mf, i + 1);
    }
}

/// Parses a listing of classified directory entries into programs: the last
/// manifest in the listing wins; config entries keep their listing order;
/// entries the manifest does not mention are skipped; a mentioned entry
/// without a target path aborts the whole parse.
pub fn parse_dotfiles(entries: Vec<DotfilesEntry>, home: &str) -> (r: MageResult<
    Vec<ProgramOptions>,
>)
    ensures
        spec_parse_dotfiles_post(entries@, home@, r),
{
    let mut mage_ix: Option<usize> = None;
    let mut pairs: Vec<(String, String)> = Vec::new();
    let mut i: usize = 0;
    proof {
        assert(entries@.take(0) =~= Seq::<DotfilesEntry>::empty());
        assert(spec_pair_views(pairs@) =~= spec_config_pairs(entries@.take(0)));
    }
    while i < entries.len()
        invariant
            i <= entries@.len(),
            match mage_ix {
                Option::Some(ix) => ix < entries@.len() && (entries@[ix as int] matches
                DotfilesEntry::Magefile(m) && spec_last_magefile(entries@.take(i as int))
                    == Option::Some(m@)),
                Option::None => spec_last_magefile(entries@.take(i as int)) is None,
            },
            spec_pair_views(pairs@) == spec_config_pairs(entries@.take(i as int)),
        decreases entries@.len() - i,
    {
        proof {
            assert(entries@.take(i + 1).drop_last() =~= entries@.take(i as int));
            assert(entries@.take(i + 1).last() == entries@[i as int]);
        }
        match &entries[i] {
            DotfilesEntry::Magefile(m) => {
                mage_ix = Some(i);
            },
            DotfilesEntry::ConfigFileOrDir(n, p) => {
                let ghost pre = pairs@;
                pairs.push((n.clone(), p.clone()));
                proof {
                    assert(spec_pair_views(pairs@) =~= spec_pair_views(pre).push((n@, p@)));
                }
            },
        }
        i = i + 1;
    }
    proof {
        assert(entries@.take(entries@.len() as int) =~= entries@);
    }
    let ix = match mage_ix {
        Option::Some(ix) => ix,
        Option::None => {
            return Err(MageError::MageFileNotFound);
        },
    };
    let mf: &Magefile = match &entries[ix] {
        DotfilesEntry::Magefile(m) => m,
        DotfilesEntry::ConfigFileOrDir(n, p) => {
            proof {
                assert(false);
            }
            return Err(MageError::MageFileNotFound);
        },
    };
    let ghost mfv = mf@;
    let ghost all_pairs = spec_pair_views(pairs@);
    let mut result: Vec<ProgramOptions> = Vec::new();
    let mut k: usize = 0;
    proof {
        assert(all_pairs.take(0) =~= Seq::<(Seq<char>, Seq<char>)>::empty());
        assert(spec_program_views(result@) =~= spec_programs(
            spec_retained(all_pairs.take(0), mfv),
            mfv,
            home@,
        ));
    }
    while k < pairs.len()
        invariant
            k <= pairs@.len(),
            all_pairs == spec_pair_views(pairs@),
            all_pairs == spec_config_pairs(entries@),
            mfv == mf@,
            spec_last_magefile(entries@) == Option::Some(mfv),
            spec_program_views(result@) == spec_programs(
                spec_retained(all_pairs.take(k as int), mfv),
                mfv,
                home@,
            ),
            forall|t: int|
                0 <= t < spec_retained(all_pairs.take(k as int), mfv).len() ==> (spec_find_entry(
                    mfv,
                    (#[trigger] spec_retained(all_pairs.take(k as int), mfv)[t]).0,
                )->0).1 is Some,
        decreases pairs@.len() - k,
    {
        let ghost processed = spec_retained(all_pairs.take(k as int), mfv);
        proof {
            assert(all_pairs[k as int] == (pairs@[k as int].0@, pairs@[k as int].1@));
            assert(all_pairs.take(k + 1).drop_last() =~= all_pairs.take(k as int));
            assert(all_pairs.take(k + 1).last() == all_pairs[k as int]);
        }
        proof {
            lemma_retained_step(all_pairs, mfv, k as int);
        }
        let found = mf.find_entry(pairs[k].0.as_str());
        match found {
            Option::None => {
                proof {
                    assert(spec_retained(all_pairs.take(k + 1), mfv) == processed);
                }
            },
            Option::Some(fx) => {
                let ghost entry = spec_find_entry(mfv, all_pairs[k as int].0)->0;
                proof {
                    assert(spec_retained(all_pairs.take(k + 1), mfv) == processed.push(
                        all_pairs[k as int],
                    ));
                }
                match program_from_magefile(mf, pairs[k].0.clone(), pairs[k].1.clone(), home) {
                    Result::Ok(p) => {
                        let ghost pre_result = result@;
                        result.push(p);
                        proof {
                            assert(spec_program_views(result@) =~= spec_programs(
                                processed.push(all_pairs[k as int]),
                                mfv,
                                home@,
                            )) by {
                                let lhs = spec_program_views(result@);
                                let rhs = spec_programs(
                                    processed.push(all_pairs[k as int]),
                                    mfv,
                                    home@,
                                );
                                assert(spec_programs(processed, mfv, home@).len()
                                    == processed.len());
                                assert(spec_program_views(pre_result).len() == pre_result.len());
                                assert(processed.len() == pre_result.len());
                                assert forall|t: int| 0 <= t < lhs.len() implies lhs[t] == rhs[t] by {
                                    assert(lhs[t] == result@[t]@);
                                    if t < pre_result.len() {
                                        assert(spec_program_views(pre_result)[t] == pre_result[t]@);
                                        assert(spec_programs(processed, mfv, home@)[t]
                                            == spec_program_of(
                                            processed[t].0,
                                            processed[t].1,
                                            spec_find_entry(mfv, processed[t].0)->0,
                                            home@,
                                        ));
                                        assert(processed.push(all_pairs[k as int])[t]
                                            == processed[t]);
                                    }
                                }
                            }
                        }
                    },
                    Result::Err(e) => {
                        proof {
                            lemma_retained_take_prefix(all_pairs, mfv, k + 1);
                            let stepped = processed.push(all_pairs[k as int]);
                            let full = spec_retained(all_pairs, mfv);
                            let i0 = processed.len() as int;
                            assert(spec_programs(processed, mfv, home@).len() == processed.len());
                            assert(stepped.len() == i0 + 1);
                            assert(stepped.is_prefix_of(full));
                            assert(full.subrange(0, i0 + 1) == stepped);
                            assert(full[i0] == stepped[i0]);
                            assert(full[i0] == all_pairs[k as int]);
                            assert forall|j: int| 0 <= j < i0 implies (spec_find_entry(
                                mfv,
                                (#[trigger] full[j]).0,
                            )->0).1 is Some by {
                                assert(full[j] == full.subrange(0, i0 + 1)[j]);
                                assert(stepped[j] == processed[j]);
                            }
                            assert((spec_find_entry(mfv, full[i0].0)->0).1 is None);
                            assert(e matches MageError::InvalidMageFile(d) && d@ == full[i0].0
                                + " missing key: target_path"@);
                        }
                        return Err(e);
                    },
                }
            },
        }
        k = k + 1;
    }
    proof {
        assert(all_pairs.take(pairs@.len() as int) =~= all_pairs);
        assert(spec_config_pairs(entries@) == all_pairs);
    }
    Ok(result)
}

/// Runs the setup pipeline's decisions on the given inputs: classification of
/// the origin pair first — its failure is the whole command's failure — and
/// then the parse of the listed entries. The caller materializes the origin
/// and lists the directory between the two stages.
pub fn run(args: &Args, origin_is_dir: bool, entries: Vec<DotfilesEntry>, home: &str) -> (r:
    MageResult<Vec<ProgramOptions>>)
    ensures
        !spec_is_web_url(args.origin@) && !origin_is_dir ==> (r matches Err(
            MageError::InvalidDotfilesOrigin(m),
        ) && m@ == args.origin@),
        spec_is_web_url(args.origin@) || origin_is_dir ==> spec_parse_dotfiles_post(
            entries@,
            home@,
            r,
        ),
{
    match DotfilesOrigin::from_pair(args.origin.as_str(), args.dotfiles_path.as_str(), origin_is_dir) {
        Result::Ok(_) => {},
        Result::Err(e) => {
            return Err(e);
        },
    }
    parse_dotfiles(entries, home)
}

} // verus!
