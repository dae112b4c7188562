use vstd::prelude::*;

use crate::MageResult;
use crate::configure::ConfigureDetails;
use crate::error::MageError;
use crate::setup::DotfilesEntry;
use crate::setup::DotfilesOrigin;
use crate::setup::ProgramOptions;
use crate::setup::parse_dotfiles;
use crate::setup::spec_is_web_url;
use crate::setup::spec_parse_dotfiles_post;

verus! {

/// The failure lines of a batch of outcomes: each SomethingWrong message on
/// its own line, in order.
pub open spec fn spec_wrong_lines(rs: Seq<ConfigureDetails>) -> Seq<char>
    decreases rs.len(),
{
    if rs.len() == 0 {
        Seq::<char>::empty()
    } else {
        spec_wrong_lines(rs.drop_last()) + match rs.last() {
            ConfigureDetails::SomethingWrong(e) => e@ + "\n"@,
            ConfigureDetails::Installed(n) => Seq::<char>::empty(),
            ConfigureDetails::NotInstalled(n) => Seq::<char>::empty(),
        }
    }
}

/// The not-installed lines of a batch of outcomes: each NotInstalled name on
/// its own line, in order.
pub open spec fn spec_not_installed_lines(rs: Seq<ConfigureDetails>) -> Seq<char>
    decreases rs.len(),
{
    if rs.len() == 0 {
        Seq::<char>::empty()
    } else {
        spec_not_installed_lines(rs.drop_last()) + match rs.last() {
            ConfigureDetails::NotInstalled(n) => n@ + "\n"@,
            ConfigureDetails::Installed(n) => Seq::<char>::empty(),
            ConfigureDetails::SomethingWrong(e) => Seq::<char>::empty(),
        }
    }
}

/// Splits a batch of outcomes into the two blocks the command reports: the
/// failure lines and the not-installed lines. Failures never abort the
/// command; the caller only prints these blocks.
pub fn display_result(result: &Vec<ConfigureDetails>) -> (r: (String, String))
    ensures
        r.0@ == spec_wrong_lines(result@),
        r.1@ == spec_not_installed_lines(result@),
{
    let mut err_msg = String::new();
    let mut not_installed_msg = String::new();
    let mut i: usize = 0;
    while i < result.len()
        invariant
            i <= result@.len(),
            err_msg@ == spec_wrong_lines(result@.take(i as int)),
            not_installed_msg@ == spec_not_installed_lines(result@.take(i as int)),
        decreases result@.len() - i,
    {
        proof {
            assert(result@.take(i + 1).drop_last() =~= result@.take(i as int));
            assert(result@.take(i + 1).last() == result@[i as int]);
        }
        match &result[i] {
            ConfigureDetails::SomethingWrong(e) => {
                err_msg.append(e.as_str());
                err_msg.append("\n");
                proof {
                    assert(not_installed_msg@ + Seq::<char>::empty() =~= not_installed_msg@);
                }
            },
            ConfigureDetails::NotInstalled(n) => {
                not_installed_msg.append(n.as_str());
                not_installed_msg.append("\n");
                proof {
                    assert(err_msg@ + Seq::<char>::empty() =~= err_msg@);
                }
            },
            ConfigureDetails::Installed(n) => {
                proof {
                    assert(err_msg@ + Seq::<char>::empty() =~= err_msg@);
                    assert(not_installed_msg@ + Seq::<char>::empty() =~= not_installed_msg@);
                }
            },
        }
        i = i + 1;
    }
    proof {
        assert(result@.take(result@.len() as int) =~= result@);
    }
    (err_msg, not_installed_msg)
}

/// The decisions of the setup pipeline on an (origin, clone path) pair:
/// classification first — its failure fails the whole command — then the
/// parse of the entries that the caller listed after materializing the
/// origin.
pub fn run(
    origin: &str,
    dotfiles_path: &str,
    origin_is_dir: bool,
    entries: Vec<DotfilesEntry>,
    home: &str,
) -> (r: MageResult<Vec<ProgramOptions>>)
    ensures
        !spec_is_web_url(origin@) && !origin_is_dir ==> (r matches Err(
            MageError::InvalidDotfilesOrigin(m),
        ) && m@ == origin@),
        spec_is_web_url(origin@) || origin_is_dir ==> spec_parse_dotfiles_post(
            entries@,
            home@,
            r,
        ),
{
    match DotfilesOrigin::from_pair(origin, dotfiles_path, origin_is_dir) {
        Result::Ok(_) => {},
        Result::Err(e) => {
            return Err(e);
        },
    }
    parse_dotfiles(entries, home)
}

} // verus!
