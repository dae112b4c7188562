use mage::configure::ConfigureDetails;
use mage::configure::LinkAction;
use mage::configure::LinkEvent;
use mage::configure::LinkOutcome;
use mage::configure::LinkState;
use mage::configure::configure_details;
use mage::configure::configure_outcomes;
use mage::configure::link_action;
use mage::configure::link_step;
use mage::dotfiles::GitClone;
use mage::error::MageError;
use mage::setup::ProgramOptions;

const HOME: &str = "/home/user";

struct NoGit;

impl GitClone for NoGit {
    fn clone_repo(&self, _url: &str, _path: &str) -> Result<bool, String> {
        panic!("the clone capability must not be invoked");
    }
}

fn sample_opts(cmd: Option<&str>) -> ProgramOptions {
    ProgramOptions {
        name: "example".to_string(),
        path: "/dots/example.config".to_string(),
        target_path: "/tmp/example.config".to_string(),
        is_installed_cmd: cmd.map(|c| c.to_string()),
    }
}

#[test]
fn link_init_with_invalid_args() {
    let names: Vec<String> = vec![];
    let result = mage::commands::link::run("sdfdsf", HOME, false, false, &names, "", &NoGit);
    assert!(result.is_err());
}

#[test]
fn link_init_with_valid_args() {
    let names = vec![
        "another".to_string(),
        "example.config".to_string(),
        "magefile.toml".to_string(),
    ];
    let text = "[example]\ntarget_path = \"/tmp/example.config\"\n";
    let programs =
        mage::commands::link::run("examples/test-dotfiles", HOME, true, false, &names, text, &NoGit)
            .unwrap();
    assert_eq!(programs.len(), 1);
}

#[test]
fn link_one_idempotent() {
    let opts = sample_opts(None);

    let s0 = LinkState::Start;
    assert_eq!(link_action(&opts, &s0), Some(LinkAction::ProbeTarget));
    let s1 = link_step(&opts, s0, LinkEvent::TargetProbed(false));
    assert_eq!(link_action(&opts, &s1), Some(LinkAction::EnsureParent));
    let s2 = link_step(&opts, s1, LinkEvent::ParentEnsured(Ok(())));
    assert_eq!(link_action(&opts, &s2), Some(LinkAction::CreateSymlink));
    let s3 = link_step(&opts, s2, LinkEvent::SymlinkCreated(Ok(())));
    assert_eq!(
        s3,
        LinkState::Done(Ok(LinkOutcome::Linked { installed: true }))
    );
    assert_eq!(link_action(&opts, &s3), None);

    let second = link_step(&opts, LinkState::Start, LinkEvent::TargetProbed(true));
    assert_eq!(second, LinkState::Done(Ok(LinkOutcome::AlreadyLinked)));
    assert_eq!(link_action(&opts, &second), None);
}

#[test]
fn end_to_end_link_scenario() {
    let names = vec!["example.config".to_string(), "magefile.toml".to_string()];
    let text = "[\"example.config\"]\ntarget_path = \"/tmp/example.config\"\n";
    let programs =
        mage::commands::link::run("/dotfiles", HOME, true, false, &names, text, &NoGit).unwrap();
    assert_eq!(programs.len(), 1);
    assert_eq!(programs[0].origin_path.to_str(), "/dotfiles/example.config");
    assert_eq!(programs[0].target_path.to_str(), "/tmp/example.config");

    let opts = ProgramOptions {
        name: "example.config".to_string(),
        path: programs[0].origin_path.clone().path(),
        target_path: programs[0].target_path.clone().path(),
        is_installed_cmd: None,
    };
    let s1 = link_step(&opts, LinkState::Start, LinkEvent::TargetProbed(false));
    let s2 = link_step(&opts, s1, LinkEvent::ParentEnsured(Ok(())));
    let s3 = link_step(&opts, s2, LinkEvent::SymlinkCreated(Ok(())));
    assert_eq!(
        s3,
        LinkState::Done(Ok(LinkOutcome::Linked { installed: true }))
    );
}

#[test]
fn link_errors_are_collected_not_fatal() {
    let opts = sample_opts(None);
    let s1 = link_step(&opts, LinkState::Start, LinkEvent::TargetProbed(false));
    let failed = link_step(
        &opts,
        s1,
        LinkEvent::ParentEnsured(Err("permission denied".to_string())),
    );
    match failed {
        LinkState::Done(Err(mage::configure::LinkError::PathSetupFailed(m))) => {
            assert_eq!(m, "permission denied");
        }
        other => panic!("expected a path setup failure, got {:?}", other),
    }

    let opts2 = sample_opts(None);
    let s1 = link_step(&opts2, LinkState::Start, LinkEvent::TargetProbed(false));
    let s2 = link_step(&opts2, s1, LinkEvent::ParentEnsured(Ok(())));
    let failed = link_step(
        &opts2,
        s2,
        LinkEvent::SymlinkCreated(Err("target raced into existence".to_string())),
    );
    match failed {
        LinkState::Done(Err(mage::configure::LinkError::SymlinkFailed(origin, target))) => {
            assert_eq!(origin, "/dots/example.config");
            assert_eq!(target, "/tmp/example.config");
        }
        other => panic!("expected a symlink failure, got {:?}", other),
    }
}

#[test]
fn configure_test_not_installed() {
    let details = configure_details("example".to_string(), &Some("false".to_string()), false);
    assert_eq!(details, ConfigureDetails::NotInstalled("example".to_string()));
}

#[test]
fn configure_without_check_counts_installed() {
    let details = configure_details("example".to_string(), &None, true);
    assert_eq!(details, ConfigureDetails::Installed("example".to_string()));
    let details = configure_details("example".to_string(), &Some("true".to_string()), true);
    assert_eq!(details, ConfigureDetails::Installed("example".to_string()));
}

#[test]
fn install_check_runs_after_link() {
    let opts = sample_opts(Some("which example"));
    let s1 = link_step(&opts, LinkState::Start, LinkEvent::TargetProbed(false));
    let s2 = link_step(&opts, s1, LinkEvent::ParentEnsured(Ok(())));
    let s3 = link_step(&opts, s2, LinkEvent::SymlinkCreated(Ok(())));
    assert_eq!(s3, LinkState::InstallPending);
    assert_eq!(
        link_action(&opts, &s3),
        Some(LinkAction::RunInstallCheck("which example".to_string()))
    );
    let s4 = link_step(&opts, s3, LinkEvent::InstallChecked(false));
    assert_eq!(
        s4,
        LinkState::Done(Ok(LinkOutcome::Linked { installed: false }))
    );
}

#[test]
fn configure_outcomes_keep_order_and_wrap_errors() {
    let results = vec![
        Ok(ConfigureDetails::Installed("one".to_string())),
        Err(MageError::InvalidPath("/nowhere".to_string())),
        Ok(ConfigureDetails::NotInstalled("three".to_string())),
    ];
    let out = configure_outcomes(results);
    assert_eq!(out.len(), 3);
    assert_eq!(out[0], ConfigureDetails::Installed("one".to_string()));
    assert_eq!(
        out[1],
        ConfigureDetails::SomethingWrong("Invalid path /nowhere".to_string())
    );
    assert_eq!(out[2], ConfigureDetails::NotInstalled("three".to_string()));
}
