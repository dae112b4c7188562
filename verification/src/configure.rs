use vstd::prelude::*;

use crate::error::MageError;
use crate::error::spec_message;
use crate::setup::ProgramOptions;

verus! {

/// The reported outcome of configuring one program.
#[derive(Debug, Clone, PartialEq)]
pub enum ConfigureDetails {
    Installed(String),
    NotInstalled(String),
    SomethingWrong(String),
}

/// How one finished link turned out.
#[derive(Debug, Clone, PartialEq)]
pub enum LinkOutcome {
    /// Something already sits at the target path: nothing was touched.
    AlreadyLinked,
    /// The symlink was created; `installed` reports the install check, and
    /// is true when no check was configured.
    Linked { installed: bool },
}

/// The per-descriptor failures of the link engine; they are collected, never
/// propagated out of a batch.
#[derive(Debug, Clone, PartialEq)]
pub enum LinkError {
    /// The target's parent directory could not be set up.
    PathSetupFailed(String),
    /// The symlink could not be created; carries origin and target.
    SymlinkFailed(String, String),
}

/// The filesystem step that the driver performs next for one descriptor.
#[derive(Debug, Clone, PartialEq)]
pub enum LinkAction {
    /// Probe whether anything sits at the target path.
    ProbeTarget,
    /// Create the target's parent directory and any missing ancestors.
    EnsureParent,
    /// Create the symlink from the origin path to the target path.
    CreateSymlink,
    /// Run this install-check command through a shell.
    RunInstallCheck(String),
}

/// Where the linking of one descriptor stands.
#[derive(Debug, PartialEq)]
pub enum LinkState {
    Start,
    ParentPending,
    LinkPending,
    InstallPending,
    Done(Result<LinkOutcome, LinkError>),
}

/// What the driver reports back after performing an action.
#[derive(Debug, PartialEq)]
pub enum LinkEvent {
    TargetProbed(bool),
    ParentEnsured(Result<(), String>),
    SymlinkCreated(Result<(), String>),
    InstallChecked(bool),
}

/// The transition of the link machine: an existing target settles the run as
/// already linked before any mutation; otherwise the parent is ensured, the
/// symlink created, and the optional install check run. An event that does
/// not belong to the state leaves the state alone.
pub open spec fn spec_link_step(opts: ProgramOptions, st: LinkState, ev: LinkEvent) -> LinkState {
    match (st, ev) {
        (LinkState::Start, LinkEvent::TargetProbed(exists)) => {
            if exists {
                LinkState::Done(Result::Ok(LinkOutcome::AlreadyLinked))
            } else {
                LinkState::ParentPending
            }
        },
        (LinkState::ParentPending, LinkEvent::ParentEnsured(res)) => match res {
            Result::Ok(u) => LinkState::LinkPending,
            Result::Err(m) => LinkState::Done(Result::Err(LinkError::PathSetupFailed(m))),
        },
        (LinkState::LinkPending, LinkEvent::SymlinkCreated(res)) => match res {
            Result::Ok(u) => {
                if opts.is_installed_cmd is Some {
                    LinkState::InstallPending
                } else {
                    LinkState::Done(Result::Ok(LinkOutcome::Linked { installed: true }))
                }
            },
            Result::Err(m) => LinkState::Done(
                Result::Err(LinkError::SymlinkFailed(opts.path, opts.target_path)),
            ),
        },
        (LinkState::InstallPending, LinkEvent::InstallChecked(ok)) => LinkState::Done(
            Result::Ok(LinkOutcome::Linked { installed: ok }),
        ),
        (other_st, other_ev) => other_st,
    }
}

/// Advances the linking of one descriptor by one observed event.
pub fn link_step(opts: &ProgramOptions, st: LinkState, ev: LinkEvent) -> (r: LinkState)
    ensures
        r == spec_link_step(*opts, st, ev),
{
    match (st, ev) {
        (LinkState::Start, LinkEvent::TargetProbed(exists)) => {
            if exists {
                LinkState::Done(Result::Ok(LinkOutcome::AlreadyLinked))
            } else {
                LinkState::ParentPending
            }
        },
        (LinkState::ParentPending, LinkEvent::ParentEnsured(res)) => match res {
            Result::Ok(u) => LinkState::LinkPending,
            Result::Err(m) => LinkState::Done(Result::Err(LinkError::PathSetupFailed(m))),
        },
        (LinkState::LinkPending, LinkEvent::SymlinkCreated(res)) => match res {
            Result::Ok(u) => {
                if opts.is_installed_cmd.is_some() {
                    LinkState::InstallPending
                } else {
                    LinkState::Done(Result::Ok(LinkOutcome::Linked { installed: true }))
                }
            },
            Result::Err(m) => LinkState::Done(
                Result::Err(
                    LinkError::SymlinkFailed(opts.path.clone(), opts.target_path.clone()),
                ),
            ),
        },
        (LinkState::InstallPending, LinkEvent::InstallChecked(ok)) => LinkState::Done(
            Result::Ok(LinkOutcome::Linked { installed: ok }),
        ),
        (other_st, other_ev) => other_st,
    }
}

/// The action that a state asks of the driver; a settled state asks nothing.
/// The install check is only asked for when a command is configured.
pub fn link_action(opts: &ProgramOptions, st: &LinkState) -> (r: Option<LinkAction>)
    ensures
        match st {
            LinkState::Start => r == Some(LinkAction::ProbeTarget),
            LinkState::ParentPending => r == Some(LinkAction::EnsureParent),
            LinkState::LinkPending => r == Some(LinkAction::CreateSymlink),
            LinkState::InstallPending => match opts.is_installed_cmd {
                Option::Some(c) => r matches Some(LinkAction::RunInstallCheck(rc)) && rc == c,
                Option::None => r is None,
            },
            LinkState::Done(res) => r is None,
        },
{
    match st {
        LinkState::Start => Some(LinkAction::ProbeTarget),
        LinkState::ParentPending => Some(LinkAction::EnsureParent),
        LinkState::LinkPending => Some(LinkAction::CreateSymlink),
        LinkState::InstallPending => match &opts.is_installed_cmd {
            Option::Some(c) => Some(LinkAction::RunInstallCheck(c.clone())),
            Option::None => None,
        },
        LinkState::Done(res) => None,
    }
}

/// A full run of the link machine under given driver results: the states it
/// passes are Start, then — only when the target was absent — the parent,
/// symlink and optional install stages.
pub open spec fn spec_link_run(
    opts: ProgramOptions,
    target_exists: bool,
    parent_result: Result<(), String>,
    symlink_result: Result<(), String>,
    install_ok: bool,
) -> LinkState {
    let s1 = spec_link_step(opts, LinkState::Start, LinkEvent::TargetProbed(target_exists));
    let s2 = spec_link_step(opts, s1, LinkEvent::ParentEnsured(parent_result));
    let s3 = spec_link_step(opts, s2, LinkEvent::SymlinkCreated(symlink_result));
    let s4 = spec_link_step(opts, s3, LinkEvent::InstallChecked(install_ok));
    s4
}

/// Linking is idempotent. A run on an absent target whose filesystem steps
/// succeed ends Linked, with the install check deciding `installed` and an
/// absent check counting as installed. A run that finds the target present —
/// as a second run over the same descriptor does — settles at once as
/// AlreadyLinked: its one step from Start is final, so no mutating action is
/// ever asked of the driver.
pub proof fn lemma_link_idempotent(
    opts: ProgramOptions,
    parent_result: Result<(), String>,
    symlink_result: Result<(), String>,
    install_ok: bool,
)
    requires
        parent_result is Ok,
        symlink_result is Ok,
    ensures
        spec_link_run(opts, false, parent_result, symlink_result, install_ok) == LinkState::Done(
            Result::Ok(
                LinkOutcome::Linked {
                    installed: if opts.is_installed_cmd is Some {
                        install_ok
                    } else {
                        true
                    },
                },
            ),
        ),
        spec_link_run(opts, true, parent_result, symlink_result, install_ok) == LinkState::Done(
            Result::Ok(LinkOutcome::AlreadyLinked),
        ),
        spec_link_step(opts, LinkState::Start, LinkEvent::TargetProbed(true)) == LinkState::Done(
            Result::Ok(LinkOutcome::AlreadyLinked),
        ),
{
}

/// The outcome of one configured program once its link settled: the install
/// check decides between installed and not installed, and a program without
/// a check counts as installed.
pub fn configure_details(name: String, is_installed_cmd: &Option<String>, install_ok: bool) -> (r:
    ConfigureDetails)
    ensures
        match is_installed_cmd {
            Option::Some(c) => r == (if install_ok {
                ConfigureDetails::Installed(name)
            } else {
                ConfigureDetails::NotInstalled(name)
            }),
            Option::None => r == ConfigureDetails::Installed(name),
        },
{
    match is_installed_cmd {
        Option::Some(c) => {
            if install_ok {
                ConfigureDetails::Installed(name)
            } else {
                ConfigureDetails::NotInstalled(name)
            }
        },
        Option::None => ConfigureDetails::Installed(name),
    }
}

/// The collected outcomes of a batch, one per program and in the batch's
/// order: a failure becomes SomethingWrong with the failure's message, and
/// never aborts its siblings.
pub fn configure_outcomes(results: Vec<Result<ConfigureDetails, MageError>>) -> (r: Vec<
    ConfigureDetails,
>)
    ensures
        r@.len() == results@.len(),
        forall|i: int|
            0 <= i < results@.len() ==> match #[trigger] results@[i] {
                Result::Ok(d) => r@[i] == d,
                Result::Err(e) => r@[i] matches ConfigureDetails::SomethingWrong(m) && m@
                    == spec_message(e),
            },
{
    let mut out: Vec<ConfigureDetails> = Vec::new();
    let mut i: usize = 0;
    while i < results.len()
        invariant
            i <= results@.len(),
            out@.len() == i,
            forall|j: int|
                0 <= j < i ==> match #[trigger] results@[j] {
                    Result::Ok(d) => out@[j] == d,
                    Result::Err(e) => out@[j] matches ConfigureDetails::SomethingWrong(m) && m@
                        == spec_message(e),
                },
        decreases results@.len() - i,
    {
        match &results[i] {
            Result::Ok(d) => {
                let copied = match d {
                    ConfigureDetails::Installed(n) => ConfigureDetails::Installed(n.clone()),
                    ConfigureDetails::NotInstalled(n) => ConfigureDetails::NotInstalled(n.clone()),
                    ConfigureDetails::SomethingWrong(n) => ConfigureDetails::SomethingWrong(
                        n.clone(),
                    ),
                };
                out.push(copied);
            },
            Result::Err(e) => out.push(ConfigureDetails::SomethingWrong(e.message())),
        }
        i = i + 1;
    }
    out
}

/// The interface of one configurable unit; the progress sink is handed in so
/// that a batch can drive many bars at once.
pub trait Configure<T, B: Bar> {
    fn configure(&self, bar: &B) -> Result<T, MageError>;
}

/// A progress sink that one worker owns while it configures one program.
pub trait Bar {
    fn set_message(&self, msg: String);

    fn finish_with_message(&self, msg: String);
}

} // verus!
