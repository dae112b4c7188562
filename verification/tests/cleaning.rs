use mage::commands::clean::UnlinkDecision;
use mage::commands::clean::execute;
use mage::commands::clean::unlink_decide;

const HOME: &str = "/home/user";

#[test]
fn no_magefile() {
    let invalid_path = "/tmp";
    let names = vec!["somefile".to_string(), "another.txt".to_string()];
    let err = execute(invalid_path, HOME, true, &names, "").unwrap_err();
    assert_eq!(err.message(), "Magefile not found");
}

#[test]
fn clean_rejects_missing_directory() {
    let names: Vec<String> = vec![];
    let err = execute("/no/such/dir", HOME, false, &names, "").unwrap_err();
    assert_eq!(err.message(), "Error: invalid path: /no/such/dir");
}

#[test]
fn unlink_never_removes_a_non_symlink() {
    assert_eq!(unlink_decide(true, false), UnlinkDecision::SkippedNotASymlink);
    assert_eq!(unlink_decide(true, true), UnlinkDecision::Remove);
    assert_eq!(unlink_decide(false, false), UnlinkDecision::NothingToRemove);
    assert_eq!(unlink_decide(false, true), UnlinkDecision::NothingToRemove);
}

#[test]
fn end_to_end_clean_scenario() {
    let names = vec!["example.config".to_string(), "magefile.toml".to_string()];
    let text = "[\"example.config\"]\ntarget_path = \"/tmp/example.config\"\n";
    let programs = execute("/dotfiles", HOME, true, &names, text).unwrap();
    assert_eq!(programs.len(), 1);
    assert_eq!(programs[0].target_path.to_str(), "/tmp/example.config");

    // The symlink created by the link command is removed; once gone, a
    // second clean finds nothing to remove.
    assert_eq!(unlink_decide(true, true), UnlinkDecision::Remove);
    assert_eq!(unlink_decide(false, false), UnlinkDecision::NothingToRemove);
}

#[test]
fn clean_without_manifest_touches_nothing() {
    let names = vec!["notes.txt".to_string()];
    let result = execute("/dotfiles", HOME, true, &names, "");
    match result {
        Err(mage::error::MageError::MageFileNotFound) => {}
        other => panic!("expected the missing-manifest error, got {:?}", other),
    }
}
