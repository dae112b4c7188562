use mage::commands::setup::display_result;
use mage::commands::sync::GitPull;
use mage::commands::sync::Syncer;
use mage::configure::ConfigureDetails;
use mage::error::MageError;
use mage::util::FullPath;
use mage::util::file_stem;
use mage::util::resolve_path;
use mage::util::summarize;

const HOME: &str = "/home/user";

#[test]
fn util_test_get_full_path() {
    let expected = format!("{}/test", HOME);
    let path = resolve_path("~/test", HOME);
    assert_eq!(path, expected);

    let path = resolve_path("/tmp/test", HOME);
    assert_eq!(path, "/tmp/test");
}

#[test]
fn bare_tilde_resolves_to_home() {
    assert_eq!(resolve_path("~", HOME), HOME);
    assert_eq!(resolve_path("~notuser", HOME), "~notuser");
}

#[test]
fn test_syncer_with_dir() {
    let dir = FullPath::from_raw("/tmp", HOME);
    let syncer = Syncer::with_dir(dir);

    assert_eq!(syncer.directory.path(), "/tmp".to_string());
}

struct RecordingPull;

impl GitPull for RecordingPull {
    fn pull(&self, directory: &str) -> Result<(), String> {
        assert_eq!(directory, "/tmp");
        Ok(())
    }
}

#[test]
fn syncer_pulls_in_its_directory() {
    let syncer = Syncer::with_dir(FullPath::from_raw("/tmp", HOME));
    assert!(syncer.pull(&RecordingPull).is_ok());
}

#[test]
fn join_inserts_one_separator() {
    let base = FullPath::from_raw("/dots", HOME);
    assert_eq!(base.join("example.config").to_str(), "/dots/example.config");
    let slashed = FullPath::from_raw("/dots/", HOME);
    assert_eq!(slashed.join("x").to_str(), "/dots/x");
    assert_eq!(base.join("/absolute").to_str(), "/absolute");
}

#[test]
fn file_stem_drops_final_extension() {
    assert_eq!(file_stem("example.config"), "example");
    assert_eq!(file_stem("archive.tar.gz"), "archive.tar");
    assert_eq!(file_stem("noext"), "noext");
    assert_eq!(file_stem(".hidden"), ".hidden");
}

#[test]
fn summarize_joins_only_failures() {
    let all_ok: Vec<Result<(), MageError>> = vec![Ok(()), Ok(())];
    assert!(summarize(&all_ok).is_none());

    let mixed: Vec<Result<(), MageError>> = vec![
        Ok(()),
        Err(MageError::MageFileNotFound),
        Err(MageError::InvalidPath("/x".to_string())),
    ];
    let msg = summarize(&mixed).unwrap();
    assert_eq!(msg, "Magefile not found\nInvalid path /x\n");
}

#[test]
fn display_result_splits_the_two_blocks() {
    let outcomes = vec![
        ConfigureDetails::Installed("one".to_string()),
        ConfigureDetails::NotInstalled("two".to_string()),
        ConfigureDetails::SomethingWrong("three went wrong".to_string()),
        ConfigureDetails::NotInstalled("four".to_string()),
    ];
    let (errors, not_installed) = display_result(&outcomes);
    assert_eq!(errors, "three went wrong\n");
    assert_eq!(not_installed, "two\nfour\n");
}

#[test]
fn error_messages_render_each_variant() {
    assert_eq!(
        MageError::Unexpected("boom".to_string()).message(),
        "Error: boom"
    );
    assert_eq!(
        MageError::File("io trouble".to_string()).message(),
        "File error: io trouble"
    );
    assert_eq!(MageError::MageFileNotFound.message(), "Magefile not found");
    assert_eq!(
        MageError::InvalidMageFile("bad".to_string()).message(),
        "Invalid magefile: bad"
    );
    assert_eq!(
        MageError::InvalidDotfilesOrigin("xyz".to_string()).message(),
        "Invalid path or url xyz"
    );
    assert_eq!(
        MageError::InvalidPath("/p".to_string()).message(),
        "Invalid path /p"
    );
}

#[test]
fn example_magefile_contents() {
    let text = mage::commands::init::example_magefile();
    assert_eq!(
        text,
        "[\"example.config\"]\ntarget_path = \"~/.config/example.config\"\n"
    );
    let mf = mage::magefile::parse_magefile(&text).unwrap();
    assert_eq!(mf.entries[0].name, "example.config");
    assert_eq!(
        mf.entries[0].target_path.as_deref(),
        Some("~/.config/example.config")
    );
}

#[test]
fn entry_key_is_the_file_stem() {
    let entry = mage::setup::config_entry("example.config", "/dots/example.config".to_string());
    match entry {
        mage::setup::DotfilesEntry::ConfigFileOrDir(key, path) => {
            assert_eq!(key, "example");
            assert_eq!(path, "/dots/example.config");
        }
        other => panic!("expected a config entry, got {:?}", other),
    }
    assert!(mage::setup::is_magefile_name("magefile.toml"));
    assert!(!mage::setup::is_magefile_name("example.config"));
}
