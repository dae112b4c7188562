use mage::Args;
use mage::error::MageError;
use mage::magefile::parse_magefile;
use mage::setup::DotfilesEntry;
use mage::setup::DotfilesOrigin;
use mage::setup::parse_dotfiles;
use mage::setup::run;

const HOME: &str = "/home/user";

fn fixture_entries() -> Vec<DotfilesEntry> {
    let mf = parse_magefile("[example]\ntarget_path = \"/tmp/example.config\"\n").unwrap();
    vec![
        DotfilesEntry::ConfigFileOrDir("another".to_string(), "/dots/another".to_string()),
        DotfilesEntry::ConfigFileOrDir("example".to_string(), "/dots/example.config".to_string()),
        DotfilesEntry::Magefile(mf),
    ]
}

#[test]
fn test_parse_dotfiles() {
    let programs = parse_dotfiles(fixture_entries(), HOME).unwrap();

    assert_eq!(programs.len(), 1);

    let program = &programs[0];
    assert_eq!(program.name, "example");
    let target_path = program.target_path.as_str();

    assert_eq!(target_path, "/tmp/example.config")
}

#[test]
fn parse_dotfiles_without_manifest_fails() {
    let entries = vec![DotfilesEntry::ConfigFileOrDir(
        "example".to_string(),
        "/dots/example.config".to_string(),
    )];
    let err = parse_dotfiles(entries, HOME).unwrap_err();
    assert_eq!(err.message(), "Magefile not found");
}

#[test]
fn parse_dotfiles_skips_unknown_configs() {
    let programs = parse_dotfiles(fixture_entries(), HOME).unwrap();
    assert!(programs.iter().all(|p| p.name != "another"));
}

#[test]
fn setup_dotfiles_origin_from_str() {
    let origin = ("/tmp", "asdf");
    let df_origin = DotfilesOrigin::from_pair(origin.0, origin.1, true).unwrap();

    assert_eq!(df_origin, DotfilesOrigin::Directory("/tmp".to_string()));

    let origin = ("https://google.com", "bar");
    let df_origin = DotfilesOrigin::from_pair(origin.0, origin.1, false).unwrap();
    let should_be =
        DotfilesOrigin::Repository("https://google.com".to_string(), "bar".to_string());
    assert_eq!(df_origin, should_be);

    let origin = ("asdf", "bar");
    let df_origin = DotfilesOrigin::from_pair(origin.0, origin.1, false);
    assert!(df_origin.is_err())
}

#[test]
fn setup_with_invalid_args() {
    let args = Args {
        origin: "asdfsd".to_string(),
        dotfiles_path: "sadfas".to_string(),
    };

    let result = run(&args, false, vec![], HOME);
    assert!(result.is_err());

    match result.unwrap_err() {
        MageError::InvalidDotfilesOrigin(_) => {}
        val => assert!(false, "Got: {}", val.message()),
    }
}

#[test]
fn setup_with_valid_args() {
    let args = Args {
        origin: "examples/test-dotfiles".to_string(),
        dotfiles_path: "/tmp/valid".to_string(),
    };
    let result = run(&args, true, fixture_entries(), HOME);

    assert!(result.is_ok());
    let programs = result.unwrap();
    assert_eq!(programs.len(), 1);
}

#[test]
fn setup_init_with_invalid_args() {
    let result = mage::commands::setup::run("asdf", "asdf", false, vec![], HOME);
    assert!(result.is_err());
}

#[test]
fn setup_keeps_install_command_raw() {
    let mf = parse_magefile(
        "[example]\ntarget_path = \"~/.conf\"\nis_installed_cmd = \"which example\"\n",
    )
    .unwrap();
    let entries = vec![
        DotfilesEntry::ConfigFileOrDir("example".to_string(), "/dots/example.config".to_string()),
        DotfilesEntry::Magefile(mf),
    ];
    let programs = parse_dotfiles(entries, HOME).unwrap();
    assert_eq!(programs[0].target_path.as_str(), "/home/user/.conf");
    assert_eq!(programs[0].is_installed_cmd.as_deref(), Some("which example"));
}

#[test]
fn last_manifest_in_listing_wins() {
    let first = parse_magefile("[example]\ntarget_path = \"/tmp/first\"\n").unwrap();
    let second = parse_magefile("[example]\ntarget_path = \"/tmp/second\"\n").unwrap();
    let entries = vec![
        DotfilesEntry::Magefile(first),
        DotfilesEntry::ConfigFileOrDir("example".to_string(), "/dots/example.config".to_string()),
        DotfilesEntry::Magefile(second),
    ];
    let programs = parse_dotfiles(entries, HOME).unwrap();
    assert_eq!(programs[0].target_path.as_str(), "/tmp/second");
}
