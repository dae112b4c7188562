use mage::dotfiles::ProgramOptions;
use mage::error::MageError;
use mage::magefile::find_magefile;
use mage::magefile::parse_magefile;
use mage::util::FullPath;

const HOME: &str = "/home/user";

#[test]
fn setup_invalid_magefile() {
    let magefile = parse_magefile("an example config file\nnot a magefile");
    assert!(magefile.is_err());
    match magefile.unwrap_err() {
        MageError::InvalidMageFile(_) => {}
        val => assert!(false, "Got: {}", val.message()),
    }
}

#[test]
fn parse_error_keeps_parser_diagnostic() {
    let err = parse_magefile("[unclosed").unwrap_err();
    let msg = err.message();
    assert!(msg.starts_with("Invalid magefile: Failed to parse magefile:\n"));
    assert!(msg.len() > "Invalid magefile: Failed to parse magefile:\n".len());
}

#[test]
fn parse_reads_entries_and_fields() {
    let mf = parse_magefile(
        "[example]\ntarget_path = \"/tmp/example.config\"\nis_installed_cmd = \"true\"\n",
    )
    .unwrap();
    assert_eq!(mf.entries.len(), 1);
    assert_eq!(mf.entries[0].name, "example");
    assert_eq!(mf.entries[0].target_path.as_deref(), Some("/tmp/example.config"));
    assert_eq!(mf.entries[0].is_installed_cmd.as_deref(), Some("true"));
}

#[test]
fn expansion_keeps_declaration_order() {
    let text = "[zeta]\ntarget_path = \"/tmp/z\"\n[alpha]\ntarget_path = \"/tmp/a\"\n[mike]\ntarget_path = \"/tmp/m\"\n";
    let mf = parse_magefile(text).unwrap();
    let base = FullPath::from_raw("/dots", HOME);
    let programs = ProgramOptions::generate(&mf, &base, HOME).unwrap();
    assert_eq!(programs.len(), 3);
    assert_eq!(programs[0].origin_path.to_str(), "/dots/zeta");
    assert_eq!(programs[0].target_path.to_str(), "/tmp/z");
    assert_eq!(programs[1].origin_path.to_str(), "/dots/alpha");
    assert_eq!(programs[1].target_path.to_str(), "/tmp/a");
    assert_eq!(programs[2].origin_path.to_str(), "/dots/mike");
    assert_eq!(programs[2].target_path.to_str(), "/tmp/m");
}

#[test]
fn missing_target_path_aborts_expansion() {
    let text = "[good]\ntarget_path = \"/tmp/g\"\n[bad]\nis_installed_cmd = \"true\"\n[fine]\ntarget_path = \"/tmp/f\"\n";
    let mf = parse_magefile(text).unwrap();
    let base = FullPath::from_raw("/dots", HOME);
    let err = ProgramOptions::generate(&mf, &base, HOME).unwrap_err();
    assert_eq!(err.message(), "Invalid magefile: bad missing key: target_path");
}

#[test]
fn nonstring_target_path_counts_as_missing() {
    let text = "[odd]\ntarget_path = 3\n";
    let mf = parse_magefile(text).unwrap();
    let base = FullPath::from_raw("/dots", HOME);
    let err = ProgramOptions::generate(&mf, &base, HOME).unwrap_err();
    assert_eq!(err.message(), "Invalid magefile: odd missing key: target_path");
}

#[test]
fn target_path_shorthand_is_resolved() {
    let mf = parse_magefile("[conf]\ntarget_path = \"~/.config/conf\"\n").unwrap();
    let base = FullPath::from_raw("/dots", HOME);
    let programs = ProgramOptions::generate(&mf, &base, HOME).unwrap();
    assert_eq!(programs[0].target_path.to_str(), "/home/user/.config/conf");
}

#[test]
fn find_magefile_takes_first_prefix_match() {
    let names = vec![
        "readme.md".to_string(),
        "magefile.toml".to_string(),
        "magefile.backup".to_string(),
    ];
    assert_eq!(find_magefile(&names).unwrap(), 1);

    let none = vec!["readme.md".to_string(), "conf".to_string()];
    let err = find_magefile(&none).unwrap_err();
    assert_eq!(err.message(), "Magefile not found");
}

#[test]
fn empty_manifest_yields_no_descriptors() {
    let mf = parse_magefile("").unwrap();
    assert_eq!(mf.entries.len(), 0);
    let base = FullPath::from_raw("/dots", HOME);
    let programs = ProgramOptions::generate(&mf, &base, HOME).unwrap();
    assert_eq!(programs.len(), 0);
}

#[test]
fn duplicate_keys_are_a_parse_error() {
    let err = parse_magefile("[a]\ntarget_path = \"/tmp/a\"\n[a]\ntarget_path = \"/tmp/b\"\n")
        .unwrap_err();
    match err {
        MageError::InvalidMageFile(_) => {}
        other => panic!("expected a parse error, got {:?}", other),
    }
}
