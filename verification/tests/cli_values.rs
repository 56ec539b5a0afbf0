//! Tests of the command-line value types and the path helpers.

use sp_variant::cli::{CommandId, ParseError, RepoType};
use sp_variant::{get_filename, get_filename_extension, VariantError};

#[test]
fn repo_type_names() {
    assert_eq!(RepoType::Contrib.as_str(), "contrib");
    assert_eq!(RepoType::Staging.as_str(), "staging");
    assert_eq!(RepoType::Infra.as_str(), "infra");
    assert_eq!(RepoType::Contrib.extension(), "");
    assert_eq!(RepoType::Staging.extension(), "-staging");
    assert_eq!(RepoType::Infra.extension(), "-infra");
}

#[test]
fn repo_type_parse() {
    assert!(matches!(RepoType::from_name("contrib"), Ok(RepoType::Contrib)));
    assert!(matches!(RepoType::from_name("staging"), Ok(RepoType::Staging)));
    assert!(matches!(RepoType::from_name("infra"), Ok(RepoType::Infra)));
    assert!(matches!(
        RepoType::from_name("testing"),
        Err(ParseError::RepoTypeUnknown)
    ));
}

#[test]
fn command_id_parse() {
    let cid = CommandId::from_name("package.install").unwrap();
    assert_eq!(cid.category, "package");
    assert_eq!(cid.name, "install");

    let cid = CommandId::from_name(".install").unwrap();
    assert_eq!(cid.category, "");
    assert_eq!(cid.name, "install");

    assert!(matches!(
        CommandId::from_name("nodot"),
        Err(ParseError::CommandIdNeedsTwo)
    ));
    assert!(matches!(
        CommandId::from_name("too.many.parts"),
        Err(ParseError::CommandIdNeedsTwo)
    ));
}

#[test]
fn filename_helpers() {
    assert_eq!(
        get_filename("/usr/share/foo.sources", "Apt sources list").unwrap(),
        "foo.sources"
    );
    assert_eq!(get_filename("bare-name", "Apt sources list").unwrap(), "bare-name");
    assert_eq!(get_filename("dir/ends/with/", "tag").unwrap(), "");

    assert_eq!(
        get_filename_extension("foo.sources", "Apt sources list").unwrap(),
        ("foo", "sources")
    );
    assert_eq!(
        get_filename_extension("archive.tar.gz", "tag").unwrap(),
        ("archive.tar", "gz")
    );
    assert!(matches!(
        get_filename_extension("no-extension", "tag"),
        Err(VariantError::Internal(_))
    ));
}
