use renku_cli::data::renku_url::RenkuUrl;
use renku_cli::project_config::{ProjectConfigError, ProjectInfo, RenkuProjectConfig};

#[test]
fn write_and_read_config() {
    let data = RenkuProjectConfig::new(
        RenkuUrl::parse("http://renkulab.io").unwrap(),
        ProjectInfo {
            id: "abc123".into(),
            namespace: "my-ns".into(),
            slug: "projecta".into(),
        },
    );
    let text = data.to_toml();
    let from_file = RenkuProjectConfig::from_toml(text.as_str()).unwrap();
    assert_eq!(data, from_file);
}

#[test]
fn linkage_document_is_exact() {
    let data = RenkuProjectConfig::new(
        RenkuUrl::new("https://host".to_string()),
        ProjectInfo {
            id: "1".into(),
            namespace: "n".into(),
            slug: "s".into(),
        },
    );
    assert_eq!(
        data.to_toml(),
        "version = 1\nrenku_url = \"https://host\"\n\n[project]\nid = \"1\"\n\
         namespace = \"n\"\nslug = \"s\"\n"
    );
}

#[test]
fn linkage_round_trips_with_awkward_text() {
    let data = RenkuProjectConfig::new(
        RenkuUrl::new("https://host/a b".to_string()),
        ProjectInfo {
            id: "i\"d".into(),
            namespace: "na\\me".into(),
            slug: "sl\nug".into(),
        },
    );
    let text = data.to_toml();
    assert_eq!(RenkuProjectConfig::from_toml(text.as_str()).unwrap(), data);
}

#[test]
fn malformed_linkage_is_refused() {
    assert_eq!(
        RenkuProjectConfig::from_toml("nonsense"),
        Err(ProjectConfigError::ParseFile)
    );
    assert_eq!(
        RenkuProjectConfig::from_toml("version = 1\n"),
        Err(ProjectConfigError::ParseFile)
    );
}
