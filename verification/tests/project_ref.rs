use renku_cli::data::project_id::{ProjectId, ProjectIdParseError};

#[test]
fn read_to_string() {
    let id1 = ProjectId::NamespaceSlug {
        namespace: "n1".into(),
        slug: "s1".into(),
    };
    let id2 = ProjectId::Id("pr-id-42".into());
    let id3 = ProjectId::parse("http://localhost/project/1").unwrap();

    for id in vec![id1, id2, id3] {
        let id_str = id.as_string();
        let id_parsed = ProjectId::parse(&id_str).unwrap();
        assert_eq!(id, id_parsed);
    }
}

#[test]
fn slash_splits_namespace_and_slug() {
    match ProjectId::parse("group/sub/proj").unwrap() {
        ProjectId::NamespaceSlug { namespace, slug } => {
            assert_eq!(namespace, "group");
            assert_eq!(slug, "sub/proj");
        }
        other => panic!("expected namespace/slug, got {:?}", other),
    }
}

#[test]
fn http_prefix_must_parse_as_url() {
    assert_eq!(
        ProjectId::parse("http://[broken"),
        Err(ProjectIdParseError::UrlParse)
    );
    match ProjectId::parse("https://renkulab.io/v2/projects/x").unwrap() {
        ProjectId::FullUrl(u) => {
            assert_eq!(u.as_str(), "https://renkulab.io/v2/projects/x");
        }
        other => panic!("expected a URL, got {:?}", other),
    }
}
