use renku_cli::data::project_id::ProjectId;
use renku_cli::data::renku_url::RenkuUrl;
use renku_cli::httpclient::{
    data_version_path, effective_access_token, extract_project_id, get_project_route,
    project_by_id_path, project_by_slug_path, search_version_path, Error, ProjectRoute,
};

#[test]
fn api_paths_are_exact() {
    assert_eq!(
        project_by_slug_path("my-ns", "proj"),
        "/api/data/namespaces/my-ns/projects/proj"
    );
    assert_eq!(project_by_id_path("id-9"), "/api/data/projects/id-9");
    assert_eq!(data_version_path(), "/ui-server/api/data/version");
    assert_eq!(search_version_path(), "/ui-server/api/search/version");
}

#[test]
fn project_id_is_read_out_of_a_ui_url_path() {
    let id = extract_project_id("/v2/projects/01ARZ3NDEKTSV4RRFFQ69G5FAV").unwrap();
    assert_eq!(id, "01ARZ3NDEKTSV4RRFFQ69G5FAV");
    // extra segments after the id are allowed by the pattern
    let id = extract_project_id("/v2/projects/01ARZ3NDEKTSV4RRFFQ69G5FAV/settings").unwrap();
    assert_eq!(id, "01ARZ3NDEKTSV4RRFFQ69G5FAV");
}

#[test]
fn namespace_url_is_not_an_id_url() {
    match extract_project_id("/v2/projects/my-ns/proj") {
        Err(Error::ProjectUrlParse { reason }) => {
            assert_eq!(
                reason,
                "Url did not match project URL pattern: /v2/projects/my-ns/proj"
            );
        }
        other => panic!("expected ProjectUrlParse, got {:?}", other),
    }
}

#[test]
fn unrelated_path_has_no_project() {
    match extract_project_id("/about") {
        Err(Error::ProjectUrlParse { reason }) => {
            assert_eq!(reason, "No project path found in url: /about");
        }
        other => panic!("expected ProjectUrlParse, got {:?}", other),
    }
}

#[test]
fn references_route_to_their_endpoints() {
    let by_slug = ProjectId::NamespaceSlug {
        namespace: "ns".to_string(),
        slug: "sl".to_string(),
    };
    match get_project_route(&by_slug) {
        ProjectRoute::ApiPath(p) => assert_eq!(p, "/api/data/namespaces/ns/projects/sl"),
        other => panic!("expected an API path, got {:?}", other),
    }
    let by_id = ProjectId::Id("abc".to_string());
    match get_project_route(&by_id) {
        ProjectRoute::ApiPath(p) => assert_eq!(p, "/api/data/projects/abc"),
        other => panic!("expected an API path, got {:?}", other),
    }
    let by_url = ProjectId::FullUrl(RenkuUrl::parse("https://other.host/v2/projects/x").unwrap());
    match get_project_route(&by_url) {
        ProjectRoute::ByUrl(u) => assert_eq!(u, "https://other.host/v2/projects/x"),
        other => panic!("expected a URL, got {:?}", other),
    }
}

#[test]
fn explicit_token_wins_over_cached() {
    assert_eq!(
        effective_access_token(Some("a".to_string()), Some("b".to_string())),
        Some("a".to_string())
    );
    assert_eq!(
        effective_access_token(None, Some("b".to_string())),
        Some("b".to_string())
    );
    assert_eq!(effective_access_token(None, None), None);
}

#[test]
fn urls_are_normalized_by_parsing() {
    let u = RenkuUrl::parse("HTTPS://EXAMPLE.COM").unwrap();
    assert_eq!(u.as_str(), "https://example.com/");
    assert!(RenkuUrl::parse("not a url").is_err());
}

#[test]
fn join_resolves_relative_paths() {
    let base = RenkuUrl::parse("https://renkulab.io/a/").unwrap();
    assert_eq!(base.join("b/c").unwrap().as_str(), "https://renkulab.io/a/b/c");
    let base = RenkuUrl::parse("https://renkulab.io").unwrap();
    assert_eq!(
        base.join("/api/data/projects/x").unwrap().as_str(),
        "https://renkulab.io/api/data/projects/x"
    );
}
