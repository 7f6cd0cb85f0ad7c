use renku_cli::cli::cmd::login::{Input as LoginInput, Steps};
use renku_cli::cli::cmd::userdoc::{
    parse_fence_info, split_command_args, FenceModifier, Input as UserdocInput, OutputOption,
};
use renku_cli::cli::cmd::version::{Input as VersionInput, Versions};
use renku_cli::cli::cmd::{get_renku_url, proxy_settings};
use renku_cli::cli::opts::{CommonOpts, Format, ProxySetting};
use renku_cli::cli::BuildInfo;
use renku_cli::httpclient::data::{
    ProjectDetails, SearchServiceVersion, SimpleVersion, VersionInfo, Visibility,
};
use renku_cli::httpclient::proxy;
use renku_cli::util::file::{splice_name, PathEntry};

fn opts() -> CommonOpts {
    CommonOpts {
        verbose: 0,
        format: Format::Default,
        renku_url: None,
        proxy: None,
        proxy_user: None,
        proxy_password: None,
    }
}

#[test]
fn login_steps_follow_the_flags() {
    let both = LoginInput { user_code_only: false, continue_from: None };
    assert!(matches!(both.get_steps(), Steps::Complete));
    let first = LoginInput { user_code_only: true, continue_from: None };
    assert!(matches!(first.get_steps(), Steps::UserCode));
    let second = LoginInput {
        user_code_only: false,
        continue_from: Some("/tmp/code.json".to_string()),
    };
    match second.get_steps() {
        Steps::Continue(p) => assert_eq!(p, "/tmp/code.json"),
        other => panic!("expected Continue, got {:?}", other),
    }
}

#[test]
fn proxy_choice_reads_none_in_any_case() {
    assert!(matches!(ProxySetting::from_str("none"), ProxySetting::NoProxy));
    assert!(matches!(ProxySetting::from_str("NONE"), ProxySetting::NoProxy));
    match ProxySetting::from_str("http://proxy.local") {
        ProxySetting::Custom { url } => assert_eq!(url, "http://proxy.local"),
        other => panic!("expected Custom, got {:?}", other),
    }
}

#[test]
fn proxy_settings_carry_the_credentials() {
    let mut o = opts();
    assert!(matches!(proxy_settings(&o), proxy::ProxySetting::System));
    o.proxy = Some(ProxySetting::NoProxy);
    assert!(matches!(proxy_settings(&o), proxy::ProxySetting::NoProxy));
    o.proxy = Some(ProxySetting::Custom { url: "http://p".to_string() });
    o.proxy_user = Some("u".to_string());
    o.proxy_password = Some("pw".to_string());
    match proxy_settings(&o) {
        proxy::ProxySetting::Custom { url, user, password } => {
            assert_eq!(url, "http://p");
            assert_eq!(user, Some("u".to_string()));
            assert_eq!(password, Some("pw".to_string()));
        }
        other => panic!("expected Custom, got {:?}", other),
    }
}

#[test]
fn base_url_prefers_argument_over_environment() {
    let mut o = opts();
    o.renku_url = Some("https://arg.example".to_string());
    let u = get_renku_url(&o, Some("https://env.example")).unwrap();
    assert_eq!(u.as_str(), "https://arg.example/");
    let o = opts();
    let u = get_renku_url(&o, Some("https://env.example")).unwrap();
    assert_eq!(u.as_str(), "https://env.example/");
    let u = get_renku_url(&o, None).unwrap();
    assert_eq!(u.as_str(), "https://renkulab.io/");
}

#[test]
fn fence_info_names_the_modifier_in_its_second_word() {
    assert_eq!(parse_fence_info("bash renku-cli"), Some(FenceModifier::Default));
    assert_eq!(parse_fence_info("bash rnk:silent"), Some(FenceModifier::Silent));
    assert_eq!(parse_fence_info("  sh   rnk  extra"), Some(FenceModifier::Default));
    assert_eq!(parse_fence_info("bash"), None);
    assert_eq!(parse_fence_info(""), None);
    assert_eq!(parse_fence_info("bash python"), None);
}

#[test]
fn invalid_modifier_is_named_in_the_message() {
    assert_eq!(
        FenceModifier::from_str("zap"),
        Err("Invalid modifier: zap".to_string())
    );
    assert_eq!(FenceModifier::from_str("rnk"), Ok(FenceModifier::Default));
    assert_eq!(
        FenceModifier::from_str("renku-cli:silent"),
        Ok(FenceModifier::Silent)
    );
}

#[test]
fn command_line_loses_its_first_word() {
    assert_eq!(
        split_command_args("rnk version --client-only"),
        vec!["version".to_string(), "--client-only".to_string()]
    );
    assert_eq!(split_command_args("rnk"), Vec::<String>::new());
    assert_eq!(split_command_args("   "), Vec::<String>::new());
}

#[test]
fn userdoc_output_prefers_the_single_file() {
    let mut input = UserdocInput {
        files: vec!["doc.md".to_string()],
        output_file: Some("out.md".to_string()),
        output_dir: Some("out".to_string()),
        renku_cli: None,
        overwrite: false,
        result_marker: "renku-cli-output".to_string(),
        filter_regex: "^.*\\.md$".to_string(),
    };
    assert!(matches!(input.get_output(), OutputOption::OutFile(_)));
    input.output_file = None;
    assert!(matches!(input.get_output(), OutputOption::OutDir(_)));
    input.output_dir = None;
    assert!(matches!(input.get_output(), OutputOption::Stdout));
}

#[test]
fn version_report_lines_are_exact() {
    let info = VersionInfo {
        search: SearchServiceVersion {
            name: "search".to_string(),
            version: "2.3.4".to_string(),
            head_commit: "abcdef1234567890".to_string(),
        },
        data: SimpleVersion { version: "1.2.3".to_string() },
    };
    let v = Versions::create(info, "https://renkulab.io");
    let text = v.render();
    assert!(text.starts_with("Client:\n"));
    assert!(text.contains("\n\nRenku @ https://renkulab.io\n"));
    assert!(text.contains("  Data Services: 1.2.3\n"));
    assert!(text.ends_with("  Search Services: 2.3.4 (abcdef12)"));
    let _ = VersionInput { client_only: true };
}

#[test]
fn build_info_renders_its_fields() {
    let b = BuildInfo::default();
    let text = b.render();
    assert!(text.starts_with("  Built at: unknown\n  Version: 0.1.0\n  Sha: "));
}

#[test]
fn visibility_uses_the_wire_words() {
    assert_eq!(Visibility::Public.as_string(), "public");
    assert_eq!(Visibility::Private.as_string(), "private");
}

#[test]
fn project_details_render_lists_repositories() {
    let d = ProjectDetails {
        id: "id1".to_string(),
        name: "Proj".to_string(),
        namespace: "ns".to_string(),
        slug: "sl".to_string(),
        visibility: Visibility::Public,
        etag: None,
        repositories: vec![
            "https://h/a.git".to_string(),
            "https://h/b.git".to_string(),
        ],
        description: None,
        keywords: vec![],
        creation_date: "2024-01-01T00:00:00Z".to_string(),
    };
    assert_eq!(
        d.render(),
        "Id: id1\nNamespace/Slug: ns/sl\nVisibility: public\n\
         Created At: 2024-01-01T00:00:00Z\nRepositories:\n  - https://h/a.git\n  - https://h/b.git"
    );
}

#[test]
fn splice_name_numbers_before_the_extension() {
    assert_eq!(splice_name("test.html", &1), "test_1.html");
    assert_eq!(splice_name("test", &2), "test_2");
    assert_eq!(splice_name(".gitignore", &1), ".gitignore_1");
    assert_eq!(splice_name("dir/archive.tar.gz", &3), "dir/archive.tar_3.gz");
    assert_eq!(splice_name("x.y", &-1), "x_-1.y");
}

#[test]
fn sub_path_strips_the_root() {
    let e = PathEntry {
        root: "a/b".to_string(),
        entry: "a/b/c.txt".to_string(),
    };
    assert_eq!(e.sub_path().unwrap(), "c.txt");
    let same = PathEntry {
        root: "a/b".to_string(),
        entry: "a/b".to_string(),
    };
    assert_eq!(same.sub_path().unwrap(), "");
    let slashed = PathEntry {
        root: "a/".to_string(),
        entry: "a/c".to_string(),
    };
    assert_eq!(slashed.sub_path().unwrap(), "c");
    let outside = PathEntry {
        root: "a/b".to_string(),
        entry: "x/y".to_string(),
    };
    assert!(outside.sub_path().is_err());
}
