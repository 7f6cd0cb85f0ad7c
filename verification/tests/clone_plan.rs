use renku_cli::cli::cmd::project::clone::{
    cloned_message, cloning_message, decide_all, derive_local_name, first_failure, linkage_path,
    outcome_of, plan_tasks, skip_message, CloneOutcome, Error, Input, TaskAction,
};
use renku_cli::data::project_id::ProjectId;

#[test]
fn name_comes_from_last_segment_without_git_suffix() {
    assert_eq!(
        derive_local_name("https://example.org/group/proj.git").unwrap(),
        "proj"
    );
    assert_eq!(
        derive_local_name("https://example.org/group/proj").unwrap(),
        "proj"
    );
    assert_eq!(derive_local_name("a/b/c.git").unwrap(), "c");
}

#[test]
fn url_without_separator_has_no_name() {
    match derive_local_name("nowhere") {
        Err(Error::MissingProjectName { repo_url }) => assert_eq!(repo_url, "nowhere"),
        other => panic!("expected MissingProjectName, got {:?}", other),
    }
}

#[test]
fn batch_plans_one_task_per_repository() {
    let repos = vec![
        "https://host/g/a.git".to_string(),
        "https://host/g/b.git".to_string(),
        "https://host/g/c.git".to_string(),
    ];
    let plans = plan_tasks(&repos, "/work/proj");
    assert_eq!(plans.len(), 3);
    let names: Vec<String> = plans
        .iter()
        .map(|p| p.as_ref().unwrap().local_name.clone())
        .collect();
    assert_eq!(names, vec!["a", "b", "c"]);
    assert_eq!(plans[1].as_ref().unwrap().target_path, "/work/proj/b");
    assert_eq!(plans[1].as_ref().unwrap().source_url, "https://host/g/b.git");
}

#[test]
fn invalid_repository_fails_alone() {
    let repos = vec![
        "https://host/g/a.git".to_string(),
        "bad".to_string(),
        "https://host/g/c.git".to_string(),
    ];
    let plans = plan_tasks(&repos, "/t");
    assert!(plans[0].is_ok());
    assert!(plans[1].is_err());
    assert!(plans[2].is_ok());
}

#[test]
fn existing_directory_is_skipped_and_siblings_still_run() {
    // repositories [A, B, C]; B's directory pre-exists
    let actions = decide_all(&vec![false, true, false]);
    assert_eq!(
        actions,
        vec![TaskAction::RunClone, TaskAction::SkipExisting, TaskAction::RunClone]
    );
    assert_eq!(outcome_of(true, None), CloneOutcome::Skipped);
    assert_eq!(outcome_of(false, None), CloneOutcome::Cloned);
    assert_eq!(
        outcome_of(false, Some("network down".to_string())),
        CloneOutcome::Failed("network down".to_string())
    );
}

#[test]
fn first_failure_surfaces_after_all_outcomes() {
    let outcomes = vec![
        CloneOutcome::Cloned,
        CloneOutcome::Skipped,
        CloneOutcome::Failed("x".to_string()),
        CloneOutcome::Failed("y".to_string()),
    ];
    assert_eq!(first_failure(&outcomes), Some(2));
    let fine = vec![CloneOutcome::Cloned, CloneOutcome::Skipped];
    assert_eq!(first_failure(&fine), None);
}

#[test]
fn notices_name_what_happened() {
    assert_eq!(
        skip_message("proj").message,
        "The repository proj already exists"
    );
    assert_eq!(
        cloned_message("https://h/p.git", "/w/p").message,
        "Cloned: https://h/p.git to /w/p"
    );
    assert_eq!(
        cloning_message("slug", "id1", "/w/slug").message,
        "Cloning slug (id1) into /w/slug..."
    );
}

#[test]
fn linkage_file_lies_in_the_reserved_subdirectory() {
    assert_eq!(linkage_path("/w/proj"), "/w/proj/.renku/config.toml");
}

#[test]
fn target_dir_falls_back_to_working_directory() {
    let with = Input {
        project_ref: ProjectId::Id("x".to_string()),
        target_dir: Some("/data".to_string()),
    };
    assert_eq!(with.target_dir_or("/cwd"), "/data");
    let without = Input {
        project_ref: ProjectId::Id("x".to_string()),
        target_dir: None,
    };
    assert_eq!(without.target_dir_or("/cwd"), "/cwd");
}
