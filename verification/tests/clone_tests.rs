use cvue::cli::{run, AddArgs, CloneArgs, Commands, GetArgs, RemoveArgs, RunOutcome, ShowArgs};
use cvue::clone_plan::{build_clone_url, plan_clone, resolve_clone_target};
use cvue::error::ActionError;
use cvue::registry::add_template;
use cvue::template::TemplateInfo;

fn record(alias: &str, repo: &str, description: &str, is_default: bool) -> TemplateInfo {
    TemplateInfo {
        alias: alias.to_string(),
        repo: repo.to_string(),
        description: description.to_string(),
        is_default,
    }
}

#[test]
fn clone_from_default_template_end_to_end() {
    // Start from an empty catalog, add a default template, and plan a
    // clone with no template argument.
    let empty: Vec<TemplateInfo> = Vec::new();
    let cat = add_template(
        &empty,
        "v1".to_string(),
        "vuejs/core".to_string(),
        "desc".to_string(),
        true,
    )
    .unwrap();
    let plan = plan_clone(&cat, None, Some("out"), None).unwrap();
    assert_eq!(plan.url, "https://github.com/vuejs/core.git");
    assert_eq!(plan.target, "out");
}

#[test]
fn clone_with_no_default_fails() {
    let cat = vec![record("a", "x/a", "", false)];
    let r = plan_clone(&cat, None, Some("out"), None);
    assert_eq!(r.unwrap_err(), ActionError::NoDefaultTemplate);
}

#[test]
fn clone_by_alias_uses_its_repo() {
    let cat = vec![record("a", "owner/proj", "", false)];
    let plan = plan_clone(&cat, Some("a"), None, None).unwrap();
    assert_eq!(plan.url, "https://github.com/owner/proj.git");
    // Target falls back to the last path segment of the repo reference.
    assert_eq!(plan.target, "proj");
}

#[test]
fn clone_unknown_alias_falls_back_to_literal_reference() {
    let cat = vec![record("a", "x/a", "", true)];
    let (repo, dir) = resolve_clone_target(&cat, Some("foo/bar"), None).unwrap();
    assert_eq!(repo, "foo/bar");
    assert_eq!(dir, "bar");
}

#[test]
fn clone_target_name_is_validated() {
    let cat = vec![record("a", "x/a", "", true)];
    let r = resolve_clone_target(&cat, Some("a"), Some("bad|name"));
    assert_eq!(r.unwrap_err(), ActionError::NameHasInvalidChar);
}

#[test]
fn clone_url_carries_token() {
    let cat = vec![record("a", "owner/proj", "", true)];
    let plan = plan_clone(&cat, None, None, Some("tok123")).unwrap();
    assert_eq!(plan.url, "https://tok123@github.com/owner/proj.git");
}

#[test]
fn build_url_rejects_non_github_reference() {
    assert_eq!(
        build_clone_url("https://example.com/a/b", None).unwrap_err(),
        ActionError::InvalidGithubUrl
    );
}

#[test]
fn build_url_passes_github_url_through() {
    assert_eq!(
        build_clone_url("https://github.com/a/b", None).unwrap(),
        "https://github.com/a/b"
    );
}

#[test]
fn run_dispatches_add_and_get() {
    let empty: Vec<TemplateInfo> = Vec::new();
    let (cat, outcome) = run(
        Commands::Add(AddArgs {
            alias: "v1".to_string(),
            repo: "vuejs/core".to_string(),
            description: "desc".to_string(),
            default: true,
        }),
        &empty,
    )
    .unwrap();
    assert!(matches!(outcome, RunOutcome::Added));
    assert_eq!(cat.len(), 1);

    let (cat2, outcome) = run(Commands::Get(GetArgs { alias: "v1".to_string() }), &cat).unwrap();
    assert_eq!(cat2.len(), 1);
    match outcome {
        RunOutcome::Fetched(t) => {
            assert_eq!(t.alias, "v1");
            assert_eq!(t.repo, "vuejs/core");
            assert_eq!(t.description, "desc");
            assert!(t.is_default);
        }
        _ => panic!("expected the fetched record"),
    }
}

#[test]
fn run_dispatches_show_remove_and_clone() {
    let cat = vec![record("v1", "vuejs/core", "desc", true)];

    let (shown, outcome) = run(Commands::Show(ShowArgs { interactive: false }), &cat).unwrap();
    assert!(matches!(outcome, RunOutcome::Listed));
    assert_eq!(shown.len(), 1);

    let (after, outcome) = run(
        Commands::Clone(CloneArgs { template: None, target: Some("out".to_string()), token: None }),
        &cat,
    )
    .unwrap();
    assert_eq!(after.len(), 1);
    match outcome {
        RunOutcome::CloneReady(plan) => {
            assert_eq!(plan.url, "https://github.com/vuejs/core.git");
            assert_eq!(plan.target, "out");
        }
        _ => panic!("expected a clone plan"),
    }

    let (after, outcome) = run(Commands::Remove(RemoveArgs { alias: "v1".to_string() }), &cat)
        .unwrap();
    assert!(matches!(outcome, RunOutcome::Removed));
    assert!(after.is_empty());

    let r = run(Commands::Remove(RemoveArgs { alias: "v1".to_string() }), &after);
    assert_eq!(r.unwrap_err(), ActionError::AliasNotFound);
}
