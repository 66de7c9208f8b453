use cvue::catalog::SeedOutcome;
use cvue::error::ActionError;
use cvue::registry::{
    add_template, find_by_alias, get_default_template, get_template, init_templates,
    remove_template, seed_template, update_template,
};
use cvue::template::TemplateInfo;

fn record(alias: &str, repo: &str, description: &str, is_default: bool) -> TemplateInfo {
    TemplateInfo {
        alias: alias.to_string(),
        repo: repo.to_string(),
        description: description.to_string(),
        is_default,
    }
}

fn same_record(t: &TemplateInfo, alias: &str, repo: &str, description: &str, is_default: bool) {
    assert_eq!(t.alias, alias);
    assert_eq!(t.repo, repo);
    assert_eq!(t.description, description);
    assert_eq!(t.is_default, is_default);
}

#[test]
fn add_then_find_returns_record_unchanged() {
    let empty: Vec<TemplateInfo> = Vec::new();
    let cat = add_template(
        &empty,
        "v1".to_string(),
        "vuejs/core".to_string(),
        "main template".to_string(),
        false,
    )
    .unwrap();
    let t = find_by_alias(&cat, "v1").unwrap();
    same_record(t, "v1", "vuejs/core", "main template", false);
}

#[test]
fn add_duplicate_alias_fails() {
    let empty: Vec<TemplateInfo> = Vec::new();
    let cat =
        add_template(&empty, "v1".to_string(), "a/b".to_string(), "d".to_string(), false).unwrap();
    let r = add_template(&cat, "v1".to_string(), "c/d".to_string(), "e".to_string(), false);
    assert_eq!(r.unwrap_err(), ActionError::AliasExists);
    // The record added first is untouched.
    same_record(find_by_alias(&cat, "v1").unwrap(), "v1", "a/b", "d", false);
}

#[test]
fn add_default_clears_previous_default() {
    let empty: Vec<TemplateInfo> = Vec::new();
    let cat =
        add_template(&empty, "a".to_string(), "x/a".to_string(), "".to_string(), true).unwrap();
    let cat = add_template(&cat, "b".to_string(), "x/b".to_string(), "".to_string(), true).unwrap();
    let defaults: Vec<&TemplateInfo> = cat.iter().filter(|t| t.is_default).collect();
    assert_eq!(defaults.len(), 1);
    assert_eq!(defaults[0].alias, "b");
    same_record(get_default_template(&cat).unwrap(), "b", "x/b", "", true);
}

#[test]
fn remove_then_find_returns_nothing() {
    let cat = vec![record("a", "x/a", "", false), record("b", "x/b", "", true)];
    let cat = remove_template(&cat, "a").unwrap();
    assert!(find_by_alias(&cat, "a").is_none());
    assert_eq!(cat.len(), 1);
    same_record(&cat[0], "b", "x/b", "", true);
}

#[test]
fn remove_missing_alias_fails() {
    let cat = vec![record("a", "x/a", "", false)];
    assert_eq!(remove_template(&cat, "zz").unwrap_err(), ActionError::AliasNotFound);
}

#[test]
fn update_overwrites_only_given_fields() {
    let cat = vec![record("a", "x/a", "old", false), record("b", "x/b", "", true)];
    let cat = update_template(&cat, "a", Some("y/a".to_string()), None, None).unwrap();
    same_record(&cat[0], "a", "y/a", "old", false);
    same_record(&cat[1], "b", "x/b", "", true);
}

#[test]
fn update_with_nothing_given_changes_nothing() {
    let cat = vec![record("a", "x/a", "old", false), record("b", "x/b", "desc", true)];
    let out = update_template(&cat, "a", None, None, None).unwrap();
    assert_eq!(out.len(), cat.len());
    for (t, u) in cat.iter().zip(out.iter()) {
        same_record(u, &t.alias, &t.repo, &t.description, t.is_default);
    }
}

#[test]
fn update_to_default_clears_other_defaults() {
    let cat = vec![record("a", "x/a", "", true), record("b", "x/b", "", false)];
    let cat = update_template(&cat, "b", None, None, Some(true)).unwrap();
    let defaults: Vec<&TemplateInfo> = cat.iter().filter(|t| t.is_default).collect();
    assert_eq!(defaults.len(), 1);
    assert_eq!(defaults[0].alias, "b");
}

#[test]
fn update_missing_alias_fails() {
    let cat = vec![record("a", "x/a", "", false)];
    let r = update_template(&cat, "zz", None, None, Some(true));
    assert_eq!(r.unwrap_err(), ActionError::AliasNotFound);
}

#[test]
fn get_template_copies_the_record() {
    let cat = vec![record("a", "x/a", "d", false)];
    same_record(&get_template(&cat, "a").unwrap(), "a", "x/a", "d", false);
    assert_eq!(get_template(&cat, "b").unwrap_err(), ActionError::AliasNotFound);
}

#[test]
fn seed_skips_existing_without_force() {
    let cat = vec![record("a", "x/a", "keep", false)];
    let (out, outcome) = seed_template(&cat, "a", "y/a", "new", true, false);
    assert_eq!(outcome, SeedOutcome::Skipped);
    same_record(&out[0], "a", "x/a", "keep", false);
}

#[test]
fn seed_overwrites_existing_with_force() {
    let cat = vec![record("a", "x/a", "old", false)];
    let (out, outcome) = seed_template(&cat, "a", "y/a", "new", true, true);
    assert_eq!(outcome, SeedOutcome::Updated);
    same_record(&out[0], "a", "y/a", "new", true);
}

#[test]
fn init_on_empty_catalog_adds_five() {
    let empty: Vec<TemplateInfo> = Vec::new();
    let (cat, added, updated) = init_templates(&empty, false);
    assert_eq!(added, 5);
    assert_eq!(updated, 0);
    assert_eq!(cat.len(), 5);
    same_record(
        get_default_template(&cat).unwrap(),
        "vue3-vite",
        "vuejs/create-vue",
        "Official Vue 3 + Vite starter",
        true,
    );
    assert!(find_by_alias(&cat, "vue-element").is_some());
}

#[test]
fn init_twice_without_force_skips_everything() {
    let empty: Vec<TemplateInfo> = Vec::new();
    let (cat, _, _) = init_templates(&empty, false);
    let (cat2, added, updated) = init_templates(&cat, false);
    assert_eq!(added, 0);
    assert_eq!(updated, 0);
    assert_eq!(cat2.len(), 5);
}

#[test]
fn init_with_force_overwrites_existing() {
    let cat = vec![record("vue2", "someone/else", "stale", true)];
    let (out, added, updated) = init_templates(&cat, true);
    assert_eq!(added, 4);
    assert_eq!(updated, 1);
    same_record(
        find_by_alias(&out, "vue2").unwrap(),
        "vue2",
        "vuejs/vue-cli",
        "Official Vue 2 CLI template",
        false,
    );
    // Seeding set vue3-vite as the only default.
    let defaults: Vec<&TemplateInfo> = out.iter().filter(|t| t.is_default).collect();
    assert_eq!(defaults.len(), 1);
    assert_eq!(defaults[0].alias, "vue3-vite");
}
