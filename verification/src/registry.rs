//! The catalog operations: lookups and the read-modify transitions that
//! the commands perform. Each is specified against the model in
//! [`crate::catalog`].

use vstd::prelude::*;

use crate::catalog::{
    add_spec, apply_update, at_most_one_default, clear_defaults, cleared, default_spec,
    find_spec, has_alias, lemma_clear_defaults_none, lemma_first_default_at,
    lemma_first_default_none, lemma_first_match_at, lemma_first_match_none,
    lemma_first_match_props, lemma_num_defaults_nonneg, lemma_num_defaults_push,
    lemma_num_defaults_update, lemma_remove_num_defaults, num_defaults, remove_spec, update_spec,
};
use crate::catalog::{seed_outcome_spec, seed_spec, SeedOutcome};
use crate::error::ActionError;
use crate::template::{TemplateInfo, TemplateView};
use crate::text::str_eq;
use vstd::pervasive::unreached;

verus! {

/// The first record with the alias: an exact string match, scanned in
/// catalog order.
pub fn find_by_alias<'a>(templates: &'a Vec<TemplateInfo>, alias: &str) -> (r: Option<
    &'a TemplateInfo,
>)
    ensures
        match r {
            Some(t) => find_spec(templates.deep_view(), alias@) == Some(t@),
            None => find_spec(templates.deep_view(), alias@) is None,
        },
{
    let ghost s = templates.deep_view();
    let n = templates.len();
    for i in 0..n
        invariant
            n == templates.len(),
            s == templates.deep_view(),
            forall|j: int| 0 <= j < i ==> s[j].alias != alias@,
    {
        assert(s[i as int] == templates[i as int]@);
        if str_eq(templates[i].alias.as_str(), alias) {
            proof {
                lemma_first_match_at(s, alias@, i as int);
            }
            return Some(&templates[i]);
        }
    }
    proof {
        lemma_first_match_none(s, alias@);
    }
    None
}

/// The first record flagged as default, scanned in catalog order.
pub fn get_default_template<'a>(templates: &'a Vec<TemplateInfo>) -> (r: Option<
    &'a TemplateInfo,
>)
    ensures
        match r {
            Some(t) => default_spec(templates.deep_view()) == Some(t@),
            None => default_spec(templates.deep_view()) is None,
        },
{
    let ghost s = templates.deep_view();
    let n = templates.len();
    for i in 0..n
        invariant
            n == templates.len(),
            s == templates.deep_view(),
            forall|j: int| 0 <= j < i ==> !s[j].is_default,
    {
        assert(s[i as int] == templates[i as int]@);
        if templates[i].is_default {
            proof {
                lemma_first_default_at(s, i as int);
            }
            return Some(&templates[i]);
        }
    }
    proof {
        lemma_first_default_none(s);
    }
    None
}

/// Adding a record. Fails, leaving the catalog alone, when the alias is
/// already present; otherwise, when the record is to be the default, the
/// flag is withdrawn from every other record in the same step, and the
/// record goes to the end. After an add that sets the default, exactly one
/// record is the default.
pub fn add_template(
    templates: &Vec<TemplateInfo>,
    alias: String,
    repo: String,
    description: String,
    is_default: bool,
) -> (r: Result<Vec<TemplateInfo>, ActionError>)
    ensures
        match r {
            Ok(new) => {
                let t = TemplateView { alias: alias@, repo: repo@, description: description@, is_default };
                &&& !has_alias(templates.deep_view(), alias@)
                &&& new.deep_view() == add_spec(templates.deep_view(), t)
                &&& num_defaults(new.deep_view()) == (if is_default {
                    1int
                } else {
                    num_defaults(templates.deep_view())
                })
            },
            Err(e) => e == ActionError::AliasExists && has_alias(templates.deep_view(), alias@),
        },
{
    let ghost s = templates.deep_view();
    if find_by_alias(templates, alias.as_str()).is_some() {
        return Err(ActionError::AliasExists);
    }
    let ghost base = if is_default {
        clear_defaults(s)
    } else {
        s
    };
    let mut out: Vec<TemplateInfo> = Vec::new();
    let n = templates.len();
    for i in 0..n
        invariant
            n == templates.len(),
            s == templates.deep_view(),
            base == (if is_default {
                clear_defaults(s)
            } else {
                s
            }),
            out.len() == i,
            forall|j: int| 0 <= j < i ==> out.deep_view()[j] == base[j],
    {
        assert(s[i as int] == templates[i as int]@);
        let t = &templates[i];
        let flag = if is_default {
            false
        } else {
            t.is_default
        };
        proof {
            if is_default {
                assert(base[i as int] == cleared(s[i as int]));
            }
        }
        out.push(
            TemplateInfo {
                alias: t.alias.clone(),
                repo: t.repo.clone(),
                description: t.description.clone(),
                is_default: flag,
            },
        );
    }
    proof {
        assert(out.deep_view() =~= base);
    }
    out.push(TemplateInfo { alias, repo, description, is_default });
    proof {
        let t = TemplateView { alias: alias@, repo: repo@, description: description@, is_default };
        assert(out.deep_view() =~= base.push(t));
        lemma_num_defaults_push(base, t);
        if is_default {
            lemma_clear_defaults_none(s);
        }
    }
    Ok(out)
}

/// Removing an alias. Every record with a different alias stays, in
/// order. Fails, leaving the catalog alone, when no record matched.
/// Removal never raises the number of default records.
pub fn remove_template(templates: &Vec<TemplateInfo>, alias: &str) -> (r: Result<
    Vec<TemplateInfo>,
    ActionError,
>)
    ensures
        match r {
            Ok(new) => {
                &&& has_alias(templates.deep_view(), alias@)
                &&& new.deep_view() == remove_spec(templates.deep_view(), alias@)
                &&& num_defaults(new.deep_view()) <= num_defaults(templates.deep_view())
                &&& num_defaults(new.deep_view()) >= 0
            },
            Err(e) => e == ActionError::AliasNotFound && !has_alias(
                templates.deep_view(),
                alias@,
            ),
        },
{
    let ghost s = templates.deep_view();
    let mut out: Vec<TemplateInfo> = Vec::new();
    let mut found = false;
    let n = templates.len();
    for i in 0..n
        invariant
            n == templates.len(),
            s == templates.deep_view(),
            out.deep_view() == remove_spec(s.take(i as int), alias@),
            found == exists|j: int| 0 <= j < i && s[j].alias == alias@,
    {
        assert(s[i as int] == templates[i as int]@);
        proof {
            assert(s.take(i + 1).drop_last() =~= s.take(i as int));
            assert(s.take(i + 1).last() == s[i as int]);
        }
        let t = &templates[i];
        if str_eq(t.alias.as_str(), alias) {
            found = true;
            assert(s[i as int].alias == alias@);
        } else {
            out.push(t.clone());
            proof {
                assert(out.deep_view() =~= remove_spec(s.take(i as int), alias@).push(
                    s[i as int],
                ));
            }
        }
    }
    proof {
        assert(s.take(n as int) =~= s);
        lemma_first_match_props(s, alias@);
        lemma_remove_num_defaults(s, alias@);
    }
    if found {
        Ok(out)
    } else {
        Err(ActionError::AliasNotFound)
    }
}

/// How an optional owned string reads as an optional character sequence.
pub open spec fn opt_str_view(o: Option<String>) -> Option<Seq<char>> {
    match o {
        Some(s) => Some(s@),
        None => None,
    }
}

/// Updating an alias: only the provided fields overwrite the record.
/// When the record is to become the default, the flag is withdrawn from
/// every record before the overwrite, so that exactly one record is the
/// default afterwards. Fails, leaving the catalog alone, when no record
/// matched. With every field omitted the catalog comes back unchanged.
pub fn update_template(
    templates: &Vec<TemplateInfo>,
    alias: &str,
    repo: Option<String>,
    description: Option<String>,
    is_default: Option<bool>,
) -> (r: Result<Vec<TemplateInfo>, ActionError>)
    ensures
        match r {
            Ok(new) => {
                &&& has_alias(templates.deep_view(), alias@)
                &&& new.deep_view() == update_spec(
                    templates.deep_view(),
                    alias@,
                    opt_str_view(repo),
                    opt_str_view(description),
                    is_default,
                )
                &&& (is_default == Some(true) ==> num_defaults(new.deep_view()) == 1)
                &&& (repo is None && description is None && is_default is None
                    ==> new.deep_view() == templates.deep_view())
                &&& (at_most_one_default(templates.deep_view()) ==> at_most_one_default(
                    new.deep_view(),
                ))
            },
            Err(e) => e == ActionError::AliasNotFound && !has_alias(
                templates.deep_view(),
                alias@,
            ),
        },
{
    let ghost s = templates.deep_view();
    let n = templates.len();

    // Locate the first record with the alias.
    let mut idx = n;
    for i in 0..n
        invariant
            n == templates.len(),
            s == templates.deep_view(),
            idx <= n,
            idx == n ==> forall|j: int| 0 <= j < i ==> s[j].alias != alias@,
            idx < n ==> idx < i && s[idx as int].alias == alias@ && (forall|j: int|
                0 <= j < idx ==> s[j].alias != alias@),
    {
        assert(s[i as int] == templates[i as int]@);
        if idx == n && str_eq(templates[i].alias.as_str(), alias) {
            idx = i;
        }
    }
    if idx == n {
        proof {
            lemma_first_match_none(s, alias@);
        }
        return Err(ActionError::AliasNotFound);
    }
    proof {
        lemma_first_match_at(s, alias@, idx as int);
    }

    let set_default = match is_default {
        Some(true) => true,
        _ => false,
    };
    let ghost base = if set_default {
        clear_defaults(s)
    } else {
        s
    };
    let ghost rv = opt_str_view(repo);
    let ghost dv = opt_str_view(description);
    let ghost target = apply_update(base[idx as int], rv, dv, is_default);
    let ghost final_s = base.update(idx as int, target);

    let mut out: Vec<TemplateInfo> = Vec::new();
    for i in 0..n
        invariant
            n == templates.len(),
            s == templates.deep_view(),
            idx < n,
            set_default == (is_default == Some(true)),
            base == (if set_default {
                clear_defaults(s)
            } else {
                s
            }),
            rv == opt_str_view(repo),
            dv == opt_str_view(description),
            target == apply_update(base[idx as int], rv, dv, is_default),
            final_s == base.update(idx as int, target),
            final_s.len() == n,
            out.len() == i,
            forall|j: int| 0 <= j < i ==> out.deep_view()[j] == final_s[j],
    {
        assert(s[i as int] == templates[i as int]@);
        proof {
            if set_default {
                assert(base[i as int] == cleared(s[i as int]));
            }
        }
        let t = &templates[i];
        if i == idx {
            let new_t = TemplateInfo {
                alias: t.alias.clone(),
                repo: match &repo {
                    Some(r) => r.clone(),
                    None => t.repo.clone(),
                },
                description: match &description {
                    Some(d) => d.clone(),
                    None => t.description.clone(),
                },
                is_default: match is_default {
                    Some(b) => b,
                    None => t.is_default,
                },
            };
            proof {
                assert(final_s[i as int] == target);
                assert(new_t@.alias == target.alias);
                assert(new_t@.repo == target.repo);
                assert(new_t@.description == target.description);
                assert(new_t@.is_default == target.is_default);
                assert(new_t@ =~= target);
            }
            out.push(new_t);
        } else {
            let flag = if set_default {
                false
            } else {
                t.is_default
            };
            let new_t = TemplateInfo {
                alias: t.alias.clone(),
                repo: t.repo.clone(),
                description: t.description.clone(),
                is_default: flag,
            };
            proof {
                assert(final_s[i as int] == base[i as int]);
                assert(new_t@ == base[i as int]);
            }
            out.push(new_t);
        }
    }
    proof {
        assert(out.deep_view() =~= final_s);
        lemma_num_defaults_update(base, idx as int, target);
        if set_default {
            lemma_clear_defaults_none(s);
            assert(base[idx as int] == cleared(s[idx as int]));
        }
        if rv is None && dv is None && is_default is None {
            assert(target =~= s[idx as int]);
            assert(final_s =~= s);
        }
        lemma_num_defaults_nonneg(final_s);
    }
    Ok(out)
}

/// The record with the alias, as an owned copy for display. Fails when
/// no record matches.
pub fn get_template(templates: &Vec<TemplateInfo>, alias: &str) -> (r: Result<
    TemplateInfo,
    ActionError,
>)
    ensures
        match r {
            Ok(t) => find_spec(templates.deep_view(), alias@) == Some(t@),
            Err(e) => e == ActionError::AliasNotFound && find_spec(
                templates.deep_view(),
                alias@,
            ) is None,
        },
{
    match find_by_alias(templates, alias) {
        Some(t) => Ok(t.clone()),
        None => Err(ActionError::AliasNotFound),
    }
}

/// A copy of the catalog with every record's value kept.
pub fn clone_catalog(templates: &Vec<TemplateInfo>) -> (r: Vec<TemplateInfo>)
    ensures
        r.deep_view() == templates.deep_view(),
{
    let ghost s = templates.deep_view();
    let mut out: Vec<TemplateInfo> = Vec::new();
    let n = templates.len();
    for i in 0..n
        invariant
            n == templates.len(),
            s == templates.deep_view(),
            out.len() == i,
            forall|j: int| 0 <= j < i ==> out.deep_view()[j] == s[j],
    {
        assert(s[i as int] == templates[i as int]@);
        out.push(templates[i].clone());
    }
    proof {
        assert(out.deep_view() =~= s);
    }
    out
}

/// Seeding one record: an absent alias is added; a present one is
/// overwritten only under `force`, and otherwise left alone. An overwrite
/// or an add that sets the default leaves exactly one default record.
pub fn seed_template(
    templates: &Vec<TemplateInfo>,
    alias: &str,
    repo: &str,
    description: &str,
    is_default: bool,
    force: bool,
) -> (r: (Vec<TemplateInfo>, SeedOutcome))
    ensures
        ({
            let s = templates.deep_view();
            let t = TemplateView { alias: alias@, repo: repo@, description: description@, is_default };
            &&& r.0.deep_view() == seed_spec(s, t, force)
            &&& r.1 == seed_outcome_spec(s, alias@, force)
            &&& (is_default && r.1 != SeedOutcome::Skipped ==> num_defaults(r.0.deep_view())
                == 1)
            &&& (at_most_one_default(s) ==> at_most_one_default(r.0.deep_view()))
        }),
{
    let ghost s = templates.deep_view();
    proof {
        lemma_num_defaults_nonneg(s);
    }
    if find_by_alias(templates, alias).is_some() {
        if force {
            match update_template(
                templates,
                alias,
                Some(repo.to_owned()),
                Some(description.to_owned()),
                Some(is_default),
            ) {
                Ok(v) => (v, SeedOutcome::Updated),
                Err(_) => unreached(),
            }
        } else {
            (clone_catalog(templates), SeedOutcome::Skipped)
        }
    } else {
        match add_template(
            templates,
            alias.to_owned(),
            repo.to_owned(),
            description.to_owned(),
            is_default,
        ) {
            Ok(v) => (v, SeedOutcome::Added),
            Err(_) => unreached(),
        }
    }
}

/// The built-in records that `init_templates` seeds, in seeding order.
pub open spec fn seed_entries() -> Seq<TemplateView> {
    seq![
        TemplateView {
            alias: "vue3-vite"@,
            repo: "vuejs/create-vue"@,
            description: "Official Vue 3 + Vite starter"@,
            is_default: true,
        },
        TemplateView {
            alias: "vue2"@,
            repo: "vuejs/vue-cli"@,
            description: "Official Vue 2 CLI template"@,
            is_default: false,
        },
        TemplateView {
            alias: "nuxt3"@,
            repo: "nuxt/starter"@,
            description: "Nuxt 3 starter template"@,
            is_default: false,
        },
        TemplateView {
            alias: "vue3-ts"@,
            repo: "vuejs-templates/webpack-simple"@,
            description: "Vue 3 + TypeScript template"@,
            is_default: false,
        },
        TemplateView {
            alias: "vue-element"@,
            repo: "PanJiaChen/vue-element-admin"@,
            description: "Admin dashboard template built on Element UI"@,
            is_default: false,
        },
    ]
}

/// The catalog after the built-in records are seeded, in order.
pub open spec fn init_catalog_spec(s: Seq<TemplateView>, force: bool) -> Seq<TemplateView> {
    let e = seed_entries();
    let s1 = seed_spec(s, e[0], force);
    let s2 = seed_spec(s1, e[1], force);
    let s3 = seed_spec(s2, e[2], force);
    let s4 = seed_spec(s3, e[3], force);
    seed_spec(s4, e[4], force)
}

/// The outcome of each of the five seeding steps, in order.
pub open spec fn init_outcomes_spec(s: Seq<TemplateView>, force: bool) -> (
    SeedOutcome,
    SeedOutcome,
    SeedOutcome,
    SeedOutcome,
    SeedOutcome,
) {
    let e = seed_entries();
    let s1 = seed_spec(s, e[0], force);
    let s2 = seed_spec(s1, e[1], force);
    let s3 = seed_spec(s2, e[2], force);
    let s4 = seed_spec(s3, e[3], force);
    (
        seed_outcome_spec(s, e[0].alias, force),
        seed_outcome_spec(s1, e[1].alias, force),
        seed_outcome_spec(s2, e[2].alias, force),
        seed_outcome_spec(s3, e[3].alias, force),
        seed_outcome_spec(s4, e[4].alias, force),
    )
}

/// How many of the built-in records seeding adds.
pub open spec fn init_added_spec(s: Seq<TemplateView>, force: bool) -> int {
    let o = init_outcomes_spec(s, force);
    count_outcome(SeedOutcome::Added, o.0, o.1, o.2, o.3, o.4)
}

/// How many of the built-in records seeding overwrites.
pub open spec fn init_updated_spec(s: Seq<TemplateView>, force: bool) -> int {
    let o = init_outcomes_spec(s, force);
    count_outcome(SeedOutcome::Updated, o.0, o.1, o.2, o.3, o.4)
}

/// Seeding the catalog with the built-in records, in order. `force`
/// overwrites records whose alias is already present; without it they are
/// left alone. Returns the new catalog and how many records were added
/// and overwritten.
pub fn init_templates(templates: &Vec<TemplateInfo>, force: bool) -> (r: (
    Vec<TemplateInfo>,
    usize,
    usize,
))
    ensures
        r.0.deep_view() == init_catalog_spec(templates.deep_view(), force),
        r.1 as int == init_added_spec(templates.deep_view(), force),
        r.2 as int == init_updated_spec(templates.deep_view(), force),
        at_most_one_default(templates.deep_view()) ==> at_most_one_default(r.0.deep_view()),
{
    let (v1, o1) = seed_template(
        templates,
        "vue3-vite",
        "vuejs/create-vue",
        "Official Vue 3 + Vite starter",
        true,
        force,
    );
    let (v2, o2) = seed_template(
        &v1,
        "vue2",
        "vuejs/vue-cli",
        "Official Vue 2 CLI template",
        false,
        force,
    );
    let (v3, o3) = seed_template(
        &v2,
        "nuxt3",
        "nuxt/starter",
        "Nuxt 3 starter template",
        false,
        force,
    );
    let (v4, o4) = seed_template(
        &v3,
        "vue3-ts",
        "vuejs-templates/webpack-simple",
        "Vue 3 + TypeScript template",
        false,
        force,
    );
    let (v5, o5) = seed_template(
        &v4,
        "vue-element",
        "PanJiaChen/vue-element-admin",
        "Admin dashboard template built on Element UI",
        false,
        force,
    );
    let mut added: usize = 0;
    let mut updated: usize = 0;
    count_step(&mut added, &mut updated, o1);
    count_step(&mut added, &mut updated, o2);
    count_step(&mut added, &mut updated, o3);
    count_step(&mut added, &mut updated, o4);
    count_step(&mut added, &mut updated, o5);
    (v5, added, updated)
}

/// How many of the five outcomes are `which`.
pub open spec fn count_outcome(
    which: SeedOutcome,
    o1: SeedOutcome,
    o2: SeedOutcome,
    o3: SeedOutcome,
    o4: SeedOutcome,
    o5: SeedOutcome,
) -> int {
    (if o1 == which {
        1int
    } else {
        0int
    }) + (if o2 == which {
        1int
    } else {
        0int
    }) + (if o3 == which {
        1int
    } else {
        0int
    }) + (if o4 == which {
        1int
    } else {
        0int
    }) + (if o5 == which {
        1int
    } else {
        0int
    })
}

/// Counts one seeding outcome into the add and overwrite tallies.
fn count_step(added: &mut usize, updated: &mut usize, o: SeedOutcome)
    requires
        *old(added) < 8,
        *old(updated) < 8,
    ensures
        *final(added) as int == *old(added) + (if o == SeedOutcome::Added {
            1int
        } else {
            0int
        }),
        *final(updated) as int == *old(updated) + (if o == SeedOutcome::Updated {
            1int
        } else {
            0int
        }),
{
    match o {
        SeedOutcome::Added => {
            *added = *added + 1;
        },
        SeedOutcome::Updated => {
            *updated = *updated + 1;
        },
        SeedOutcome::Skipped => {},
    }
}

} // verus!
