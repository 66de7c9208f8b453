//! The mathematical model of the catalog: a sequence of template views,
//! with the transition functions that every catalog operation is specified
//! against, and the lemmas that relate them.

use vstd::prelude::*;

use crate::template::TemplateView;

verus! {

/// Index of the first record whose alias is `alias`, if any.
pub open spec fn first_match(s: Seq<TemplateView>, alias: Seq<char>) -> Option<int>
    decreases s.len(),
{
    if s.len() == 0 {
        None
    } else if s[0].alias == alias {
        Some(0int)
    } else {
        match first_match(s.drop_first(), alias) {
            Some(i) => Some(i + 1),
            None => None,
        }
    }
}

/// Whether some record carries the alias.
pub open spec fn has_alias(s: Seq<TemplateView>, alias: Seq<char>) -> bool {
    first_match(s, alias) is Some
}

/// The first record whose alias is `alias`, if any.
pub open spec fn find_spec(s: Seq<TemplateView>, alias: Seq<char>) -> Option<TemplateView> {
    match first_match(s, alias) {
        Some(i) => Some(s[i]),
        None => None,
    }
}

/// Index of the first record flagged as default, if any.
pub open spec fn first_default(s: Seq<TemplateView>) -> Option<int>
    decreases s.len(),
{
    if s.len() == 0 {
        None
    } else if s[0].is_default {
        Some(0int)
    } else {
        match first_default(s.drop_first()) {
            Some(i) => Some(i + 1),
            None => None,
        }
    }
}

/// The first record flagged as default, if any.
pub open spec fn default_spec(s: Seq<TemplateView>) -> Option<TemplateView> {
    match first_default(s) {
        Some(i) => Some(s[i]),
        None => None,
    }
}

/// The record with its default flag withdrawn.
pub open spec fn cleared(t: TemplateView) -> TemplateView {
    TemplateView { is_default: false, ..t }
}

/// The catalog with every default flag withdrawn.
pub open spec fn clear_defaults(s: Seq<TemplateView>) -> Seq<TemplateView> {
    s.map_values(|t: TemplateView| cleared(t))
}

/// How many records are flagged as default.
pub open spec fn num_defaults(s: Seq<TemplateView>) -> int
    decreases s.len(),
{
    if s.len() == 0 {
        0
    } else {
        num_defaults(s.drop_last()) + (if s.last().is_default {
            1int
        } else {
            0int
        })
    }
}

/// The catalog invariant: at most one record is flagged as default.
pub open spec fn at_most_one_default(s: Seq<TemplateView>) -> bool {
    num_defaults(s) <= 1
}

/// Adding a record: if it is to be the default, all other flags are
/// withdrawn in the same step; the record goes to the end.
pub open spec fn add_spec(s: Seq<TemplateView>, t: TemplateView) -> Seq<TemplateView> {
    (if t.is_default {
        clear_defaults(s)
    } else {
        s
    }).push(t)
}

/// Removing an alias keeps every record whose alias differs, in order.
pub open spec fn remove_spec(s: Seq<TemplateView>, alias: Seq<char>) -> Seq<TemplateView>
    decreases s.len(),
{
    if s.len() == 0 {
        s
    } else {
        let rest = remove_spec(s.drop_last(), alias);
        if s.last().alias == alias {
            rest
        } else {
            rest.push(s.last())
        }
    }
}

/// A record with the provided fields overwritten; omitted fields keep
/// their value.
pub open spec fn apply_update(
    t: TemplateView,
    repo: Option<Seq<char>>,
    description: Option<Seq<char>>,
    is_default: Option<bool>,
) -> TemplateView {
    TemplateView {
        alias: t.alias,
        repo: match repo {
            Some(r) => r,
            None => t.repo,
        },
        description: match description {
            Some(d) => d,
            None => t.description,
        },
        is_default: match is_default {
            Some(b) => b,
            None => t.is_default,
        },
    }
}

/// Updating an alias: when the record is to become the default, every
/// flag is withdrawn before the overwrite; an absent alias changes
/// nothing.
pub open spec fn update_spec(
    s: Seq<TemplateView>,
    alias: Seq<char>,
    repo: Option<Seq<char>>,
    description: Option<Seq<char>>,
    is_default: Option<bool>,
) -> Seq<TemplateView> {
    match first_match(s, alias) {
        Some(i) => {
            let base = if is_default == Some(true) {
                clear_defaults(s)
            } else {
                s
            };
            base.update(i, apply_update(base[i], repo, description, is_default))
        },
        None => s,
    }
}

/// Seeding one record: absent aliases are added; present ones are
/// overwritten only under `force`.
pub open spec fn seed_spec(s: Seq<TemplateView>, t: TemplateView, force: bool) -> Seq<
    TemplateView,
> {
    if !has_alias(s, t.alias) {
        add_spec(s, t)
    } else if force {
        update_spec(s, t.alias, Some(t.repo), Some(t.description), Some(t.is_default))
    } else {
        s
    }
}

/// What became of one seeded record.
#[derive(Debug, Clone, Copy, PartialEq, Eq, Structural)]
pub enum SeedOutcome {
    /// The alias was absent and the record was appended.
    Added,
    /// The alias was present and the record was overwritten.
    Updated,
    /// The alias was present and left alone.
    Skipped,
}

/// Which of the three outcomes seeding one record has.
pub open spec fn seed_outcome_spec(s: Seq<TemplateView>, alias: Seq<char>, force: bool) -> SeedOutcome {
    if !has_alias(s, alias) {
        SeedOutcome::Added
    } else if force {
        SeedOutcome::Updated
    } else {
        SeedOutcome::Skipped
    }
}

/// `first_match` points at a record with the alias, and at the first one.
pub proof fn lemma_first_match_props(s: Seq<TemplateView>, alias: Seq<char>)
    ensures
        match first_match(s, alias) {
            Some(i) => 0 <= i < s.len() && s[i].alias == alias && (forall|j: int|
                0 <= j < i ==> s[j].alias != alias),
            None => forall|j: int| 0 <= j < s.len() ==> s[j].alias != alias,
        },
    decreases s.len(),
{
    if s.len() > 0 && s[0].alias != alias {
        lemma_first_match_props(s.drop_first(), alias);
        match first_match(s.drop_first(), alias) {
            Some(i) => {
                assert(s.drop_first()[i] == s[i + 1]);
                assert(forall|j: int| 1 <= j < i + 1 ==> s[j] == s.drop_first()[j - 1]);
            },
            None => {
                assert(forall|j: int| 1 <= j < s.len() ==> s[j] == s.drop_first()[j - 1]);
            },
        }
    }
}

/// A record with the alias at `i`, none before it: `first_match` is `i`.
pub proof fn lemma_first_match_at(s: Seq<TemplateView>, alias: Seq<char>, i: int)
    requires
        0 <= i < s.len(),
        s[i].alias == alias,
        forall|j: int| 0 <= j < i ==> s[j].alias != alias,
    ensures
        first_match(s, alias) == Some(i),
    decreases s.len(),
{
    if i > 0 {
        assert(forall|j: int| 0 <= j < i - 1 ==> s.drop_first()[j] == s[j + 1]);
        assert(s.drop_first()[i - 1] == s[i]);
        lemma_first_match_at(s.drop_first(), alias, i - 1);
    }
}

/// No record has the alias: `first_match` is `None`.
pub proof fn lemma_first_match_none(s: Seq<TemplateView>, alias: Seq<char>)
    requires
        forall|j: int| 0 <= j < s.len() ==> s[j].alias != alias,
    ensures
        first_match(s, alias) is None,
{
    lemma_first_match_props(s, alias);
    if let Some(i) = first_match(s, alias) {
        assert(s[i].alias == alias);
    }
}

/// `first_default` points at a flagged record, and at the first one.
pub proof fn lemma_first_default_props(s: Seq<TemplateView>)
    ensures
        match first_default(s) {
            Some(i) => 0 <= i < s.len() && s[i].is_default && (forall|j: int|
                0 <= j < i ==> !s[j].is_default),
            None => forall|j: int| 0 <= j < s.len() ==> !s[j].is_default,
        },
    decreases s.len(),
{
    if s.len() > 0 && !s[0].is_default {
        lemma_first_default_props(s.drop_first());
        match first_default(s.drop_first()) {
            Some(i) => {
                assert(s.drop_first()[i] == s[i + 1]);
                assert(forall|j: int| 1 <= j < i + 1 ==> s[j] == s.drop_first()[j - 1]);
            },
            None => {
                assert(forall|j: int| 1 <= j < s.len() ==> s[j] == s.drop_first()[j - 1]);
            },
        }
    }
}

/// A flagged record at `i`, none before it: `first_default` is `i`.
pub proof fn lemma_first_default_at(s: Seq<TemplateView>, i: int)
    requires
        0 <= i < s.len(),
        s[i].is_default,
        forall|j: int| 0 <= j < i ==> !s[j].is_default,
    ensures
        first_default(s) == Some(i),
    decreases s.len(),
{
    if i > 0 {
        assert(forall|j: int| 0 <= j < i - 1 ==> s.drop_first()[j] == s[j + 1]);
        assert(s.drop_first()[i - 1] == s[i]);
        lemma_first_default_at(s.drop_first(), i - 1);
    }
}

/// No record is flagged: `first_default` is `None`.
pub proof fn lemma_first_default_none(s: Seq<TemplateView>)
    requires
        forall|j: int| 0 <= j < s.len() ==> !s[j].is_default,
    ensures
        first_default(s) is None,
{
    lemma_first_default_props(s);
    if let Some(i) = first_default(s) {
        assert(s[i].is_default);
    }
}

/// Withdrawing every flag leaves no default.
pub proof fn lemma_clear_defaults_none(s: Seq<TemplateView>)
    ensures
        num_defaults(clear_defaults(s)) == 0,
    decreases s.len(),
{
    if s.len() > 0 {
        lemma_clear_defaults_none(s.drop_last());
        assert(clear_defaults(s).drop_last() =~= clear_defaults(s.drop_last()));
        assert(clear_defaults(s).last() == cleared(s.last()));
    }
}

/// Appending one record raises the default count by its flag.
pub proof fn lemma_num_defaults_push(s: Seq<TemplateView>, t: TemplateView)
    ensures
        num_defaults(s.push(t)) == num_defaults(s) + (if t.is_default {
            1int
        } else {
            0int
        }),
{
    assert(s.push(t).drop_last() =~= s);
    assert(s.push(t).last() == t);
}

/// Overwriting one record moves the default count by the two flags.
pub proof fn lemma_num_defaults_update(s: Seq<TemplateView>, i: int, t: TemplateView)
    requires
        0 <= i < s.len(),
    ensures
        num_defaults(s.update(i, t)) == num_defaults(s) - (if s[i].is_default {
            1int
        } else {
            0int
        }) + (if t.is_default {
            1int
        } else {
            0int
        }),
    decreases s.len(),
{
    if i == s.len() - 1 {
        assert(s.update(i, t).drop_last() =~= s.drop_last());
        assert(s.update(i, t).last() == t);
    } else {
        lemma_num_defaults_update(s.drop_last(), i, t);
        assert(s.update(i, t).drop_last() =~= s.drop_last().update(i, t));
        assert(s.update(i, t).last() == s.last());
    }
}

/// The default count never goes below zero.
pub proof fn lemma_num_defaults_nonneg(s: Seq<TemplateView>)
    ensures
        num_defaults(s) >= 0,
    decreases s.len(),
{
    if s.len() > 0 {
        lemma_num_defaults_nonneg(s.drop_last());
    }
}

/// Removing records never raises the default count.
pub proof fn lemma_remove_num_defaults(s: Seq<TemplateView>, alias: Seq<char>)
    ensures
        num_defaults(remove_spec(s, alias)) <= num_defaults(s),
        num_defaults(remove_spec(s, alias)) >= 0,
    decreases s.len(),
{
    if s.len() == 0 {
    } else {
        lemma_remove_num_defaults(s.drop_last(), alias);
        if s.last().alias == alias {
            if s.last().is_default {
            }
        } else {
            lemma_num_defaults_push(remove_spec(s.drop_last(), alias), s.last());
        }
    }
}

/// Every record that removal keeps has a different alias.
pub proof fn lemma_remove_no_match(s: Seq<TemplateView>, alias: Seq<char>)
    ensures
        forall|j: int|
            0 <= j < remove_spec(s, alias).len() ==> remove_spec(s, alias)[j].alias != alias,
    decreases s.len(),
{
    if s.len() > 0 {
        lemma_remove_no_match(s.drop_last(), alias);
        if s.last().alias != alias {
            let rest = remove_spec(s.drop_last(), alias);
            assert(forall|j: int|
                0 <= j < rest.len() ==> rest.push(s.last())[j] == rest[j]);
        }
    }
}

/// A record just added is found again under its alias, unchanged.
///
/// For any catalog without the alias, looking the alias up right after
/// `add_spec` yields exactly the record that was added.
pub proof fn lemma_add_then_find(s: Seq<TemplateView>, t: TemplateView)
    requires
        !has_alias(s, t.alias),
    ensures
        find_spec(add_spec(s, t), t.alias) == Some(t),
{
    let base = if t.is_default {
        clear_defaults(s)
    } else {
        s
    };
    lemma_first_match_props(s, t.alias);
    assert(forall|j: int| 0 <= j < base.len() ==> base[j].alias == s[j].alias);
    let added = base.push(t);
    assert(forall|j: int| 0 <= j < base.len() ==> added[j] == base[j]);
    assert(added[base.len() as int] == t);
    lemma_first_match_at(added, t.alias, base.len() as int);
}

/// An alias just removed is no longer found.
///
/// For any catalog, looking an alias up right after `remove_spec` of that
/// alias yields nothing.
pub proof fn lemma_remove_then_find(s: Seq<TemplateView>, alias: Seq<char>)
    ensures
        find_spec(remove_spec(s, alias), alias) is None,
{
    lemma_remove_no_match(s, alias);
    lemma_first_match_none(remove_spec(s, alias), alias);
}

} // verus!
