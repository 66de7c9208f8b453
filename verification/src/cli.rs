//! The command layer: the commands the tool accepts, and the dispatcher
//! that turns one command plus the loaded catalog into the new catalog
//! and an outcome. Argument parsing, prompts and printing stay with the
//! caller.

use vstd::prelude::*;

use crate::catalog::{add_spec, find_spec, has_alias, remove_spec, update_spec};
use crate::clone_plan::{opt_view, plan_clone, plan_spec, ClonePlan};
use crate::error::ActionError;
use crate::registry::{
    add_template, clone_catalog, find_by_alias, init_added_spec, init_catalog_spec,
    init_templates, init_updated_spec, opt_str_view, remove_template, update_template,
};
use crate::template::{TemplateInfo, TemplateView};

verus! {

/// Arguments of the show command.
pub struct ShowArgs {
    /// Whether to offer the interactive menu instead of the plain table.
    pub interactive: bool,
}

/// Arguments of the add command.
pub struct AddArgs {
    /// Alias of the new record.
    pub alias: String,
    /// Repository reference of the new record.
    pub repo: String,
    /// Description of the new record.
    pub description: String,
    /// Whether the new record becomes the default.
    pub default: bool,
}

/// Arguments of the remove command.
pub struct RemoveArgs {
    /// Alias of the record to remove.
    pub alias: String,
}

/// Arguments of the update command; omitted fields stay as they are.
pub struct UpdateArgs {
    /// Alias of the record to update.
    pub alias: String,
    /// New repository reference, when given.
    pub repo: Option<String>,
    /// New description, when given.
    pub description: Option<String>,
    /// New default flag, when given.
    pub default: Option<bool>,
}

/// Arguments of the get command.
pub struct GetArgs {
    /// Alias of the record to show.
    pub alias: String,
}

/// Arguments of the clone command.
pub struct CloneArgs {
    /// Template alias, or a raw repository reference; absent means the
    /// default template.
    pub template: Option<String>,
    /// Target directory; absent means the last path segment of the
    /// repository reference.
    pub target: Option<String>,
    /// Auth token to inject into the clone URL.
    pub token: Option<String>,
}

/// Arguments of the init command.
pub struct InitArgs {
    /// Whether built-in records overwrite existing ones with the same
    /// alias.
    pub force: bool,
}

/// Every command the tool accepts.
pub enum Commands {
    /// List the catalog.
    Show(ShowArgs),
    /// Add a record.
    Add(AddArgs),
    /// Remove a record.
    Remove(RemoveArgs),
    /// Update a record.
    Update(UpdateArgs),
    /// Show one record.
    Get(GetArgs),
    /// Clone a template into a directory.
    Clone(CloneArgs),
    /// Seed the catalog with the built-in records.
    Init(InitArgs),
}

/// What a dispatched command yields besides the catalog.
#[derive(Debug)]
pub enum RunOutcome {
    /// The catalog is to be displayed.
    Listed,
    /// A record was added.
    Added,
    /// A record was removed.
    Removed,
    /// A record was updated.
    Updated,
    /// The record to display.
    Fetched(TemplateInfo),
    /// The clone is resolved; the caller runs it.
    CloneReady(ClonePlan),
    /// The built-in records were seeded: how many were added and how
    /// many overwritten.
    Seeded(usize, usize),
}

/// An optional owned string borrowed as an optional string slice.
fn opt_as_str(o: &Option<String>) -> (r: Option<&str>)
    ensures
        opt_view(r) == opt_str_view(*o),
{
    match o {
        Some(s) => Some(s.as_str()),
        None => None,
    }
}

/// Dispatches one command against the loaded catalog. The catalog
/// handed back is the one to persist; lookups and clone planning hand it
/// back unchanged. Mutations and lookups follow the catalog model
/// exactly; a clone plan follows the planning pipeline exactly.
pub fn run(cmd: Commands, templates: &Vec<TemplateInfo>) -> (r: Result<
    (Vec<TemplateInfo>, RunOutcome),
    ActionError,
>)
    ensures
        ({
            let sv = templates.deep_view();
            match cmd {
                Commands::Show(_) => r matches Ok(p) && p.0.deep_view() == sv && p.1
                    matches RunOutcome::Listed,
                Commands::Add(a) => match r {
                    Ok(p) => {
                        let t = TemplateView {
                            alias: a.alias@,
                            repo: a.repo@,
                            description: a.description@,
                            is_default: a.default,
                        };
                        &&& !has_alias(sv, a.alias@)
                        &&& p.0.deep_view() == add_spec(sv, t)
                        &&& p.1 matches RunOutcome::Added
                    },
                    Err(e) => e == ActionError::AliasExists && has_alias(sv, a.alias@),
                },
                Commands::Remove(a) => match r {
                    Ok(p) => has_alias(sv, a.alias@) && p.0.deep_view() == remove_spec(
                        sv,
                        a.alias@,
                    ) && p.1 matches RunOutcome::Removed,
                    Err(e) => e == ActionError::AliasNotFound && !has_alias(sv, a.alias@),
                },
                Commands::Update(a) => match r {
                    Ok(p) => has_alias(sv, a.alias@) && p.0.deep_view() == update_spec(
                        sv,
                        a.alias@,
                        opt_str_view(a.repo),
                        opt_str_view(a.description),
                        a.default,
                    ) && p.1 matches RunOutcome::Updated,
                    Err(e) => e == ActionError::AliasNotFound && !has_alias(sv, a.alias@),
                },
                Commands::Get(a) => match r {
                    Ok(p) => p.0.deep_view() == sv && (p.1 matches RunOutcome::Fetched(t)
                        && find_spec(sv, a.alias@) == Some(t@)),
                    Err(e) => e == ActionError::AliasNotFound && find_spec(sv, a.alias@)
                        is None,
                },
                Commands::Clone(a) => {
                    let spec_r = plan_spec(
                        sv,
                        opt_str_view(a.template),
                        opt_str_view(a.target),
                        opt_str_view(a.token),
                    );
                    match r {
                        Ok(p) => p.0.deep_view() == sv && (p.1 matches RunOutcome::CloneReady(
                            pl,
                        ) && spec_r == Ok::<(Seq<char>, Seq<char>), ActionError>(
                            (pl.url@, pl.target@),
                        )),
                        Err(e) => spec_r == Err::<(Seq<char>, Seq<char>), ActionError>(e),
                    }
                },
                Commands::Init(a) => r matches Ok(p) && p.0.deep_view() == init_catalog_spec(
                    sv,
                    a.force,
                ) && (p.1 matches RunOutcome::Seeded(x, y) && x as int == init_added_spec(
                    sv,
                    a.force,
                ) && y as int == init_updated_spec(sv, a.force)),
            }
        }),
{
    match cmd {
        Commands::Show(_) => Ok((clone_catalog(templates), RunOutcome::Listed)),
        Commands::Add(a) => {
            let v = add_template(templates, a.alias, a.repo, a.description, a.default)?;
            Ok((v, RunOutcome::Added))
        },
        Commands::Remove(a) => {
            let v = remove_template(templates, a.alias.as_str())?;
            Ok((v, RunOutcome::Removed))
        },
        Commands::Update(a) => {
            let v = update_template(
                templates,
                a.alias.as_str(),
                a.repo,
                a.description,
                a.default,
            )?;
            Ok((v, RunOutcome::Updated))
        },
        Commands::Get(a) => match find_by_alias(templates, a.alias.as_str()) {
            Some(t) => {
                let record = t.clone();
                Ok((clone_catalog(templates), RunOutcome::Fetched(record)))
            },
            None => Err(ActionError::AliasNotFound),
        },
        Commands::Clone(a) => {
            let plan = plan_clone(
                templates,
                opt_as_str(&a.template),
                opt_as_str(&a.target),
                opt_as_str(&a.token),
            )?;
            Ok((clone_catalog(templates), RunOutcome::CloneReady(plan)))
        },
        Commands::Init(a) => {
            let (v, added, updated) = init_templates(templates, a.force);
            Ok((v, RunOutcome::Seeded(added, updated)))
        },
    }
}

} // verus!
