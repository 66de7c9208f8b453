//! Planning a clone: resolving the source reference, the target
//! directory, and the authenticated URL. The pipeline is pure; running
//! the clone subprocess is the caller's business.

use vstd::prelude::*;
use vstd::string::StrSliceExecFns;

use crate::catalog::{default_spec, find_spec};
use crate::error::ActionError;
use crate::registry::{find_by_alias, get_default_template};
use crate::template::TemplateInfo;
use crate::validate::{
    add_gh_auth, authed_url, check_name, check_name_spec, normalize_gh_url, normalize_spec,
    starts_https,
};

verus! {

/// How an optional borrowed string reads as an optional character
/// sequence.
pub open spec fn opt_view(o: Option<&str>) -> Option<Seq<char>> {
    match o {
        Some(s) => Some(s@),
        None => None,
    }
}

/// The repository reference a clone resolves to: a named template's
/// repository when the name is a known alias, the name itself otherwise;
/// with no name, the default template's repository, or nothing when no
/// default is set.
pub open spec fn resolve_source_spec(
    s: Seq<crate::template::TemplateView>,
    template: Option<Seq<char>>,
) -> Option<Seq<char>> {
    match template {
        Some(name) => match find_spec(s, name) {
            Some(t) => Some(t.repo),
            None => Some(name),
        },
        None => match default_spec(s) {
            Some(t) => Some(t.repo),
            None => None,
        },
    }
}

/// The characters after the last slash; the whole sequence when it has
/// no slash.
pub open spec fn last_segment(s: Seq<char>) -> Seq<char>
    decreases s.len(),
{
    if s.len() == 0 {
        s
    } else if s.last() == '/' {
        Seq::empty()
    } else {
        last_segment(s.drop_last()).push(s.last())
    }
}

/// The directory a clone lands in: the explicit target when given, else
/// the last path segment of the repository reference.
pub open spec fn target_dir_spec(repo: Seq<char>, target: Option<Seq<char>>) -> Seq<char> {
    match target {
        Some(t) => t,
        None => last_segment(repo),
    }
}

/// The characters of `s` after its last slash, as a new string.
fn last_segment_str(s: &str) -> (r: String)
    ensures
        r@ == last_segment(s@),
{
    let len = s.unicode_len();
    let mut start: usize = 0;
    for i in 0..len
        invariant
            len == s@.len(),
            start <= i,
            last_segment(s@.take(i as int)) == s@.subrange(start as int, i as int),
    {
        proof {
            assert(s@.take(i + 1).drop_last() =~= s@.take(i as int));
            assert(s@.take(i + 1).last() == s@[i as int]);
        }
        if s.get_char(i) == '/' {
            start = i + 1;
            proof {
                assert(last_segment(s@.take(i + 1)) =~= s@.subrange(i + 1, i + 1));
            }
        } else {
            proof {
                assert(last_segment(s@.take(i + 1)) =~= s@.subrange(start as int, i + 1));
            }
        }
    }
    proof {
        assert(s@.take(len as int) =~= s@);
    }
    s.substring_char(start, len).to_owned()
}

/// Resolves what a clone will fetch and where it will land: the
/// repository reference (from the named template, the literal name, or
/// the default template) and the validated target directory name.
pub fn resolve_clone_target(
    templates: &Vec<TemplateInfo>,
    template: Option<&str>,
    target: Option<&str>,
) -> (r: Result<(String, String), ActionError>)
    ensures
        ({
            let sv = templates.deep_view();
            match r {
                Ok(p) => {
                    &&& resolve_source_spec(sv, opt_view(template)) == Some(p.0@)
                    &&& p.1@ == target_dir_spec(p.0@, opt_view(target))
                    &&& check_name_spec(p.1@) is None
                },
                Err(e) => match resolve_source_spec(sv, opt_view(template)) {
                    Some(repo) => check_name_spec(target_dir_spec(repo, opt_view(target)))
                        == Some(e),
                    None => e == ActionError::NoDefaultTemplate,
                },
            }
        }),
{
    let repo: String = match template {
        Some(name) => match find_by_alias(templates, name) {
            Some(t) => t.repo.clone(),
            None => name.to_owned(),
        },
        None => match get_default_template(templates) {
            Some(t) => t.repo.clone(),
            None => {
                return Err(ActionError::NoDefaultTemplate);
            },
        },
    };
    let dir: String = match target {
        Some(t) => t.to_owned(),
        None => last_segment_str(repo.as_str()),
    };
    match check_name(dir.as_str()) {
        Ok(()) => Ok((repo, dir)),
        Err(e) => Err(e),
    }
}

/// The URL a clone passes to the version-control tool: the normalized
/// reference with the token, when one is given, injected after the
/// scheme.
pub open spec fn build_url_spec(repo: Seq<char>, token: Option<Seq<char>>) -> Result<
    Seq<char>,
    ActionError,
> {
    match normalize_spec(repo) {
        None => Err(ActionError::InvalidGithubUrl),
        Some(u) => match token {
            None => Ok(u),
            Some(t) => if !u.contains('@') && starts_https(u) {
                Ok(authed_url(u, t))
            } else {
                Err(ActionError::UrlHasCredentials)
            },
        },
    }
}

/// Normalizes the repository reference and injects the token, when one
/// is given.
pub fn build_clone_url(repo: &str, token: Option<&str>) -> (r: Result<String, ActionError>)
    ensures
        match r {
            Ok(u) => build_url_spec(repo@, opt_view(token)) == Ok::<Seq<char>, ActionError>(
                u@,
            ),
            Err(e) => build_url_spec(repo@, opt_view(token)) == Err::<Seq<char>, ActionError>(
                e,
            ),
        },
{
    match normalize_gh_url(repo) {
        Ok(u) => add_gh_auth(u.as_str(), token),
        Err(e) => Err(e),
    }
}

/// Everything a clone needs from the catalog: the URL to fetch and the
/// directory to create.
#[derive(Debug)]
pub struct ClonePlan {
    /// The URL handed to the version-control tool, token included when
    /// one was given.
    pub url: String,
    /// The validated name of the directory the clone lands in.
    pub target: String,
}

/// What planning a clone yields for given inputs: the URL and target
/// directory, or the first error in the pipeline — no default template,
/// a bad directory name, a bad repository reference, or a URL that
/// cannot take the token.
pub open spec fn plan_spec(
    s: Seq<crate::template::TemplateView>,
    template: Option<Seq<char>>,
    target: Option<Seq<char>>,
    token: Option<Seq<char>>,
) -> Result<(Seq<char>, Seq<char>), ActionError> {
    match resolve_source_spec(s, template) {
        None => Err(ActionError::NoDefaultTemplate),
        Some(repo) => {
            let dir = target_dir_spec(repo, target);
            match check_name_spec(dir) {
                Some(e) => Err(e),
                None => match build_url_spec(repo, token) {
                    Ok(u) => Ok((u, dir)),
                    Err(e) => Err(e),
                },
            }
        },
    }
}

/// Plans a clone end to end: resolves the source and the target
/// directory, validates the name, and builds the authenticated URL.
pub fn plan_clone(
    templates: &Vec<TemplateInfo>,
    template: Option<&str>,
    target: Option<&str>,
    token: Option<&str>,
) -> (r: Result<ClonePlan, ActionError>)
    ensures
        ({
            let sv = templates.deep_view();
            let spec_r = plan_spec(sv, opt_view(template), opt_view(target), opt_view(token));
            match r {
                Ok(p) => spec_r == Ok::<(Seq<char>, Seq<char>), ActionError>((p.url@, p.target@)),
                Err(e) => spec_r == Err::<(Seq<char>, Seq<char>), ActionError>(e),
            }
        }),
{
    match resolve_clone_target(templates, template, target) {
        Ok((repo, dir)) => match build_clone_url(repo.as_str(), token) {
            Ok(u) => Ok(ClonePlan { url: u, target: dir }),
            Err(e) => Err(e),
        },
        Err(e) => Err(e),
    }
}

} // verus!
