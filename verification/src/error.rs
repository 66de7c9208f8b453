//! The errors that catalog operations and the validators report.

use vstd::prelude::*;

verus! {

/// Every failure a library operation can report. Each variant corresponds
/// to one user-visible reason; `message` renders it.
#[derive(Debug, Clone, Copy, PartialEq, Eq, Structural)]
pub enum ActionError {
    /// A target directory name was empty.
    EmptyName,
    /// A target directory name was longer than the allowed maximum.
    NameTooLong,
    /// A target directory name held a reserved filesystem character.
    NameHasInvalidChar,
    /// A target directory name was a reserved device name.
    NameReserved,
    /// A repository reference was neither `owner/name` shorthand nor a
    /// `github.com` URL.
    InvalidGithubUrl,
    /// An auth token was supplied but the URL could not take one.
    UrlHasCredentials,
    /// A clone was requested with no template given and no default set.
    NoDefaultTemplate,
    /// An `add` was requested for an alias already in the catalog.
    AliasExists,
    /// An operation named an alias that is not in the catalog.
    AliasNotFound,
}

/// The user-visible text for each error variant.
pub open spec fn message_spec(e: ActionError) -> Seq<char> {
    match e {
        ActionError::EmptyName => "project name must not be empty"@,
        ActionError::NameTooLong => "project name is too long (at most 255 characters)"@,
        ActionError::NameHasInvalidChar => "project name contains an invalid character"@,
        ActionError::NameReserved => "project name is a reserved name"@,
        ActionError::InvalidGithubUrl => "invalid GitHub URL"@,
        ActionError::UrlHasCredentials => "URL already contains credentials"@,
        ActionError::NoDefaultTemplate => "no default template configured"@,
        ActionError::AliasExists => "template already exists"@,
        ActionError::AliasNotFound => "template not found"@,
    }
}

impl ActionError {
    /// The human-readable reason for this error.
    pub fn message(&self) -> (r: String)
        ensures
            r@ == message_spec(*self),
    {
        match self {
            ActionError::EmptyName => "project name must not be empty".to_owned(),
            ActionError::NameTooLong => "project name is too long (at most 255 characters)".to_owned(),
            ActionError::NameHasInvalidChar => "project name contains an invalid character".to_owned(),
            ActionError::NameReserved => "project name is a reserved name".to_owned(),
            ActionError::InvalidGithubUrl => "invalid GitHub URL".to_owned(),
            ActionError::UrlHasCredentials => "URL already contains credentials".to_owned(),
            ActionError::NoDefaultTemplate => "no default template configured".to_owned(),
            ActionError::AliasExists => "template already exists".to_owned(),
            ActionError::AliasNotFound => "template not found".to_owned(),
        }
    }
}

} // verus!
