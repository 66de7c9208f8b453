//! The template record: one entry of the catalog.

use vstd::prelude::*;

verus! {

/// One entry in the template catalog.
#[derive(Debug)]
pub struct TemplateInfo {
    /// Unique short name identifying the record within the catalog.
    pub alias: String,
    /// Repository reference: `owner/name` shorthand or a full URL.
    pub repo: String,
    /// Free-text description.
    pub description: String,
    /// Whether this record is the one used when no template is named.
    /// The catalog keeps at most one record with this flag set.
    pub is_default: bool,
}

/// The mathematical value of a template record: its strings as character
/// sequences, plus the default flag.
#[verifier::ext_equal]
pub ghost struct TemplateView {
    pub alias: Seq<char>,
    pub repo: Seq<char>,
    pub description: Seq<char>,
    pub is_default: bool,
}

impl View for TemplateInfo {
    type V = TemplateView;

    open spec fn view(&self) -> TemplateView {
        TemplateView {
            alias: self.alias@,
            repo: self.repo@,
            description: self.description@,
            is_default: self.is_default,
        }
    }
}

impl DeepView for TemplateInfo {
    type V = TemplateView;

    open spec fn deep_view(&self) -> TemplateView {
        self.view()
    }
}

impl Clone for TemplateInfo {
    /// A clone keeps every field's value.
    fn clone(&self) -> (r: Self)
        ensures
            r@ == self@,
    {
        TemplateInfo {
            alias: self.alias.clone(),
            repo: self.repo.clone(),
            description: self.description.clone(),
            is_default: self.is_default,
        }
    }
}

} // verus!
