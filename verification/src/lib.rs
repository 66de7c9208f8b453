//! A verified catalog of project scaffold templates.
//!
//! The library keeps a list of template records (alias, repository
//! reference, description, default flag), validates repository references
//! and target directory names, and plans a clone of a chosen template.
//! File storage, terminal output and the clone subprocess live outside the
//! library; every function here is pure and carries a proved contract.

pub mod catalog;
pub mod cli;
pub mod clone_plan;
pub mod error;
pub mod registry;
pub mod template;
pub mod text;
pub mod validate;
