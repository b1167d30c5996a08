//! Scaffolding of a new web project from a template repository.
//!
//! The crate holds the decisions of the scaffold pipeline: which repository a
//! template id stands for, which dependencies a component contributes, whether
//! a project name is acceptable, how component dependencies are merged into a
//! manifest, and in which order the stages of a run follow each other.
//! Prompting, cloning and file access are left to the caller, who feeds their
//! outcomes back as plain values.

pub mod catalog;
pub mod cli;
pub mod error;
pub mod manifest;
pub mod merge;
pub mod project_name;
pub mod registry;
pub mod scaffold;
