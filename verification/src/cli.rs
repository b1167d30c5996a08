//! The command line as plain values.

use vstd::prelude::*;

verus! {

/// What the command line asked for.
#[derive(Debug, Clone, PartialEq, Eq)]
pub struct Cli {
    /// How many times debugging output was asked for.
    pub debug: u8,
    /// The subcommand, if one was given.
    pub command: Option<Commands>,
}

/// The subcommands.
#[derive(Debug, Clone, PartialEq, Eq)]
pub enum Commands {
    /// Create a new project, under `name` where one is given.
    Create { name: Option<String> },
}

} // verus!
