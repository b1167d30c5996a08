//! The errors a scaffold run can end with.

use vstd::prelude::*;
use vstd::string::*;

verus! {

/// Why a scaffold run stopped.
#[derive(Debug, Clone, PartialEq, Eq)]
pub enum CliError {
    /// The project name is empty, starts with a numeric character, or names
    /// a path that already exists.
    InvalidProjectName,
    /// The template id is not in the registry.
    UnknownTemplate,
    /// The template repository could not be cloned; carries the cause.
    CloneFailed(String),
    /// The fresh repository could not be initialised; carries the cause.
    InitFailed(String),
    /// The manifest could not be read, parsed, rendered or written; carries
    /// the cause.
    ManifestError(String),
}

impl CliError {
    /// The fixed text that opens the message of this error.
    pub open spec fn prefix(self) -> Seq<char> {
        match self {
            CliError::InvalidProjectName => "Invalid project name"@,
            CliError::UnknownTemplate => "Unknown template"@,
            CliError::CloneFailed(_) => "Failed to clone repository: "@,
            CliError::InitFailed(_) => "Failed to init repository: "@,
            CliError::ManifestError(_) => "Failed to update manifest: "@,
        }
    }

    /// The cause carried by this error, empty where it carries none.
    pub open spec fn cause(self) -> Seq<char> {
        match self {
            CliError::InvalidProjectName => Seq::empty(),
            CliError::UnknownTemplate => Seq::empty(),
            CliError::CloneFailed(c) => c@,
            CliError::InitFailed(c) => c@,
            CliError::ManifestError(c) => c@,
        }
    }

    /// The message shown to the user: the prefix followed by the cause.
    pub fn message(&self) -> (text: String)
        ensures
            text@ == self.prefix() + self.cause(),
    {
        match self {
            CliError::InvalidProjectName => String::from_str("Invalid project name"),
            CliError::UnknownTemplate => String::from_str("Unknown template"),
            CliError::CloneFailed(c) => String::from_str("Failed to clone repository: ").concat(
                c.as_str(),
            ),
            CliError::InitFailed(c) => String::from_str("Failed to init repository: ").concat(
                c.as_str(),
            ),
            CliError::ManifestError(c) => String::from_str("Failed to update manifest: ").concat(
                c.as_str(),
            ),
        }
    }
}

} // verus!
