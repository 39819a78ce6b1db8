//! The error kinds of the scaffolding workflow. Every error is terminal for
//! a run: the first failure stops the sequence and is surfaced to the top
//! level as a single message.

use vstd::prelude::*;

verus! {

/// Everything that can go wrong during a scaffolding run.
#[derive(Debug, Clone, PartialEq, Eq)]
pub enum ScaffoldError {
    /// The prerequisite diagnostic invocation of the version-control tool failed.
    ToolNotPresent,
    /// The target directory already exists.
    DirAlreadyExists(String),
    /// A recursive deletion was rejected by the safety policy.
    PathNotSafeToDelete(String),
    /// An external command could not be spawned or exited non-zero; carries
    /// the executable name and either the spawn error text or a formatted
    /// exit-status message.
    ExecutionFailure(String, String),
    /// Captured output of the named command was not valid text.
    OutputDecodeFailure(String),
    /// A copy, removal, or directory-walk operation failed; carries the
    /// underlying error text unchanged.
    FilesystemFailure(String),
    /// The user cancelled an interactive prompt.
    InteractionAborted,
}

impl ScaffoldError {
    /// A human-readable description, used by the caller for the final
    /// `FAIL - <message>` line.
    pub fn describe(&self) -> (r: String)
        ensures
            self is ToolNotPresent ==> r@ == "git does not seem to be installed (git --version failed)"@,
            self matches ScaffoldError::DirAlreadyExists(p) ==> r@ == "directory already exists: "@
                + p@,
            self matches ScaffoldError::PathNotSafeToDelete(p) ==> r@
                == "path does not seem safe to delete: "@ + p@,
            self matches ScaffoldError::ExecutionFailure(cmd, detail) ==> r@ == "command failed: "@
                + cmd@ + " - "@ + detail@,
            self matches ScaffoldError::OutputDecodeFailure(cmd) ==> r@
                == "could not decode the output of: "@ + cmd@,
            self matches ScaffoldError::FilesystemFailure(detail) ==> r@
                == "filesystem operation failed: "@ + detail@,
            self is InteractionAborted ==> r@ == "prompt aborted"@,
    {
        match self {
            ScaffoldError::ToolNotPresent => String::from_str(
                "git does not seem to be installed (git --version failed)",
            ),
            ScaffoldError::DirAlreadyExists(p) => {
                let mut r = String::from_str("directory already exists: ");
                r.append(p.as_str());
                r
            },
            ScaffoldError::PathNotSafeToDelete(p) => {
                let mut r = String::from_str("path does not seem safe to delete: ");
                r.append(p.as_str());
                r
            },
            ScaffoldError::ExecutionFailure(cmd, detail) => {
                let mut r = String::from_str("command failed: ");
                r.append(cmd.as_str());
                r.append(" - ");
                r.append(detail.as_str());
                r
            },
            ScaffoldError::OutputDecodeFailure(cmd) => {
                let mut r = String::from_str("could not decode the output of: ");
                r.append(cmd.as_str());
                r
            },
            ScaffoldError::FilesystemFailure(detail) => {
                let mut r = String::from_str("filesystem operation failed: ");
                r.append(detail.as_str());
                r
            },
            ScaffoldError::InteractionAborted => String::from_str("prompt aborted"),
        }
    }
}

} // verus!
