use vstd::prelude::*;
use crate::launch::RunResult;

verus! {

/// What went wrong, with the value it concerns.
#[derive(Debug, PartialEq, Eq)]
pub enum ErrorKind {
    /// The catalog of project types could not be found.
    ConfigurationMissing,
    /// No project type of this name is in the catalog.
    UnknownProjectType(String),
    /// A fresh directory was registered without a project type.
    MissingProjectType,
    /// No project name can be derived from this path.
    InvalidPath(String),
    /// No project of this name is registered.
    ProjectNotFound(String),
    /// The registered directory holds no project file.
    MetadataMissing(String),
    /// A read or a write failed.
    IoFailure(String),
    /// A command of the project type failed: its position in the list, its
    /// program, and how it ended.
    CommandFailure { index: usize, program: String, result: RunResult },
    /// A command was asked for without a project name.
    NoProjectGiven,
}

/// The error of every fallible operation of the library.
#[derive(Debug, PartialEq, Eq)]
pub struct Error {
    pub kind: ErrorKind,
}

/// The one-line summary of an error of this kind.
pub open spec fn message_of(kind: ErrorKind) -> Seq<char> {
    match kind {
        ErrorKind::ConfigurationMissing => "the catalog of project types is missing"@,
        ErrorKind::UnknownProjectType(t) => "unknown project type: "@ + t@,
        ErrorKind::MissingProjectType => "no project file was found and no project type was set"@,
        ErrorKind::InvalidPath(p) => "no project name can be derived from the path: "@ + p@,
        ErrorKind::ProjectNotFound(n) => "no project is registered as: "@ + n@,
        ErrorKind::MetadataMissing(p) => "no project file was found in: "@ + p@,
        ErrorKind::IoFailure(m) => "input or output failed: "@ + m@,
        ErrorKind::CommandFailure { program, .. } => "a command failed: "@ + program@,
        ErrorKind::NoProjectGiven => "Project Manager failed"@,
    }
}

impl Error {
    pub fn new(kind: ErrorKind) -> (r: Error)
        ensures
            r.kind == kind,
    {
        Error { kind }
    }

    /// A one-line, human-readable summary of the error.
    pub fn message(&self) -> (r: String)
        ensures
            r@ == message_of(self.kind),
    {
        match &self.kind {
            ErrorKind::ConfigurationMissing => String::from_str(
                "the catalog of project types is missing",
            ),
            ErrorKind::UnknownProjectType(t) => String::from_str("unknown project type: ").concat(
                t.as_str(),
            ),
            ErrorKind::MissingProjectType => String::from_str(
                "no project file was found and no project type was set",
            ),
            ErrorKind::InvalidPath(p) => String::from_str(
                "no project name can be derived from the path: ",
            ).concat(p.as_str()),
            ErrorKind::ProjectNotFound(n) => String::from_str("no project is registered as: ").concat(
                n.as_str(),
            ),
            ErrorKind::MetadataMissing(p) => String::from_str("no project file was found in: ").concat(
                p.as_str(),
            ),
            ErrorKind::IoFailure(m) => String::from_str("input or output failed: ").concat(m.as_str()),
            ErrorKind::CommandFailure { program, .. } => String::from_str("a command failed: ").concat(
                program.as_str(),
            ),
            ErrorKind::NoProjectGiven => String::from_str("Project Manager failed"),
        }
    }
}

} // verus!
