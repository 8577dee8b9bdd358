use vstd::prelude::*;

verus! {

/// Why a submission was rejected before any task began to execute.
///
/// These are the only synchronous failures: once a task has been accepted
/// into the registry, later trouble (a downloader that exits non-zero, a
/// directory that cannot be made) is recorded in the task's log instead of
/// being returned to the submitter.
#[derive(Clone, Copy, PartialEq, Eq, Structural, Debug)]
pub enum SubmitError {
    /// The requested output-directory key occurs nowhere in the
    /// configuration.
    UnknownDestination,
    /// The requested subdirectory, once joined to the resolved root and
    /// lexically normalized, would leave the root.
    PathEscape,
    /// The request's URL field held no URL at all once split on whitespace.
    EmptyUrlList,
    /// A task with the same id is already registered.
    DuplicateTaskId,
}

impl SubmitError {
    /// A fixed human-readable description of the rejection.
    pub fn message(&self) -> (m: &'static str)
        ensures
            *self is UnknownDestination ==> m@ == "output directory not found in config"@,
            *self is PathEscape ==> m@ == "something funny in the path"@,
            *self is EmptyUrlList ==> m@ == "no URL given"@,
            *self is DuplicateTaskId ==> m@ == "task id already in use"@,
    {
        match self {
            SubmitError::UnknownDestination => "output directory not found in config",
            SubmitError::PathEscape => "something funny in the path",
            SubmitError::EmptyUrlList => "no URL given",
            SubmitError::DuplicateTaskId => "task id already in use",
        }
    }
}

} // verus!
