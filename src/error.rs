use vstd::prelude::*;

verus! {

/// Every way in which an update or an install run can stop. Each one is
/// terminal: the run reports it once and does not retry.
#[derive(Clone, Debug, PartialEq, Eq)]
pub enum PipelineError {
    /// A required input file or binary is missing.
    PathNotFound(String),
    /// The selected file is not the game's executable; holds its name.
    NotGameExecutable(String),
    /// The digest of the local content is not a key of the manifest's hash map.
    UnrecognizedVersion,
    /// The resolved version has no entry in the manifest's patch table.
    NoPatchAvailable(String),
    /// A downloaded artifact does not match the digest it was declared with.
    IntegrityError,
    /// A transport-level failure while fetching something.
    NetworkError(String),
    /// A structured response could not be parsed.
    ParseError(String),
    /// The archive tool reported a failure; holds its diagnostic output.
    ArchiveExtractionError(String),
    /// No diff-application script was found in the extracted tree.
    ScriptNotFound,
    /// The diff-application script exited with this non-zero code.
    ScriptExecutionFailed(i32),
    /// The synchronization tool could not be located or installed.
    ToolBootstrapFailed(String),
    /// The synchronization tool exited with this non-zero status.
    InstallToolFailed(i32),
    /// A local read or write failed.
    IoError(String),
}

} // verus!
