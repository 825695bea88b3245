use vstd::prelude::*;

verus! {

/// Why one link could not be unfolded. Each variant names the path it is about.
#[derive(Clone, Debug, PartialEq, Eq)]
pub enum UnfoldError {
    /// The path is not a symbolic link.
    NotASymlink(String),
    /// The link dangles, or whether its target exists cannot be told.
    BrokenSymlink(String),
    /// A link of the chain could not be read.
    LinkReadError(String),
    /// The chain could not be resolved to its source.
    UnreachablePath(String),
    /// The resolved target is neither a link, a file nor a directory.
    UnfoldableTarget(String),
    /// A filesystem operation on the path failed, with the system's message.
    FilesystemOperationFailed(String, String),
}

/// How the unfold of one link ended in failure.
#[derive(Clone, Debug, PartialEq, Eq)]
pub enum Failure {
    /// The link failed with this error; it was left as it was, or reverted.
    Unfold(UnfoldError),
    /// The link failed with this error, and reverting the link at the path
    /// failed too, with the given message.
    RevertFailed(UnfoldError, String, String),
}

} // verus!
