use vstd::prelude::*;

verus! {

/// Why adding one dependency (or the whole invocation) failed.
#[derive(Clone, Copy, Debug, PartialEq, Eq, Structural)]
pub enum AddError {
    /// The dependency token does not resolve to a usable repository location.
    InvalidName,
    /// No enclosing version-controlled repository was found.
    NoRepository,
    /// The submodule record could not be registered at its destination.
    SubmoduleCreateFailed,
    /// The newly registered submodule could not be opened as a repository.
    OpenFailed,
    /// The default branch could not be fetched from the submodule's origin.
    FetchFailed,
    /// The fetched branch tip could not be resolved to a commit.
    RefResolutionFailed,
    /// The local default branch could not be created or reset.
    BranchFailed,
    /// The commit's tree could not be checked out.
    CheckoutFailed,
    /// The submodule's head could not be set to the local branch.
    SetHeadFailed,
    /// The submodule registration could not be finalized.
    FinalizeFailed,
    /// Neither conventional source directory exists and none was given.
    CannotInferSourceDir,
    /// The downstream configuration could not be read, parsed or written.
    IoError,
    /// The downstream configuration has a shape in which no partition map fits.
    MalformedConfig,
}

} // verus!
