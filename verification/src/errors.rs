//! The error taxonomy and its propagation policy.
//!
//! Only a usage error and a failure to scan the root directory are fatal,
//! and both occur before any iteration: no report is produced for them.
//! Every other failure degrades to a per-unit false verdict or to an inline
//! diagnostic, and the session runs to completion.

use vstd::prelude::*;

verus! {

/// Everything that can go wrong during a session. A directory that fits
/// neither exercise kind is not listed here: it is classified as a
/// single-file container with no units, never as an error.
#[derive(Clone, Copy, PartialEq, Eq, Structural, Debug)]
pub enum ErrorKind {
    /// The mode selector was missing or unrecognized.
    UsageError,
    /// The root directory could not be read.
    RootScanError,
    /// A toolchain command could not be launched.
    ToolchainLaunchFailure,
    /// A toolchain command ran and exited unsuccessfully.
    ToolchainNonZeroExit,
    /// A compiled artifact ran and exited unsuccessfully.
    ArtifactExecutionFailure,
    /// A build-artifact directory could not be removed.
    CleanupFailure,
    /// The finalized report could not be written.
    ReportWriteFailure,
}

/// The errors that abort the session before any iteration, with no report
/// produced: exactly the usage error and the root-scan failure.
pub open spec fn spec_is_fatal(e: ErrorKind) -> bool {
    e == ErrorKind::UsageError || e == ErrorKind::RootScanError
}

/// Whether an error aborts the session. A fatal error occurs before any
/// iteration and leaves no report; every other error is recorded or logged
/// and the session continues.
pub fn is_fatal(e: &ErrorKind) -> (r: bool)
    ensures
        r == spec_is_fatal(*e),
{
    match e {
        ErrorKind::UsageError => true,
        ErrorKind::RootScanError => true,
        _ => false,
    }
}

/// A failure to scan the root directory is fatal, so it is never recorded
/// as a unit result; a toolchain failure of any kind never is.
pub proof fn lemma_only_pre_iteration_errors_are_fatal(e: ErrorKind)
    ensures
        spec_is_fatal(e) <==> (e == ErrorKind::UsageError || e == ErrorKind::RootScanError),
        !spec_is_fatal(ErrorKind::ToolchainLaunchFailure),
        !spec_is_fatal(ErrorKind::ToolchainNonZeroExit),
        !spec_is_fatal(ErrorKind::ArtifactExecutionFailure),
        !spec_is_fatal(ErrorKind::CleanupFailure),
        !spec_is_fatal(ErrorKind::ReportWriteFailure),
{
}

} // verus!
