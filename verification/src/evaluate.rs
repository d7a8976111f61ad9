//! Reducing toolchain outcomes to a per-unit verdict.
//!
//! A project unit is graded by three toolchain invocations (build, test,
//! lint); a single-file unit by an ahead-of-time compile followed, only on
//! success, by a run of the produced artifact.

use vstd::prelude::*;
use crate::outcome::CommandOutcome;

verus! {

/// The verdict of a project unit: the conjunction of the build, test and
/// lint successes.
pub open spec fn spec_project_verdict(build: bool, test: bool, lint: bool) -> bool {
    build && test && lint
}

/// Whether the artifact of a single-file unit is to be executed: exactly when
/// the compile step succeeded.
pub open spec fn spec_needs_artifact_run(compile: CommandOutcome) -> bool {
    compile.success
}

/// The verdict of a single-file unit: the compile step succeeded and the
/// produced artifact was executed and itself succeeded.
pub open spec fn spec_single_file_verdict(compile: CommandOutcome, run: Option<CommandOutcome>) -> bool {
    compile.success && (run matches Some(r) && r.success)
}

/// Grade one project unit from the outcomes of its three toolchain
/// invocations, performed in the unit's own directory in the fixed order
/// build, test, lint.
pub fn evaluate_cargo_project(build: &CommandOutcome, test: &CommandOutcome, lint: &CommandOutcome) -> (verdict: bool)
    ensures
        verdict == spec_project_verdict(build.success, test.success, lint.success),
{
    build.success && test.success && lint.success
}

/// Decide whether the artifact produced by a single-file compile step is to
/// be executed. A failed compile never leads to an execution attempt.
pub fn needs_artifact_run(compile: &CommandOutcome) -> (run: bool)
    ensures
        run == spec_needs_artifact_run(*compile),
{
    compile.success
}

/// Grade one single-file unit from its compile outcome and, where the
/// artifact was executed, the execution outcome.
pub fn evaluate_single_file(compile: &CommandOutcome, run: &Option<CommandOutcome>) -> (verdict: bool)
    ensures
        verdict == spec_single_file_verdict(*compile, *run),
{
    compile.success && (match run {
        Some(r) => r.success,
        None => false,
    })
}

/// A project unit's verdict is false as soon as any one of its three steps
/// failed, and true exactly when all three succeeded.
pub proof fn lemma_project_verdict_is_conjunction(build: bool, test: bool, lint: bool)
    ensures
        spec_project_verdict(build, test, lint) <==> build && test && lint,
        !build || !test || !lint ==> !spec_project_verdict(build, test, lint),
{
}

/// A single-file unit whose compile step failed never has its artifact
/// executed, and its verdict is false whatever else happened.
pub proof fn lemma_failed_compile_fails_unit(compile: CommandOutcome, run: Option<CommandOutcome>)
    requires
        !compile.success,
    ensures
        !spec_needs_artifact_run(compile),
        !spec_single_file_verdict(compile, run),
{
}

} // verus!
