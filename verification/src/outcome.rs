//! The outcome of one external toolchain invocation.

use vstd::prelude::*;

verus! {

/// What one external command produced: whether it exited successfully, its
/// captured output streams, and, when the command could not be launched at
/// all, the reason.
pub struct CommandOutcome {
    pub success: bool,
    pub stdout: String,
    pub stderr: String,
    pub launch_failure: Option<String>,
}

impl CommandOutcome {
    /// A launch failure can never count as a success, and a command that was
    /// never launched produced no output.
    pub open spec fn wf(self) -> bool {
        self.launch_failure is Some ==> !self.success && self.stdout@.len() == 0
            && self.stderr@.len() == 0
    }

    /// The outcome of a command that was launched and ran to completion.
    pub fn completed(success: bool, stdout: String, stderr: String) -> (r: CommandOutcome)
        ensures
            r.wf(),
            r.success == success,
            r.stdout@ == stdout@,
            r.stderr@ == stderr@,
            r.launch_failure is None,
    {
        CommandOutcome { success, stdout, stderr, launch_failure: None }
    }

    /// The outcome of a command that could not be launched: always a failure,
    /// with empty output streams.
    pub fn launch_failed(reason: String) -> (r: CommandOutcome)
        ensures
            r.wf(),
            !r.success,
            r.stdout@.len() == 0,
            r.stderr@.len() == 0,
            r.launch_failure matches Some(m) && m@ == reason@,
    {
        CommandOutcome {
            success: false,
            stdout: String::new(),
            stderr: String::new(),
            launch_failure: Some(reason),
        }
    }
}

} // verus!
