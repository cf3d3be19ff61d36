//! What running an external tool came to: either it could not be started,
//! or it ran to completion with an exit status and captured output. The
//! unverified shell builds this value from the real process; the verified
//! command logic decides from it alone.

use vstd::prelude::*;
use crate::errors::CmdError;
use crate::text::{utf8_lossy, utf8_lossy_of};

verus! {

/// The outcome of one external tool invocation.
#[derive(Debug, PartialEq, Eq)]
pub enum ToolRun {
    /// The tool could not be spawned; the field holds the launcher's error
    /// text.
    Failed(String),
    /// The tool ran to completion.
    Done {
        /// Whether it exited with status zero.
        success: bool,
        /// Its captured standard output.
        stdout: Vec<u8>,
        /// Its captured standard error.
        stderr: Vec<u8>,
    },
}

impl ToolRun {
    /// Whether the tool never started — the one case where the capture
    /// command reaches for its fallback tool. A tool that ran and failed
    /// is reported, not retried.
    pub fn spawn_failed(&self) -> (r: bool)
        ensures
            r == (self matches ToolRun::Failed(_)),
    {
        match self {
            ToolRun::Failed(_) => true,
            ToolRun::Done { .. } => false,
        }
    }
}

/// What a command that wants no output makes of a tool run: success
/// exactly when the tool exited with status zero, and otherwise the exact
/// failure. A non-zero exit never passes as success.
pub fn tool_status(run: ToolRun) -> (r: Result<(), CmdError>)
    ensures
        r is Ok <==> (run matches ToolRun::Done { success: true, .. }),
        (match run {
            ToolRun::Failed(m) => r == Err::<(), CmdError>(CmdError::Spawn(m)),
            ToolRun::Done { success, stdout, stderr } => {
                if !success {
                    (r matches Err(CmdError::NonZeroExit(t)) && t@ == utf8_lossy_of(stderr@))
                } else {
                    r is Ok
                }
            },
        }),
{
    match run {
        ToolRun::Failed(m) => Err(CmdError::Spawn(m)),
        ToolRun::Done { success, stdout: _, stderr } => {
            if !success {
                Err(CmdError::NonZeroExit(utf8_lossy(stderr.as_slice())))
            } else {
                Ok(())
            }
        },
    }
}

} // verus!
