//! The system info command: assembling the key/value entries it reports
//! from the values the shell reads off the platform.

use vstd::prelude::*;
use vstd::string::StringExecFns;
use crate::errors::CmdError;
use crate::text::{utf8_lossy, utf8_lossy_of};
use crate::tool::ToolRun;

verus! {

/// The display report the platform tool printed, read as text. A tool that
/// exited with a non-zero status never passes as success.
pub fn display_report(run: ToolRun) -> (r: Result<String, CmdError>)
    ensures
        r is Ok <==> (run matches ToolRun::Done { success: true, .. }),
        (match run {
            ToolRun::Failed(m) => r == Err::<String, CmdError>(CmdError::Spawn(m)),
            ToolRun::Done { success, stdout, stderr } => {
                if !success {
                    (r matches Err(CmdError::NonZeroExit(t)) && t@ == utf8_lossy_of(stderr@))
                } else {
                    (r matches Ok(t) && t@ == utf8_lossy_of(stdout@))
                }
            },
        }),
{
    match run {
        ToolRun::Failed(m) => Err(CmdError::Spawn(m)),
        ToolRun::Done { success, stdout, stderr } => {
            if !success {
                Err(CmdError::NonZeroExit(utf8_lossy(stderr.as_slice())))
            } else {
                Ok(utf8_lossy(stdout.as_slice()))
            }
        },
    }
}

/// The system info entries: platform and architecture always, and the raw
/// display report where the platform tool produced one.
pub fn system_info_entries(platform: String, arch: String, display_info: Option<String>) -> (r: Vec<
    (String, String),
>)
    ensures
        r@.len() == (if display_info is Some {
            3int
        } else {
            2int
        }),
        r@[0].0@ == "platform"@ && r@[0].1 == platform,
        r@[1].0@ == "arch"@ && r@[1].1 == arch,
        display_info matches Some(d) ==> r@[2].0@ == "display_info"@ && r@[2].1 == d,
{
    let mut r: Vec<(String, String)> = Vec::new();
    r.push(("platform".to_owned(), platform));
    r.push(("arch".to_owned(), arch));
    match display_info {
        Some(d) => {
            r.push(("display_info".to_owned(), d));
        },
        None => {},
    }
    r
}

} // verus!
