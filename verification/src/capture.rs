//! Screen capture: the region argument strings each platform tool expects,
//! and the step from a finished tool run to the base64 image the command
//! returns.

use vstd::prelude::*;
use vstd::string::StringExecFns;
use crate::codec::{b64_encode_spec, encode_base64};
use crate::decimal::{dec_rep_int, i64_to_string};
use crate::errors::CmdError;
use crate::text::utf8_lossy_of;
use crate::tool::ToolRun;

verus! {

/// A screen rectangle in pixel coordinates. The origin can be negative on
/// a multi-monitor layout, so the fields are signed.
#[derive(Debug, Clone, Copy, PartialEq, Eq, Structural)]
pub struct CaptureRegion {
    pub x: i64,
    pub y: i64,
    pub width: i64,
    pub height: i64,
}

/// The `x,y,width,height` argument that `screencapture -R` and `scrot -a`
/// take.
pub open spec fn region_comma_arg_spec(r: CaptureRegion) -> Seq<char> {
    dec_rep_int(r.x as int) + ","@ + dec_rep_int(r.y as int) + ","@ + dec_rep_int(r.width as int) + ","@
        + dec_rep_int(r.height as int)
}

/// The `widthxheight+x+y` area argument that `gnome-screenshot --area`
/// takes.
pub open spec fn region_area_arg_spec(r: CaptureRegion) -> Seq<char> {
    dec_rep_int(r.width as int) + "x"@ + dec_rep_int(r.height as int) + "+"@ + dec_rep_int(r.x as int) + "+"@
        + dec_rep_int(r.y as int)
}

/// The `x, y, width, height` constructor arguments spliced into the
/// PowerShell capture script.
pub open spec fn region_list_arg_spec(r: CaptureRegion) -> Seq<char> {
    dec_rep_int(r.x as int) + ", "@ + dec_rep_int(r.y as int) + ", "@ + dec_rep_int(r.width as int) + ", "@
        + dec_rep_int(r.height as int)
}

impl CaptureRegion {
    /// The region as `x,y,width,height`.
    pub fn comma_arg(&self) -> (s: String)
        ensures
            s@ == region_comma_arg_spec(*self),
    {
        let mut s = i64_to_string(self.x);
        s.append(",");
        s.append(i64_to_string(self.y).as_str());
        s.append(",");
        s.append(i64_to_string(self.width).as_str());
        s.append(",");
        s.append(i64_to_string(self.height).as_str());
        proof {
            assert(s@ =~= region_comma_arg_spec(*self));
        }
        s
    }

    /// The region as `widthxheight+x+y`.
    pub fn area_arg(&self) -> (s: String)
        ensures
            s@ == region_area_arg_spec(*self),
    {
        let mut s = i64_to_string(self.width);
        s.append("x");
        s.append(i64_to_string(self.height).as_str());
        s.append("+");
        s.append(i64_to_string(self.x).as_str());
        s.append("+");
        s.append(i64_to_string(self.y).as_str());
        proof {
            assert(s@ =~= region_area_arg_spec(*self));
        }
        s
    }

    /// The region as `x, y, width, height`.
    pub fn list_arg(&self) -> (s: String)
        ensures
            s@ == region_list_arg_spec(*self),
    {
        let mut s = i64_to_string(self.x);
        s.append(", ");
        s.append(i64_to_string(self.y).as_str());
        s.append(", ");
        s.append(i64_to_string(self.width).as_str());
        s.append(", ");
        s.append(i64_to_string(self.height).as_str());
        proof {
            assert(s@ =~= region_list_arg_spec(*self));
        }
        s
    }
}

/// The capture command's result once the tool has run and the scratch file
/// has been read back: the base64 of the captured image on success, and
/// the exact failure otherwise. A tool that exited with a non-zero status
/// never passes as success.
pub fn capture_result(run: ToolRun, image: Result<Vec<u8>, String>) -> (r: Result<
    String,
    CmdError,
>)
    ensures
        r is Ok <==> ((run matches ToolRun::Done { success: true, .. }) && image is Ok),
        (match run {
            ToolRun::Failed(m) => r == Err::<String, CmdError>(CmdError::Spawn(m)),
            ToolRun::Done { success, stdout, stderr } => {
                if !success {
                    (r matches Err(CmdError::NonZeroExit(t)) && t@ == utf8_lossy_of(stderr@))
                } else {
                    match image {
                        Err(m) => r == Err::<String, CmdError>(CmdError::Io(m)),
                        Ok(bytes) => r is Ok && r.unwrap()@ == b64_encode_spec(bytes@),
                    }
                }
            },
        }),
{
    match run {
        ToolRun::Failed(m) => Err(CmdError::Spawn(m)),
        ToolRun::Done { success, stdout: _, stderr } => {
            if !success {
                Err(CmdError::NonZeroExit(crate::text::utf8_lossy(stderr.as_slice())))
            } else {
                match image {
                    Err(m) => Err(CmdError::Io(m)),
                    Ok(bytes) => Ok(encode_base64(&bytes)),
                }
            }
        },
    }
}

} // verus!
