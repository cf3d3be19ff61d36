//! Text extraction: decoding the base64 image handed in, and reading the
//! recognizer's output once it has run.

use vstd::prelude::*;
use crate::codec::{b64_decode_spec, decode_base64};
use crate::errors::CmdError;
use crate::text::{trim_text, trimmed, utf8_lossy, utf8_lossy_of};
use crate::tool::ToolRun;

verus! {

/// The image bytes behind a base64 string, or a decode error for exactly
/// the strings that are not canonical base64.
pub fn decode_image(image_base64: &str) -> (r: Result<Vec<u8>, CmdError>)
    ensures
        r is Ok <==> b64_decode_spec(image_base64@) is Some,
        r is Ok ==> r.unwrap()@ == b64_decode_spec(image_base64@).unwrap(),
        r is Err ==> (r matches Err(CmdError::Decode(_))),
{
    match decode_base64(image_base64) {
        Ok(bytes) => Ok(bytes),
        Err(m) => Err(CmdError::Decode(m)),
    }
}

/// The text the recognizer produced: its standard output read as text,
/// without the surrounding whitespace. A recognizer that exited with a
/// non-zero status never passes as success.
pub fn ocr_text(run: ToolRun) -> (r: Result<String, CmdError>)
    ensures
        r is Ok <==> (run matches ToolRun::Done { success: true, .. }),
        (match run {
            ToolRun::Failed(m) => r == Err::<String, CmdError>(CmdError::Spawn(m)),
            ToolRun::Done { success, stdout, stderr } => {
                if !success {
                    (r matches Err(CmdError::NonZeroExit(t)) && t@ == utf8_lossy_of(stderr@))
                } else {
                    (r matches Ok(t) && t@ == trimmed(utf8_lossy_of(stdout@)))
                }
            },
        }),
{
    match run {
        ToolRun::Failed(m) => Err(CmdError::Spawn(m)),
        ToolRun::Done { success, stdout, stderr } => {
            if !success {
                Err(CmdError::NonZeroExit(utf8_lossy(stderr.as_slice())))
            } else {
                let text = utf8_lossy(stdout.as_slice());
                Ok(trim_text(text.as_str()))
            }
        },
    }
}

} // verus!
