//! The closed set of ways a command can fail. Every command returns one of
//! these instead of an ad-hoc string, so a caller can tell a refused input
//! from a failed tool or a failed network call.

use vstd::prelude::*;

verus! {

/// Why a command failed. The `String` fields carry the diagnostic text of
/// the tool or library that failed, untouched.
#[derive(Debug, PartialEq, Eq)]
pub enum CmdError {
    /// The external tool could not be started.
    Spawn(String),
    /// The external tool ran and exited with a non-zero status; the field
    /// holds its standard error output as text.
    NonZeroExit(String),
    /// A file the command needed could not be read or written.
    Io(String),
    /// The input was not valid base64; the field holds the decoder's reason.
    Decode(String),
    /// The translation API key is missing from the environment.
    MissingApiKey,
    /// The translation service answered with a failing HTTP status code.
    Http(u16),
    /// The translation response could not be read as JSON.
    Parse(String),
    /// The translation response parsed, but carried no translation string.
    NoTranslation,
}

} // verus!
