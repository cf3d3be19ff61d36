//! The permission check: which capabilities the app reports, and how the
//! macOS privacy database's answer is read.

use vstd::prelude::*;
use vstd::string::StringExecFns;
use crate::text::{trim_text, trimmed, utf8_lossy, utf8_lossy_of};

verus! {

/// The capability flags the permission check reports.
#[derive(Debug, Clone, Copy, PartialEq, Eq, Structural)]
pub struct Permissions {
    /// Whether the app may capture the screen.
    pub screen_capture: bool,
    /// Whether the app may use the microphone; reported as granted
    /// unconditionally, for voice input that does not exist yet.
    pub microphone: bool,
}

/// Whether the privacy database's answer grants screen capture: the query
/// must have run and printed exactly `1` up to surrounding whitespace.
pub open spec fn tcc_grants(q: Option<Seq<u8>>) -> bool {
    q is Some && trimmed(utf8_lossy_of(q.unwrap())) == "1"@
}

/// The bytes a query printed, if it ran.
pub open spec fn query_view(q: Option<Vec<u8>>) -> Option<Seq<u8>> {
    match q {
        Some(v) => Some(v@),
        None => None,
    }
}

/// Whether a privacy database query's output grants screen capture; a
/// query that could not run grants nothing.
pub fn screen_capture_allowed(query_output: &Option<Vec<u8>>) -> (r: bool)
    ensures
        r == tcc_grants(query_view(*query_output)),
{
    match query_output {
        None => false,
        Some(out) => {
            let text = utf8_lossy(out.as_slice());
            let t = trim_text(text.as_str());
            let one = "1".to_owned();
            t == one
        },
    }
}

/// The permission check's answer. On macOS screen capture is whatever the
/// privacy database granted; elsewhere it is reported as granted. The
/// microphone flag is always granted.
pub fn check_permissions_result(on_macos: bool, query_output: Option<Vec<u8>>) -> (p: Permissions)
    ensures
        p.microphone == true,
        on_macos ==> p.screen_capture == tcc_grants(query_view(query_output)),
        !on_macos ==> p.screen_capture == true,
{
    let screen_capture = if on_macos {
        screen_capture_allowed(&query_output)
    } else {
        true
    };
    Permissions { screen_capture, microphone: true }
}

impl Permissions {
    /// The flags as named entries, ready to become the map the command
    /// reports.
    pub fn entries(&self) -> (r: Vec<(String, bool)>)
        ensures
            r@.len() == 2,
            r@[0].0@ == "screen_capture"@ && r@[0].1 == self.screen_capture,
            r@[1].0@ == "microphone"@ && r@[1].1 == self.microphone,
    {
        let mut r: Vec<(String, bool)> = Vec::new();
        r.push(("screen_capture".to_owned(), self.screen_capture));
        r.push(("microphone".to_owned(), self.microphone));
        r
    }
}

} // verus!
