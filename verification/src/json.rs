//! Trusted binding to serde_json: just enough to read the one string field
//! the translate command wants out of a service response. Parsing and the
//! field lookup are pure functions of the bytes, so both results carry
//! names the verified contracts speak of.

use vstd::prelude::*;

verus! {

/// Whether the bytes parse as one JSON document; a pure function of the
/// bytes.
pub uninterp spec fn is_json_doc(b: Seq<u8>) -> bool;

/// The string at `translations[0].translation` in the document the bytes
/// hold, when the bytes parse and that member is a string; a pure function
/// of the bytes.
pub uninterp spec fn translation_of(b: Seq<u8>) -> Option<Seq<char>>;

/// Relies on serde_json's `from_slice`, `Value::get` and `Value::as_str`:
/// the bytes parse as one JSON document or the parser reports why not, and
/// on a parsed document the lookup gives the string at
/// `translations[0].translation` exactly when there is one — all
/// deterministic in the bytes alone.
#[verifier::external_body]
pub(crate) fn read_translation(body: &[u8]) -> (r: Result<Option<String>, String>)
    ensures
        r is Ok <==> is_json_doc(body@),
        (match r {
            Ok(Some(t)) => translation_of(body@) == Some(t@),
            Ok(None) => translation_of(body@) is None,
            Err(_) => true,
        }),
{
    match serde_json::from_slice::<serde_json::Value>(body) {
        Ok(v) => Ok(
            v.get("translations")
                .and_then(|list| list.get(0))
                .and_then(|first| first.get("translation"))
                .and_then(|t| t.as_str())
                .map(|s| s.to_string()),
        ),
        Err(e) => Err(format!("{}", e)),
    }
}

} // verus!
