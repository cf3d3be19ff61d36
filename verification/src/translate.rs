//! Translation: the deterministic part of the translate command — refusing
//! to run without an API key, building the endpoint URL and the credential
//! header, judging the HTTP status, and reading the translated text out of
//! the service's JSON answer.

use vstd::prelude::*;
use vstd::string::{StrSliceExecFns, StringExecFns, StringSliceAdditionalSpecFns};
use crate::codec::{b64_encode_spec, encode_base64};
use crate::errors::CmdError;

verus! {

/// A translation call: what to translate and between which languages.
#[derive(Debug, PartialEq, Eq)]
pub struct TranslationRequest {
    /// The text to translate.
    pub text: String,
    /// The source language code.
    pub from: String,
    /// The target language code.
    pub to: String,
}

impl TranslationRequest {
    /// The request as the body entries the service expects: the text,
    /// source and target fields, each wrapped in a one-element list.
    pub fn body_entries(self) -> (r: Vec<(String, Vec<String>)>)
        ensures
            r@.len() == 3,
            r@[0].0@ == "text"@ && r@[0].1@ == seq![self.text],
            r@[1].0@ == "source"@ && r@[1].1@ == seq![self.from],
            r@[2].0@ == "target"@ && r@[2].1@ == seq![self.to],
    {
        let mut text_list: Vec<String> = Vec::new();
        text_list.push(self.text);
        let mut source_list: Vec<String> = Vec::new();
        source_list.push(self.from);
        let mut target_list: Vec<String> = Vec::new();
        target_list.push(self.to);
        proof {
            assert(text_list@ =~= seq![text_list@[0]]);
            assert(source_list@ =~= seq![source_list@[0]]);
            assert(target_list@ =~= seq![target_list@[0]]);
        }
        let mut r: Vec<(String, Vec<String>)> = Vec::new();
        r.push(("text".to_owned(), text_list));
        r.push(("source".to_owned(), source_list));
        r.push(("target".to_owned(), target_list));
        r
    }
}

/// Where and how to call the translation service: everything the network
/// layer needs besides the request itself.
#[derive(Debug, PartialEq, Eq)]
pub struct TranslatePlan {
    /// The full endpoint URL to post to.
    pub url: String,
    /// The value of the Authorization header.
    pub auth: String,
}

/// The service URL used when the environment names none.
pub fn default_service_url() -> (r: String)
    ensures
        r@ == "https://api.us-south.language-translator.watson.cloud.ibm.com"@,
{
    "https://api.us-south.language-translator.watson.cloud.ibm.com".to_owned()
}

/// The versioned translate endpoint under a service URL.
pub fn translate_endpoint(base: &str) -> (r: String)
    ensures
        r@ == base@ + "/v3/translate?version=2018-05-01"@,
{
    let mut s = base.to_owned();
    s.append("/v3/translate?version=2018-05-01");
    s
}

/// The error text the translate command gives when no API key is set.
pub fn missing_api_key_text() -> (r: String)
    ensures
        r@ == "IBM Watson API key not found in environment"@,
{
    "IBM Watson API key not found in environment".to_owned()
}

/// The Basic credential header value for an API key: the base64 of
/// `apikey:` followed by the key, after `Basic `.
pub fn basic_auth_header(api_key: &str) -> (r: String)
    ensures
        r@ == "Basic "@ + b64_encode_spec("apikey:".spec_bytes() + api_key.spec_bytes()),
{
    let mut input = "apikey:".as_bytes_vec();
    let mut key_bytes = api_key.as_bytes_vec();
    input.append(&mut key_bytes);
    let encoded = encode_base64(&input);
    let mut s = "Basic ".to_owned();
    s.append(encoded.as_str());
    s
}

/// The translate command up to the moment traffic would flow: with no API
/// key it refuses at once, before any network call can be made; with one it
/// gives the endpoint under the configured or default service URL and the
/// credential header for the key.
pub fn translate_prepare(api_key: Option<String>, base_url: Option<String>) -> (r: Result<
    TranslatePlan,
    CmdError,
>)
    ensures
        r is Ok <==> api_key is Some,
        (match api_key {
            None => r == Err::<TranslatePlan, CmdError>(CmdError::MissingApiKey),
            Some(k) => (r matches Ok(p) && p.url@ == (match base_url {
                Some(u) => u@,
                None => "https://api.us-south.language-translator.watson.cloud.ibm.com"@,
            }) + "/v3/translate?version=2018-05-01"@ && p.auth@ == "Basic "@ + b64_encode_spec(
                "apikey:".spec_bytes() + vstd::utf8::encode_utf8(k@),
            )),
        }),
{
    match api_key {
        None => Err(CmdError::MissingApiKey),
        Some(k) => {
            let base = match base_url {
                Some(u) => u,
                None => default_service_url(),
            };
            let url = translate_endpoint(base.as_str());
            let auth = basic_auth_header(k.as_str());
            Ok(TranslatePlan { url, auth })
        },
    }
}

/// Whether an HTTP status code reports success, as HTTP defines it: the
/// 2xx range.
pub fn status_is_success(code: u16) -> (r: bool)
    ensures
        r == (200 <= code && code < 300),
{
    200 <= code && code < 300
}

/// The check the translate command makes on the service's status code: a
/// failing code becomes an error carrying that code.
pub fn check_http_status(code: u16) -> (r: Result<(), CmdError>)
    ensures
        r is Ok <==> (200 <= code && code < 300),
        !(200 <= code && code < 300) ==> r == Err::<(), CmdError>(CmdError::Http(code)),
{
    if status_is_success(code) {
        Ok(())
    } else {
        Err(CmdError::Http(code))
    }
}

/// The translated text in a service response: the string at
/// `translations[0].translation`, and nothing else. A body that is not
/// JSON is exactly a parse error, and a JSON body without that member is
/// exactly the no-translation error: every failure surfaces as an error,
/// never as text posing as a translation.
pub fn translation_from_response(body: &[u8]) -> (r: Result<String, CmdError>)
    ensures
        r is Ok <==> (crate::json::is_json_doc(body@) && crate::json::translation_of(body@)
            is Some),
        (r matches Ok(t) ==> Some(t@) == crate::json::translation_of(body@)),
        !crate::json::is_json_doc(body@) ==> (r matches Err(CmdError::Parse(_))),
        (crate::json::is_json_doc(body@) && crate::json::translation_of(body@) is None) ==> r
            == Err::<String, CmdError>(CmdError::NoTranslation),
{
    match crate::json::read_translation(body) {
        Err(m) => Err(CmdError::Parse(m)),
        Ok(Some(t)) => Ok(t),
        Ok(None) => Err(CmdError::NoTranslation),
    }
}

} // verus!
