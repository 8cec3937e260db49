//! Response-body envelope validation.
//!
//! Every response body the API returns is expected to be JSON and, when it
//! is a JSON object, to carry either a `data` or an `errors` key. What JSON
//! parsing yields is taken from `serde_json` through one trusted inspection
//! call; the validation decisions on top of it are verified.

use vstd::prelude::*;

verus! {

use crate::errors::ApiError;

/// What `serde_json` finds in a response body: `None` when the bytes are
/// not valid JSON, otherwise whether the document is an object, whether the
/// object has a top-level `data` key, whether it has a top-level `errors`
/// key, and the `errors[].message` strings.
pub uninterp spec fn body_facts_of(b: Seq<u8>) -> Option<(bool, bool, bool, Seq<Seq<char>>)>;

/// The JSON shape of a response body, as one flat record.
#[derive(Debug, Clone, PartialEq, Eq)]
pub struct BodyFacts {
    /// The bytes parsed as JSON at all.
    pub parsed: bool,
    /// The document is a JSON object.
    pub is_object: bool,
    /// The object carries a top-level `data` key.
    pub has_data: bool,
    /// The object carries a top-level `errors` key.
    pub has_errors: bool,
    /// The `message` strings under the top-level `errors` array.
    pub error_messages: Vec<String>,
}

/// Relies on `serde_json::from_slice::<Value>`: whether the bytes parse as
/// JSON, the kind of the document, the presence of the top-level `data` and
/// `errors` keys, and the `message` strings of the `errors` array.
#[verifier::external_body]
pub(crate) fn inspect_body(b: &[u8]) -> (r: BodyFacts)
    ensures
        match body_facts_of(b@) {
            None => !r.parsed,
            Some(t) => r.parsed && r.is_object == t.0 && r.has_data == t.1 && r.has_errors == t.2
                && r.error_messages.deep_view() == t.3,
        },
{
    let (mut parsed, mut o, mut d, mut e) = (true, false, false, false);
    let mut msgs: Vec<String> = Vec::new();
    match serde_json::from_slice::<serde_json::Value>(b) {
        Err(_) => parsed = false,
        Ok(serde_json::Value::Object(m)) => {
            o = true; d = m.contains_key("data"); e = m.contains_key("errors");
            if let Some(serde_json::Value::Array(a)) = m.get("errors") {
                for x in a { if let Some(serde_json::Value::String(t)) = x.get("message") { msgs.push(t.clone()); } }
            }
        },
        Ok(_) => {},
    }
    BodyFacts { parsed, is_object: o, has_data: d, has_errors: e, error_messages: msgs }
}

/// Relies on `String::from_utf8_lossy`: the text of a byte string, with
/// invalid UTF-8 replaced; a function of the bytes alone.
#[verifier::external_body]
pub(crate) fn bytes_to_text(b: &[u8]) -> (r: String)
    ensures
        r@ == lossy_text_of(b@),
        b@.len() == 0 ==> r@.len() == 0,
{
    String::from_utf8_lossy(b).into_owned()
}

/// What `String::from_utf8_lossy` makes of a byte string.
pub uninterp spec fn lossy_text_of(b: Seq<u8>) -> Seq<char>;

use crate::errors::SpecApiError;

/// The verdict of the envelope gate for one response body.
pub open spec fn spec_body_verdict(path: Seq<char>, b: Seq<u8>) -> Result<(), SpecApiError> {
    if b.len() == 0 {
        Err(SpecApiError::Other("empty response body for "@ + path))
    } else {
        match body_facts_of(b) {
            None => Err(SpecApiError::Deserialize("response body is not valid JSON"@)),
            Some(t) => if t.0 && !t.1 && !t.2 {
                Err(SpecApiError::Other("response missing required `data` or `errors` field"@))
            } else {
                Ok(())
            },
        }
    }
}

/// Gate a successful response body: an empty body is rejected, a body that
/// is not JSON is rejected, and a JSON object without a `data` or `errors`
/// key is rejected; everything else passes.
pub fn check_response_body(path: &str, body: &[u8]) -> (r: Result<(), ApiError>)
    ensures
        match r {
            Ok(u) => spec_body_verdict(path@, body@) is Ok,
            Err(e) => spec_body_verdict(path@, body@) == Err::<(), SpecApiError>(e@),
        },
{
    if body.len() == 0 {
        let mut msg = crate::text::str_to_chars("empty response body for ");
        let mut p = crate::text::str_to_chars(path);
        msg.append(&mut p);
        return Err(ApiError::Other(crate::text::chars_to_string(&msg)));
    }
    let facts = inspect_body(body);
    if !facts.parsed {
        let t = crate::text::str_to_chars("response body is not valid JSON");
        return Err(ApiError::Deserialize(crate::text::chars_to_string(&t)));
    }
    if facts.is_object && !facts.has_data && !facts.has_errors {
        let t = crate::text::str_to_chars("response missing required `data` or `errors` field");
        return Err(ApiError::Other(crate::text::chars_to_string(&t)));
    }
    Ok(())
}

} // verus!
