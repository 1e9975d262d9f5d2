//! The few calls the library makes into outside crates, each behind a
//! trusted item whose contract states what the crate's source shows.

use vstd::prelude::*;
use crate::response::ErrorEntry;

verus! {

#[verifier::external_type_specification]
#[verifier::external_body]
pub struct ExValue(serde_json::Value);

/// What `serde_json::from_str::<serde_json::Value>` reports for a given
/// text: no value for a parse that succeeds, the parser's diagnostic for
/// one that fails. Parsing depends on the text alone.
pub uninterp spec fn json_parse_err(s: Seq<char>) -> Option<Seq<char>>;

/// Relies on `serde_json::from_str::<serde_json::Value>`: parses a text
/// as JSON; the diagnostic of a failed parse is handed back as text.
#[verifier::external_body]
pub(crate) fn json_from_str(s: &str) -> (r: Result<serde_json::Value, String>)
    ensures
        r is Ok <==> json_parse_err(s@) is None,
        r matches Err(m) ==> json_parse_err(s@) == Some(m@),
{
    match serde_json::from_str::<serde_json::Value>(s) {
        Ok(v) => Ok(v),
        Err(e) => Err(e.to_string()),
    }
}

/// Relies on `serde_json::Value`'s `Display`: serializes the value as
/// compact JSON text. Every value serializes to at least one character
/// (`null` at the least); nothing more is claimed of the text, since the
/// value itself is opaque here.
#[verifier::external_body]
pub(crate) fn json_value_to_string(v: &serde_json::Value) -> (r: String)
    ensures
        r@.len() > 0,
{
    v.to_string()
}

/// What `url::Url::parse` makes of a given text: no value when the text
/// is not a valid URL, the parsed URL written back out (normalized) when
/// it is. The outcome depends on the text alone.
pub uninterp spec fn url_canon(s: Seq<char>) -> Option<Seq<char>>;

/// Relies on `url::Url::parse`: validates a URL text and hands back its
/// normalized form, or the parser's diagnostic.
#[verifier::external_body]
pub(crate) fn url_normalize(s: &str) -> (r: Result<String, String>)
    ensures
        r is Ok <==> url_canon(s@) is Some,
        r matches Ok(u) ==> url_canon(s@) == Some(u@),
{
    match url::Url::parse(s) {
        Ok(u) => Ok(u.to_string()),
        Err(e) => Err(e.to_string()),
    }
}

/// What `serde_json::from_str::<ApiErrors>` extracts from a response
/// body: no value when the body does not parse as the provider's error
/// envelope, else the `(code, message)` pairs of its `errors` list, in
/// order. The outcome depends on the body text alone.
pub uninterp spec fn api_errors_of(body: Seq<char>) -> Option<Seq<(u16, Seq<char>)>>;

/// Relies on `serde_json::from_str::<cloudflare::framework::response::ApiErrors>`:
/// parses a response body as the provider's error envelope, whose
/// `errors` field lists `code`/`message` pairs.
#[verifier::external_body]
pub(crate) fn parse_error_envelope(body: &str) -> (r: Option<Vec<ErrorEntry>>)
    ensures
        r is Some <==> api_errors_of(body@) is Some,
        r matches Some(v) ==> {
            &&& api_errors_of(body@) matches Some(s)
            &&& s.len() == v@.len()
            &&& forall|i: int|
                0 <= i < v@.len() ==> s[i].0 == v@[i].code && s[i].1 == v@[i].message@
        },
{
    match serde_json::from_str::<cloudflare::framework::response::ApiErrors>(body) {
        Ok(envelope) => Some(
            envelope
                .errors
                .into_iter()
                .map(|e| ErrorEntry { code: e.code, message: e.message })
                .collect(),
        ),
        Err(_) => None,
    }
}

} // verus!
