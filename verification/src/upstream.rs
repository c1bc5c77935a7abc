//! The boundary to the outside world: what one outbound HTTP call to the
//! upstream orchestrator produced, and the few outside computations the
//! forwarding logic needs (JSON reading, case mapping, the clock).

use vstd::prelude::*;

verus! {

/// What came back from one outbound HTTP call to the upstream
/// orchestrator, as the transport layer reports it.
pub enum UpstreamResult {
    /// The call completed and produced a response body, given as text.
    Body(String),
    /// The call never produced a response: connection refused, timeout,
    /// DNS or TLS failure.  The payload describes the transport error.
    Unreachable(String),
}

/// The error description attached to an upstream reply that could not be
/// read as JSON of the expected shape.
pub open spec fn parse_error_text(detail: Seq<char>) -> Seq<char> {
    "Failed to parse response: "@ + detail
}

/// What `serde_json::from_str` decides for a text: `Ok` when the text is
/// valid JSON, otherwise the parse error's description.
pub uninterp spec fn json_check_of(body: Seq<char>) -> Result<(), Seq<char>>;

/// Relies on serde_json::from_str: whether a text parses as JSON, and the
/// error text when it does not, are functions of the text alone.
#[verifier::external_body]
pub(crate) fn json_check(body: &str) -> (r: Result<(), String>)
    ensures
        r is Ok <==> json_check_of(body@) is Ok,
        r matches Err(e) ==> json_check_of(body@) matches Err(d) && e@ == d,
{
    match serde_json::from_str::<serde_json::Value>(body) {
        Ok(_) => Ok(()),
        Err(e) => Err(e.to_string()),
    }
}

/// What parsing a text as JSON and reading string member `field` gives:
/// `Err` with the parse error's description when the text is not valid
/// JSON; `Ok(Some(contents))` when the parsed value is an object whose
/// `field` member is a JSON string; `Ok(None)` otherwise.
pub uninterp spec fn json_string_field_of(body: Seq<char>, field: Seq<char>) -> Result<
    Option<Seq<char>>,
    Seq<char>,
>;

/// Relies on serde_json::from_str, Value::get and Value::as_str: the
/// outcome is a function of the two texts alone.
#[verifier::external_body]
pub(crate) fn json_string_field(body: &str, field: &str) -> (r: Result<Option<String>, String>)
    ensures
        r is Ok <==> json_string_field_of(body@, field@) is Ok,
        r matches Ok(m) ==> json_string_field_of(body@, field@) matches Ok(v) && (m matches Some(
            s,
        ) ==> v matches Some(w) && s@ == w) && (m is None ==> v is None),
        r matches Err(e) ==> json_string_field_of(body@, field@) matches Err(d) && e@ == d,
{
    match serde_json::from_str::<serde_json::Value>(body) {
        Ok(value) => Ok(value.get(field).and_then(|m| m.as_str()).map(|s| s.to_string())),
        Err(e) => Err(e.to_string()),
    }
}

/// What `str::to_uppercase` returns: the Unicode uppercase mapping of a
/// text, a function of its characters alone.
pub uninterp spec fn upper_of(s: Seq<char>) -> Seq<char>;

/// Relies on str::to_uppercase: the result depends on the characters
/// alone.
#[verifier::external_body]
pub(crate) fn to_upper(s: &str) -> (r: String)
    ensures
        r@ == upper_of(s@),
{
    s.to_uppercase()
}

/// Relies on chrono's Utc::now().to_rfc3339(): a timezone-aware RFC 3339
/// timestamp for the moment of the call.  The value depends on the clock
/// (assumed to stand at or after the Unix epoch), so nothing is promised
/// of it beyond being non-empty.
#[verifier::external_body]
pub(crate) fn now_rfc3339() -> (r: String)
    ensures
        r@.len() > 0,
{
    chrono::Utc::now().to_rfc3339()
}

} // verus!
