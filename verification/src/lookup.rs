//! Interpretation of one availability query against the registry-data
//! provider: the classification of the HTTP status and of the JSON payload
//! into a tri-state lookup result.

use vstd::prelude::*;

verus! {

/// Why one availability query failed.  Any of these is a hard failure: the
/// watch terminates without retrying.
#[derive(Debug, PartialEq)]
pub enum LookupError {
    /// The provider answered with a client-error or server-error status.
    /// `message` carries the provider's own error message, or a fixed
    /// fallback text when the error body held none.
    HttpError { status: u16, message: String },
    /// The provider answered with a success status but the payload was not
    /// a JSON document.
    MalformedPayload,
    /// The request never produced an HTTP response (unreachable host,
    /// timeout, broken transport).
    Transport { message: String },
}

/// The outcome of one availability query.
#[derive(Debug, PartialEq)]
pub enum LookupResult {
    /// The domain is not registered: it can be acquired.
    Available,
    /// The domain is still registered.
    Taken,
    /// The query itself failed; the watch must stop.
    QueryFailed(LookupError),
}

/// Whether an HTTP status lies in the client-error or server-error range.
/// Any such status is a hard failure of the lookup.
pub open spec fn spec_is_error_status(status: u16) -> bool {
    400 <= status < 600
}

/// Classifies an HTTP status: client errors and server errors fail the
/// lookup, every other status is treated as success.
pub fn is_error_status(status: u16) -> (r: bool)
    ensures
        r == spec_is_error_status(status),
{
    400 <= status && status < 600
}

/// What the payload of a successful response says about the `registered`
/// field: `None` when the body is not a JSON document, `Some(None)` when
/// it is one without a boolean `registered` field, `Some(Some(b))` when
/// the field holds the boolean `b`.
pub uninterp spec fn parsed_registered(body: Seq<char>) -> Option<Option<bool>>;

/// Relies on serde_json::from_str and serde_json::Value::{get, as_bool}:
/// parsing a document and reading the boolean under its `registered` key
/// is a function of the text alone.
#[verifier::external_body]
fn read_registered_field(body: &str) -> (r: Option<Option<bool>>)
    ensures
        r == parsed_registered(body@),
{
    match serde_json::from_str::<serde_json::Value>(body) {
        Ok(v) => Some(v.get("registered").and_then(|f| f.as_bool())),
        Err(_) => None,
    }
}

/// The `message` field of an error response's payload, when the body is a
/// JSON document with a string under that key.
pub uninterp spec fn provider_message(body: Seq<char>) -> Option<Seq<char>>;

/// Relies on serde_json::from_str and serde_json::Value::{get, as_str}:
/// parsing a document and reading the string under its `message` key is a
/// function of the text alone.
#[verifier::external_body]
fn read_provider_message(body: &str) -> (r: Option<String>)
    ensures
        r is Some <==> provider_message(body@) is Some,
        r matches Some(m) ==> provider_message(body@) == Some(m@),
{
    match serde_json::from_str::<serde_json::Value>(body) {
        Ok(v) => v.get("message").and_then(|m| m.as_str()).map(|s| s.to_string()),
        Err(_) => None,
    }
}

/// The fallback error text used when an error body carries no `message`.
pub open spec fn default_error_text() -> Seq<char> {
    "No error message provided by API."@
}

/// The error text reported for a failed response: the provider's own
/// message when there is one, the fixed fallback otherwise.
pub open spec fn spec_error_text(body: Seq<char>) -> Seq<char> {
    match provider_message(body) {
        Some(m) => m,
        None => default_error_text(),
    }
}

/// Classifies one provider response into the tri-state lookup result.
///
/// The domain is reported available exactly when the response succeeded
/// and its payload holds `registered == false`; it is reported taken when
/// the payload holds `registered == true` or lacks a boolean `registered`
/// field.  An error status always fails the query, carrying the
/// provider's message; a success status with a body that is not JSON
/// fails it as a malformed payload.
pub fn interpret_response(status: u16, body: &str) -> (r: LookupResult)
    ensures
        r is Available <==> !spec_is_error_status(status) && parsed_registered(body@) == Some(
            Some(false),
        ),
        r is Taken <==> !spec_is_error_status(status) && (parsed_registered(body@) matches Some(f)
            && f != Some(false)),
        spec_is_error_status(status) ==> (r matches LookupResult::QueryFailed(e) && e matches
            LookupError::HttpError { status: s, message } && s == status && message@
            == spec_error_text(body@)),
        !spec_is_error_status(status) && parsed_registered(body@) is None ==> r
            == LookupResult::QueryFailed(LookupError::MalformedPayload),
{
    if is_error_status(status) {
        let message = match read_provider_message(body) {
            Option::Some(m) => m,
            Option::None => String::from_str("No error message provided by API."),
        };
        LookupResult::QueryFailed(LookupError::HttpError { status, message })
    } else {
        match read_registered_field(body) {
            Option::None => LookupResult::QueryFailed(LookupError::MalformedPayload),
            Option::Some(field) => match field {
                Option::Some(registered) => {
                    if registered {
                        LookupResult::Taken
                    } else {
                        LookupResult::Available
                    }
                },
                Option::None => LookupResult::Taken,
            },
        }
    }
}

/// The result recorded when the request never produced an HTTP response.
pub fn transport_failure(message: String) -> (r: LookupResult)
    ensures
        r == LookupResult::QueryFailed(LookupError::Transport { message }),
{
    LookupResult::QueryFailed(LookupError::Transport { message })
}

/// The value of the `Authorization` header sent with each query: `TOKEN=`
/// followed by the configured API key.
pub fn auth_header_value(api_key: &str) -> (r: String)
    ensures
        r@ == "TOKEN="@ + api_key@,
{
    let mut s = String::from_str("TOKEN=");
    s.append(api_key);
    s
}

} // verus!
