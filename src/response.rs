use vstd::prelude::*;

use crate::error::HolidayAPIError;

verus! {

/// The text under `field` in the JSON object `body`, if `body` is a JSON
/// object whose `field` member is a string.
pub uninterp spec fn json_string_field(body: Seq<char>, field: Seq<char>) -> Option<Seq<char>>;

/// Relies on serde_json::from_str (into serde_json::Value), Value::get and
/// Value::as_str: the string member `field` of the JSON document `body`, or
/// nothing when the body is no JSON, not an object, or has no such string.
#[verifier::external_body]
fn json_text_field(body: &str, field: &str) -> (r: Option<String>)
    ensures
        match r {
            Some(s) => json_string_field(body@, field@) == Some(s@),
            None => json_string_field(body@, field@) is None,
        },
{
    let value: serde_json::Value = serde_json::from_str(body).ok()?;
    value.get(field)?.as_str().map(String::from)
}

/// A status the service uses for failure: a client error (4xx) or a server
/// error (5xx).
pub open spec fn is_error_status(status: u16) -> bool {
    400 <= status && status < 600
}

/// The error for a failed reply, given the `error` text of its body if it
/// had one: a request error with the status and that text, or, for a body
/// without it, a decoding error holding the body.
pub fn error_from_message(status: u16, message: Option<String>, body: &str) -> (e:
    HolidayAPIError)
    ensures
        match message {
            Some(m) => e matches HolidayAPIError::RequestError(Some(s), t) && s == status && t@
                == m@,
            None => e matches HolidayAPIError::DecodeError(b) && b@ == body@,
        },
{
    match message {
        Some(m) => HolidayAPIError::RequestError(Some(status), m),
        None => HolidayAPIError::DecodeError(body.to_owned()),
    }
}

/// Classifies a reply by its status and body: success statuses pass; a
/// failure status gives a request error carrying the status and the `error`
/// text of the JSON body, or a decoding error when the body has no such text.
pub fn check_reply(status: u16, body: &str) -> (r: Result<(), HolidayAPIError>)
    ensures
        r is Ok <==> !is_error_status(status),
        is_error_status(status) ==> match json_string_field(body@, "error"@) {
            Some(m) => r matches Err(HolidayAPIError::RequestError(Some(s), t)) && s == status
                && t@ == m,
            None => r matches Err(HolidayAPIError::DecodeError(b)) && b@ == body@,
        },
{
    if 400 <= status && status < 600 {
        let message = json_text_field(body, "error");
        Err(error_from_message(status, message, body))
    } else {
        Ok(())
    }
}

} // verus!
