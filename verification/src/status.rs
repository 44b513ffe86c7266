//! HTTP status codes: which ones count as success, and how they are shown.

use vstd::prelude::*;
use crate::text::{decimal, decimal_string};

verus! {

/// The standard reason phrase of a status code, where one is registered for it.
pub uninterp spec fn reason_phrase(status: u16) -> Option<Seq<char>>;

/// Whether a status code lies in the success range.
pub open spec fn is_success(status: u16) -> bool {
    200 <= status < 300
}

/// A status code as shown to a reader, given the phrase that goes with it:
/// the number, a space, and the phrase or a fixed stand-in where there is none.
pub open spec fn status_line_with(status: u16, phrase: Option<Seq<char>>) -> Seq<char> {
    decimal(status as nat) + " "@ + match phrase {
        Some(p) => p,
        None => "<unknown status code>"@,
    }
}

/// A status code as shown to a reader, with its standard reason phrase.
pub open spec fn status_line(status: u16) -> Seq<char> {
    status_line_with(status, reason_phrase(status))
}

/// Looks up the standard reason phrase of `status`.
///
/// Trusted: the body asks `reqwest::StatusCode::from_u16` for the code and
/// `StatusCode::canonical_reason` for its phrase. The contract only gives
/// that answer its name, `reason_phrase`; a number that is no status code
/// (below 100 or above 999) has no phrase.
#[verifier::external_body]
fn canonical_reason(status: u16) -> (phrase: Option<String>)
    ensures
        phrase is Some <==> reason_phrase(status) is Some,
        phrase matches Some(p) ==> reason_phrase(status) == Some(p@),
{
    match reqwest::StatusCode::from_u16(status) {
        Ok(code) => code.canonical_reason().map(String::from),
        Err(_) => None,
    }
}

/// Decides whether `status` lies in the success range, 200 to 299.
pub fn status_is_success(status: u16) -> (ok: bool)
    ensures
        ok == is_success(status),
{
    200 <= status && status < 300
}

/// Renders `status` with the given reason phrase.
pub fn render_status(status: u16, phrase: Option<&str>) -> (text: String)
    ensures
        text@ == status_line_with(
            status,
            match phrase {
                Some(p) => Some(p@),
                None => None,
            },
        ),
{
    let mut text = decimal_string(status as usize);
    text.append(" ");
    match phrase {
        Some(p) => text.append(p),
        None => text.append("<unknown status code>"),
    }
    text
}

/// Renders `status` with its standard reason phrase.
pub fn status_text(status: u16) -> (text: String)
    ensures
        text@ == status_line(status),
{
    match canonical_reason(status) {
        Some(phrase) => render_status(status, Some(phrase.as_str())),
        None => render_status(status, None),
    }
}

} // verus!
