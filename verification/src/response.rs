//! What a call makes of the transport's answer.
//!
//! The checks run in a fixed order and the first one that fails ends the
//! call: the HTTP status, the decoding of the body, an error reported
//! inside the body, the presence of a choice.

use vstd::prelude::*;
use crate::client::{ChatResponse, ChatResponseView, result_view};
use crate::errors::{DSRSError, Failure};
use crate::status::{is_success, status_is_success, status_line, status_text};
use crate::text::joined;

verus! {

/// Detail of the failure reported for a body without choices.
pub const NO_CHOICES: &'static str = "no response choices returned";

/// What became of a response body.
#[derive(Debug, Clone)]
pub enum Body {
    /// The body was decoded into a response.
    Decoded(ChatResponse),
    /// The body could not be decoded; the text says why.
    Undecodable(String),
}

/// A body as a mathematical value.
pub enum BodyView {
    Decoded(ChatResponseView),
    Undecodable(Seq<char>),
}

impl View for Body {
    type V = BodyView;

    open spec fn view(&self) -> BodyView {
        match *self {
            Body::Decoded(response) => BodyView::Decoded(response@),
            Body::Undecodable(reason) => BodyView::Undecodable(reason@),
        }
    }
}

/// What the transport came back with for the one request it was given.
#[derive(Debug, Clone)]
pub enum Exchange {
    /// No response arrived; the text says why.
    Failed(String),
    /// A response arrived. The body is looked at only if the status is a
    /// success.
    Answered { status: u16, body: Body },
}

/// An exchange as a mathematical value.
pub enum ExchangeView {
    Failed(Seq<char>),
    Answered { status: u16, body: BodyView },
}

impl View for Exchange {
    type V = ExchangeView;

    open spec fn view(&self) -> ExchangeView {
        match *self {
            Exchange::Failed(reason) => ExchangeView::Failed(reason@),
            Exchange::Answered { status, body } => ExchangeView::Answered { status, body: body@ },
        }
    }
}

/// The failure for a transport that brought no response.
pub open spec fn transport_failed(reason: Seq<char>) -> Failure {
    Failure::Network("Request failed: "@ + reason)
}

/// The failure for a response whose status is no success.
pub open spec fn status_failed(status: u16) -> Failure {
    Failure::Api("HTTP "@ + status_line(status))
}

/// The failure for a body that could not be decoded.
pub open spec fn decode_failed(reason: Seq<char>) -> Failure {
    Failure::Api("Failed to parse response: "@ + reason)
}

/// What a decoded body amounts to. An error reported in it wins over
/// whatever choices come with it; without one, the text of the first choice
/// is the result, and it is a failure to have none.
pub open spec fn reading(response: ChatResponseView) -> Result<Seq<char>, Failure> {
    match response.error {
        Some(error) => Err(Failure::Api(error.description())),
        None => if response.choices.len() == 0 {
            Err(Failure::Api(NO_CHOICES@))
        } else {
            Ok(response.choices[0])
        },
    }
}

/// What a body amounts to, once the status allowed looking at it.
pub open spec fn body_outcome(body: BodyView) -> Result<Seq<char>, Failure> {
    match body {
        BodyView::Undecodable(reason) => Err(decode_failed(reason)),
        BodyView::Decoded(response) => reading(response),
    }
}

/// What an exchange amounts to.
pub open spec fn outcome(exchange: ExchangeView) -> Result<Seq<char>, Failure> {
    match exchange {
        ExchangeView::Failed(reason) => Err(transport_failed(reason)),
        ExchangeView::Answered { status, body } => if is_success(status) {
            body_outcome(body)
        } else {
            Err(status_failed(status))
        },
    }
}

/// Reports a transport that brought no response.
pub fn transport_failure(reason: &str) -> (error: DSRSError)
    ensures
        error@ == transport_failed(reason@),
{
    DSRSError::NetworkError(joined("Request failed: ", reason))
}

/// Reports a body that could not be decoded.
pub fn decode_failure(reason: &str) -> (error: DSRSError)
    ensures
        error@ == decode_failed(reason@),
{
    DSRSError::ApiError(joined("Failed to parse response: ", reason))
}

/// Lets a success status pass and reports any other.
pub fn check_status(status: u16) -> (checked: Result<(), DSRSError>)
    ensures
        (if is_success(status) {
            checked is Ok
        } else {
            checked matches Err(e) && e@ == status_failed(status)
        }),
{
    if status_is_success(status) {
        Ok(())
    } else {
        let shown = status_text(status);
        Err(DSRSError::ApiError(joined("HTTP ", shown.as_str())))
    }
}

/// Reads the result out of a decoded body.
pub fn read_response(response: &ChatResponse) -> (result: Result<String, DSRSError>)
    ensures
        result_view(result) == reading(response@),
{
    match &response.error {
        Some(error) => Err(DSRSError::ApiError(error.describe())),
        None => {
            if response.choices.len() == 0 {
                Err(DSRSError::ApiError(String::from_str(NO_CHOICES)))
            } else {
                Ok(response.choices[0].message.content.clone())
            }
        },
    }
}

/// Reads the result out of a body, decoded or not.
pub fn read_body(body: &Body) -> (result: Result<String, DSRSError>)
    ensures
        result_view(result) == body_outcome(body@),
{
    match body {
        Body::Decoded(response) => read_response(response),
        Body::Undecodable(reason) => Err(decode_failure(reason.as_str())),
    }
}

/// Applies all checks to an exchange, in order.
pub fn interpret(exchange: &Exchange) -> (result: Result<String, DSRSError>)
    ensures
        result_view(result) == outcome(exchange@),
{
    match exchange {
        Exchange::Failed(reason) => Err(transport_failure(reason.as_str())),
        Exchange::Answered { status, body } => match check_status(*status) {
            Err(error) => Err(error),
            Ok(()) => read_body(body),
        },
    }
}

} // verus!
