//! A call as a state machine, for callers that do the outside work
//! themselves.
//!
//! The machine decides; its driver acts. The driver hands in an event, gets
//! back the next state and an action, performs the action, and hands in the
//! event that the action produced, until the action is to finish. The only
//! way through the states is forward, so a call sends at most one request.

use vstd::prelude::*;
use crate::client::{ChatResponse, ChatResponseView, LLMClient, result_view};
use crate::config::{Environment, EnvironmentView};
use crate::errors::{DSRSError, Failure};
use crate::request::{prepare, prepared, PostRequest, PostRequestView};
use crate::response::{check_status, decode_failure, read_response, transport_failure};
use crate::response::{decode_failed, reading, status_failed, transport_failed};
use crate::status::is_success;

verus! {

/// Where a call stands.
#[derive(Debug, Clone, Copy, PartialEq, Eq, Structural)]
pub enum CallState {
    /// Nothing has happened yet.
    Start,
    /// The request is with the transport.
    Sent,
    /// The response's status was a success; its body is being read.
    StatusChecked,
    /// The call ended with a completion.
    Done,
    /// The call ended with a failure.
    Failed,
}

/// What the driver reports to the machine.
#[derive(Debug, Clone)]
pub enum Event {
    /// A call was made, with the environment as it is now.
    Call {
        env: Environment,
        prompt: String,
        model: String,
        max_tokens: Option<u32>,
        temperature_bits: Option<u32>,
    },
    /// The transport brought no response; the text says why.
    TransportFailed(String),
    /// A response arrived with this status.
    Status(u16),
    /// The body was decoded.
    BodyDecoded(ChatResponse),
    /// The body could not be decoded; the text says why.
    BodyUndecodable(String),
}

/// An event as a mathematical value.
pub enum EventView {
    Call {
        env: EnvironmentView,
        prompt: Seq<char>,
        model: Seq<char>,
        max_tokens: Option<u32>,
        temperature_bits: Option<u32>,
    },
    TransportFailed(Seq<char>),
    Status(u16),
    BodyDecoded(ChatResponseView),
    BodyUndecodable(Seq<char>),
}

impl View for Event {
    type V = EventView;

    open spec fn view(&self) -> EventView {
        match *self {
            Event::Call { env, prompt, model, max_tokens, temperature_bits } => EventView::Call {
                env: env@,
                prompt: prompt@,
                model: model@,
                max_tokens,
                temperature_bits,
            },
            Event::TransportFailed(reason) => EventView::TransportFailed(reason@),
            Event::Status(status) => EventView::Status(status),
            Event::BodyDecoded(response) => EventView::BodyDecoded(response@),
            Event::BodyUndecodable(reason) => EventView::BodyUndecodable(reason@),
        }
    }
}

/// What the machine asks the driver to do next.
#[derive(Debug)]
pub enum Action {
    /// Send this request and report `TransportFailed` or `Status`.
    Send(PostRequest),
    /// Read and decode the body and report `BodyDecoded` or `BodyUndecodable`.
    ReadBody,
    /// Return this result to the caller; the call is over.
    Finish(Result<String, DSRSError>),
}

/// An action as a mathematical value.
pub enum ActionView {
    Send(PostRequestView),
    ReadBody,
    Finish(Result<Seq<char>, Failure>),
}

impl View for Action {
    type V = ActionView;

    open spec fn view(&self) -> ActionView {
        match *self {
            Action::Send(request) => ActionView::Send(request@),
            Action::ReadBody => ActionView::ReadBody,
            Action::Finish(result) => ActionView::Finish(result_view(result)),
        }
    }
}

/// Whether `event` is one that can be reported in `state`.
pub open spec fn accepts(state: CallState, event: EventView) -> bool {
    match state {
        CallState::Start => event is Call,
        CallState::Sent => event is TransportFailed || event is Status,
        CallState::StatusChecked => event is BodyDecoded || event is BodyUndecodable,
        CallState::Done => false,
        CallState::Failed => false,
    }
}

/// The end of a call with the given result.
pub open spec fn finish(result: Result<Seq<char>, Failure>) -> (CallState, ActionView) {
    (
        if result is Ok {
            CallState::Done
        } else {
            CallState::Failed
        },
        ActionView::Finish(result),
    )
}

/// The state that follows and the action to take, for an event that the
/// state accepts.
pub open spec fn transition(timeout_secs: u64, state: CallState, event: EventView) -> (
    CallState,
    ActionView,
)
    recommends
        accepts(state, event),
{
    match event {
        EventView::Call { env, prompt, model, max_tokens, temperature_bits } => match prepared(
            timeout_secs,
            env,
            prompt,
            model,
            max_tokens,
            temperature_bits,
        ) {
            Ok(request) => (CallState::Sent, ActionView::Send(request)),
            Err(failure) => finish(Err(failure)),
        },
        EventView::TransportFailed(reason) => finish(Err(transport_failed(reason))),
        EventView::Status(status) => if is_success(status) {
            (CallState::StatusChecked, ActionView::ReadBody)
        } else {
            finish(Err(status_failed(status)))
        },
        EventView::BodyDecoded(response) => finish(reading(response)),
        EventView::BodyUndecodable(reason) => finish(Err(decode_failed(reason))),
    }
}

/// Ends a call with `result`.
fn finished(result: Result<String, DSRSError>) -> (moved: (CallState, Action))
    ensures
        (moved.0, moved.1@) == finish(result_view(result)),
{
    match result {
        Ok(text) => (CallState::Done, Action::Finish(Ok(text))),
        Err(error) => (CallState::Failed, Action::Finish(Err(error))),
    }
}

impl LLMClient {
    /// Takes one step of a call: from a state and an event to the state that
    /// follows and the action to take. There is no step for an event that
    /// the state does not accept.
    pub fn step(&self, state: CallState, event: Event) -> (moved: Option<(CallState, Action)>)
        ensures
            (match moved {
                Some((next, action)) => accepts(state, event@) && (next, action@) == transition(
                    self.timeout(),
                    state,
                    event@,
                ),
                None => !accepts(state, event@),
            }),
    {
        match (state, event) {
            (CallState::Start, Event::Call { env, prompt, model, max_tokens, temperature_bits }) => {
                match prepare(
                    self.timeout_secs(),
                    &env,
                    prompt.as_str(),
                    model.as_str(),
                    max_tokens,
                    temperature_bits,
                ) {
                    Ok(request) => Some((CallState::Sent, Action::Send(request))),
                    Err(error) => Some(finished(Err(error))),
                }
            },
            (CallState::Sent, Event::TransportFailed(reason)) => Some(
                finished(Err(transport_failure(reason.as_str()))),
            ),
            (CallState::Sent, Event::Status(status)) => match check_status(status) {
                Ok(()) => Some((CallState::StatusChecked, Action::ReadBody)),
                Err(error) => Some(finished(Err(error))),
            },
            (CallState::StatusChecked, Event::BodyDecoded(response)) => Some(
                finished(read_response(&response)),
            ),
            (CallState::StatusChecked, Event::BodyUndecodable(reason)) => Some(
                finished(Err(decode_failure(reason.as_str()))),
            ),
            _ => None,
        }
    }
}

} // verus!
