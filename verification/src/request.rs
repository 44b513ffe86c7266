//! Checking a prompt and building the one request a call sends.

use vstd::prelude::*;
use crate::client::{ChatRequest, ChatRequestView, Message, MessageView, USER_ROLE};
use crate::config::{resolve_api_key, resolve_endpoint, resolved_api_key, resolved_endpoint};
use crate::config::{Environment, EnvironmentView};
use crate::errors::{DSRSError, Failure};
use crate::limits::MAX_PROMPT_LENGTH;
use crate::text::joined;

verus! {

/// Name of the header that carries the credential.
pub const AUTHORIZATION_HEADER: &'static str = "Authorization";

/// Name of the header that announces the type of the body.
pub const CONTENT_TYPE_HEADER: &'static str = "Content-Type";

/// Content type announced for the request body.
pub const JSON_CONTENT_TYPE: &'static str = "application/json";

/// Scheme that precedes the API key in the authorization header.
pub const BEARER_PREFIX: &'static str = "Bearer ";

/// Everything the transport needs to send a call's single POST.
#[derive(Debug, Clone)]
pub struct PostRequest {
    /// URL the request goes to.
    pub endpoint: String,
    /// Value of the `Authorization` header.
    pub authorization: String,
    /// Value of the `Content-Type` header.
    pub content_type: String,
    /// Seconds after which the transport gives the request up.
    pub timeout_secs: u64,
    /// Payload, sent as JSON.
    pub body: ChatRequest,
}

/// A request as a mathematical value.
pub struct PostRequestView {
    pub endpoint: Seq<char>,
    pub authorization: Seq<char>,
    pub content_type: Seq<char>,
    pub timeout_secs: u64,
    pub body: ChatRequestView,
}

impl View for PostRequest {
    type V = PostRequestView;

    open spec fn view(&self) -> PostRequestView {
        PostRequestView {
            endpoint: self.endpoint@,
            authorization: self.authorization@,
            content_type: self.content_type@,
            timeout_secs: self.timeout_secs,
            body: self.body@,
        }
    }
}

/// The failure a prompt is rejected with, if it is: one that has more
/// characters than the limit.
pub open spec fn prompt_failure(prompt: Seq<char>) -> Option<Failure> {
    if prompt.len() > MAX_PROMPT_LENGTH {
        Some(Failure::PromptTooLong(prompt.len(), MAX_PROMPT_LENGTH as nat))
    } else {
        None
    }
}

/// The payload for a prompt: one message, from the user, holding the prompt
/// as it is; the options as they were given.
pub open spec fn chat_request(
    prompt: Seq<char>,
    model: Seq<char>,
    max_tokens: Option<u32>,
    temperature_bits: Option<u32>,
) -> ChatRequestView {
    ChatRequestView {
        model,
        messages: seq![MessageView { role: USER_ROLE@, content: prompt }],
        max_tokens,
        temperature_bits,
    }
}

/// What a call does before anything is sent. The credential is resolved
/// first, so that a missing key is reported whatever the prompt; then the
/// prompt is checked; only then is there a request.
pub open spec fn prepared(
    timeout_secs: u64,
    env: EnvironmentView,
    prompt: Seq<char>,
    model: Seq<char>,
    max_tokens: Option<u32>,
    temperature_bits: Option<u32>,
) -> Result<PostRequestView, Failure> {
    match resolved_api_key(env) {
        Err(failure) => Err(failure),
        Ok(key) => match prompt_failure(prompt) {
            Some(failure) => Err(failure),
            None => Ok(
                PostRequestView {
                    endpoint: resolved_endpoint(env),
                    authorization: BEARER_PREFIX@ + key,
                    content_type: JSON_CONTENT_TYPE@,
                    timeout_secs,
                    body: chat_request(prompt, model, max_tokens, temperature_bits),
                },
            ),
        },
    }
}

/// Accepts a prompt of at most `MAX_PROMPT_LENGTH` characters and rejects
/// any longer one, reporting its length and the limit.
pub fn validate_prompt(prompt: &str) -> (checked: Result<(), DSRSError>)
    ensures
        (match prompt_failure(prompt@) {
            Some(failure) => checked matches Err(e) && e@ == failure,
            None => checked is Ok,
        }),
{
    let len = prompt.unicode_len();
    if len > MAX_PROMPT_LENGTH {
        Err(DSRSError::PromptTooLong(len, MAX_PROMPT_LENGTH))
    } else {
        Ok(())
    }
}

/// Builds the payload for a prompt.
pub fn build_request(
    prompt: &str,
    model: &str,
    max_tokens: Option<u32>,
    temperature_bits: Option<u32>,
) -> (request: ChatRequest)
    ensures
        request@ == chat_request(prompt@, model@, max_tokens, temperature_bits),
{
    let mut messages: Vec<Message> = Vec::new();
    messages.push(Message { role: String::from_str(USER_ROLE), content: String::from_str(prompt) });
    let request = ChatRequest {
        model: String::from_str(model),
        messages,
        max_tokens,
        temperature_bits,
    };
    assert(request@.messages =~= seq![MessageView { role: USER_ROLE@, content: prompt@ }]);
    request
}

/// Resolves the configuration, checks the prompt and builds the request, in
/// that order; the first step that fails decides the failure.
pub fn prepare(
    timeout_secs: u64,
    env: &Environment,
    prompt: &str,
    model: &str,
    max_tokens: Option<u32>,
    temperature_bits: Option<u32>,
) -> (request: Result<PostRequest, DSRSError>)
    ensures
        (match prepared(timeout_secs, env@, prompt@, model@, max_tokens, temperature_bits) {
            Ok(expected) => request matches Ok(r) && r@ == expected,
            Err(failure) => request matches Err(e) && e@ == failure,
        }),
{
    let api_key = match resolve_api_key(env) {
        Ok(key) => key,
        Err(error) => {
            return Err(error);
        },
    };
    match validate_prompt(prompt) {
        Ok(()) => {},
        Err(error) => {
            return Err(error);
        },
    }
    let body = build_request(prompt, model, max_tokens, temperature_bits);
    let endpoint = resolve_endpoint(env);
    Ok(
        PostRequest {
            endpoint,
            authorization: joined(BEARER_PREFIX, api_key.as_str()),
            content_type: String::from_str(JSON_CONTENT_TYPE),
            timeout_secs,
            body,
        },
    )
}

} // verus!
