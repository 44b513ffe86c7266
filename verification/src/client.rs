//! The wire data of a chat completion and the client that exchanges it.

use vstd::prelude::*;
use crate::config::Environment;
use crate::errors::{DSRSError, Failure};
use crate::limits::REQUEST_TIMEOUT_SECS;
use crate::request::{prepare, prepared, PostRequest};
use crate::response::{interpret, outcome, Exchange};
use crate::text::{debug_text, quoted};

verus! {

/// Role under which the prompt is sent.
pub const USER_ROLE: &'static str = "user";

/// A single message in a chat conversation.
#[derive(Debug, Clone)]
pub struct Message {
    pub role: String,
    pub content: String,
}

/// A message as a mathematical value.
pub struct MessageView {
    pub role: Seq<char>,
    pub content: Seq<char>,
}

impl View for Message {
    type V = MessageView;

    open spec fn view(&self) -> MessageView {
        MessageView { role: self.role@, content: self.content@ }
    }
}

/// Request payload of a chat completion.
///
/// The temperature is held as the bit pattern of its IEEE 754
/// single-precision value, so that it travels through unchanged.
#[derive(Debug, Clone)]
pub struct ChatRequest {
    pub model: String,
    pub messages: Vec<Message>,
    pub max_tokens: Option<u32>,
    pub temperature_bits: Option<u32>,
}

/// A request payload as a mathematical value.
pub struct ChatRequestView {
    pub model: Seq<char>,
    pub messages: Seq<MessageView>,
    pub max_tokens: Option<u32>,
    pub temperature_bits: Option<u32>,
}

impl View for ChatRequest {
    type V = ChatRequestView;

    open spec fn view(&self) -> ChatRequestView {
        ChatRequestView {
            model: self.model@,
            messages: Seq::new(self.messages@.len(), |i: int| self.messages@[i]@),
            max_tokens: self.max_tokens,
            temperature_bits: self.temperature_bits,
        }
    }
}

/// The generated text within a choice.
#[derive(Debug, Clone)]
pub struct MessageResponse {
    pub content: String,
}

impl View for MessageResponse {
    type V = Seq<char>;

    open spec fn view(&self) -> Seq<char> {
        self.content@
    }
}

/// A single completion offered by the provider.
#[derive(Debug, Clone)]
pub struct Choice {
    pub message: MessageResponse,
}

impl View for Choice {
    type V = Seq<char>;

    open spec fn view(&self) -> Seq<char> {
        self.message@
    }
}

/// An error that the provider reports inside a response body.
#[derive(Debug, Clone)]
pub struct ApiError {
    pub message: String,
    pub error_type: String,
    pub code: Option<String>,
}

/// A provider error as a mathematical value.
pub struct ApiErrorView {
    pub message: Seq<char>,
    pub error_type: Seq<char>,
    pub code: Option<Seq<char>>,
}

impl View for ApiError {
    type V = ApiErrorView;

    open spec fn view(&self) -> ApiErrorView {
        ApiErrorView {
            message: self.message@,
            error_type: self.error_type@,
            code: match self.code {
                Some(code) => Some(code@),
                None => None,
            },
        }
    }
}

/// A decoded response body.
#[derive(Debug, Clone)]
pub struct ChatResponse {
    pub choices: Vec<Choice>,
    pub error: Option<ApiError>,
}

/// A response body as a mathematical value: the text of each choice, in
/// order, and the provider error if there is one.
pub struct ChatResponseView {
    pub choices: Seq<Seq<char>>,
    pub error: Option<ApiErrorView>,
}

impl View for ChatResponse {
    type V = ChatResponseView;

    open spec fn view(&self) -> ChatResponseView {
        ChatResponseView {
            choices: Seq::new(self.choices@.len(), |i: int| self.choices@[i]@),
            error: match self.error {
                Some(error) => Some(error@),
                None => None,
            },
        }
    }
}

/// The view of a call's result.
pub open spec fn result_view(result: Result<String, DSRSError>) -> Result<Seq<char>, Failure> {
    match result {
        Ok(text) => Ok(text@),
        Err(error) => Err(error@),
    }
}

/// The description of a provider error whose code, if any, has already been
/// written out in quotes.
pub open spec fn description_with(
    message: Seq<char>,
    error_type: Seq<char>,
    quoted_code: Option<Seq<char>>,
) -> Seq<char> {
    message + " (type: "@ + error_type + ", code: "@ + match quoted_code {
        Some(code) => "Some("@ + code + ")"@,
        None => "None"@,
    } + ")"@
}

impl ApiErrorView {
    /// The one-line description of this provider error.
    pub open spec fn description(self) -> Seq<char> {
        description_with(
            self.message,
            self.error_type,
            match self.code {
                Some(code) => Some(debug_text(code)),
                None => None,
            },
        )
    }
}

/// Describes a provider error from its parts; `quoted_code` is the code as
/// it is written out in quotes.
pub fn render_api_error(message: &str, error_type: &str, quoted_code: Option<&str>) -> (text:
    String)
    ensures
        text@ == description_with(
            message@,
            error_type@,
            match quoted_code {
                Some(code) => Some(code@),
                None => None,
            },
        ),
{
    let mut text = String::from_str(message);
    text.append(" (type: ");
    text.append(error_type);
    text.append(", code: ");
    match quoted_code {
        Some(code) => {
            text.append("Some(");
            text.append(code);
            text.append(")");
        },
        None => {
            text.append("None");
        },
    }
    text.append(")");
    text
}

impl ApiError {
    /// Describes this provider error in one line.
    pub fn describe(&self) -> (text: String)
        ensures
            text@ == self@.description(),
    {
        match &self.code {
            Some(code) => {
                let code_text = quoted(code.as_str());
                render_api_error(
                    self.message.as_str(),
                    self.error_type.as_str(),
                    Some(code_text.as_str()),
                )
            },
            None => render_api_error(self.message.as_str(), self.error_type.as_str(), None),
        }
    }
}

/// Client for providers that speak the OpenAI chat-completion protocol.
///
/// It keeps nothing between calls but the timeout that its transport is to
/// observe; credential and endpoint are resolved anew for each call.
#[derive(Debug)]
pub struct LLMClient {
    timeout_secs: u64,
}

impl LLMClient {
    /// Seconds after which a request of this client is given up.
    pub closed spec fn timeout(&self) -> u64 {
        self.timeout_secs
    }

    /// Creates a client with the standard request timeout.
    pub fn new() -> (client: Self)
        ensures
            client.timeout() == REQUEST_TIMEOUT_SECS,
    {
        LLMClient { timeout_secs: REQUEST_TIMEOUT_SECS }
    }

    /// Seconds after which a request of this client is given up.
    pub fn timeout_secs(&self) -> (secs: u64)
        ensures
            secs == self.timeout(),
    {
        self.timeout_secs
    }

    /// Sends a prompt and returns the completion.
    ///
    /// `env` is what the environment holds at the time of the call, and
    /// `transport` performs the one exchange with the provider. Where the
    /// configuration or the prompt is at fault the call fails without the
    /// transport being of any influence; otherwise the transport is handed
    /// the prepared request, and what it comes back with decides the result.
    pub fn complete<T: FnOnce(PostRequest) -> Exchange>(
        &self,
        env: &Environment,
        prompt: &str,
        model: &str,
        max_tokens: Option<u32>,
        temperature_bits: Option<u32>,
        transport: T,
    ) -> (result: Result<String, DSRSError>)
        requires
            forall|request: PostRequest|
                prepared(self.timeout(), env@, prompt@, model@, max_tokens, temperature_bits)
                    == Ok::<_, Failure>(request@) ==> call_requires(transport, (request,)),
        ensures
            (match prepared(self.timeout(), env@, prompt@, model@, max_tokens, temperature_bits) {
                Err(failure) => result_view(result) == Err::<Seq<char>, _>(failure),
                Ok(expected) => exists|request: PostRequest, exchange: Exchange|
                    request@ == expected && call_ensures(transport, (request,), exchange)
                        && result_view(result) == outcome(exchange@),
            }),
    {
        let request = match prepare(
            self.timeout_secs,
            env,
            prompt,
            model,
            max_tokens,
            temperature_bits,
        ) {
            Ok(request) => request,
            Err(error) => {
                return Err(error);
            },
        };
        let exchange = transport(request);
        interpret(&exchange)
    }
}

impl Default for LLMClient {
    fn default() -> (client: Self)
        ensures
            client.timeout() == REQUEST_TIMEOUT_SECS,
    {
        LLMClient::new()
    }
}

} // verus!
