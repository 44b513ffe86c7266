//! What holds of every call, stated over the models of the other modules.

use vstd::prelude::*;
use crate::client::{ApiErrorView, ChatResponseView};
use crate::config::{resolved_api_key, resolved_endpoint, EnvironmentView, VariableView};
use crate::config::DEFAULT_LLM_ENDPOINT;
use crate::errors::Failure;
use crate::protocol::{accepts, transition, ActionView, CallState, EventView};
use crate::request::{prepared, prompt_failure};
use crate::response::{outcome, reading, status_failed, BodyView, ExchangeView};
use crate::status::{is_success, reason_phrase};
use crate::text::decimal;

verus! {

/// What a call amounts to, given what the transport would come back with:
/// the failure of the preparation if there is one, else the outcome of the
/// exchange.
pub open spec fn completion(
    timeout_secs: u64,
    env: EnvironmentView,
    prompt: Seq<char>,
    model: Seq<char>,
    max_tokens: Option<u32>,
    temperature_bits: Option<u32>,
    exchange: ExchangeView,
) -> Result<Seq<char>, Failure> {
    match prepared(timeout_secs, env, prompt, model, max_tokens, temperature_bits) {
        Err(failure) => Err(failure),
        Ok(_) => outcome(exchange),
    }
}

/// The events that an exchange makes the driver report once the request is
/// sent, fed to the machine one after the other: the result that the machine
/// finishes with.
pub open spec fn driven(timeout_secs: u64, exchange: ExchangeView) -> Result<Seq<char>, Failure> {
    match exchange {
        ExchangeView::Failed(reason) => finished_with(
            transition(timeout_secs, CallState::Sent, EventView::TransportFailed(reason)).1,
        ),
        ExchangeView::Answered { status, body } => {
            let after_status = transition(timeout_secs, CallState::Sent, EventView::Status(status));
            if after_status.1 is ReadBody {
                finished_with(
                    transition(
                        timeout_secs,
                        after_status.0,
                        match body {
                            BodyView::Decoded(response) => EventView::BodyDecoded(response),
                            BodyView::Undecodable(reason) => EventView::BodyUndecodable(reason),
                        },
                    ).1,
                )
            } else {
                finished_with(after_status.1)
            }
        },
    }
}

/// The result that a finishing action carries.
pub open spec fn finished_with(action: ActionView) -> Result<Seq<char>, Failure>
    recommends
        action is Finish,
{
    action->Finish_0
}

/// A prompt of at most 32000 characters passes validation: with a key at
/// hand, the call gets as far as a request that holds the prompt unchanged.
pub proof fn short_prompt_is_accepted(
    timeout_secs: u64,
    env: EnvironmentView,
    prompt: Seq<char>,
    model: Seq<char>,
    max_tokens: Option<u32>,
    temperature_bits: Option<u32>,
)
    requires
        prompt.len() <= 32000,
    ensures
        prompt_failure(prompt) is None,
        resolved_api_key(env) is Ok ==> (prepared(
            timeout_secs,
            env,
            prompt,
            model,
            max_tokens,
            temperature_bits,
        ) matches Ok(request) && request.body.messages.len() == 1
            && request.body.messages[0].content == prompt),
{
}

/// A prompt of more than 32000 characters is rejected with its length and
/// the limit, whatever the transport would have come back with, and the
/// machine finishes without asking for anything to be sent.
pub proof fn long_prompt_is_rejected_unsent(
    timeout_secs: u64,
    env: EnvironmentView,
    prompt: Seq<char>,
    model: Seq<char>,
    max_tokens: Option<u32>,
    temperature_bits: Option<u32>,
    exchange: ExchangeView,
)
    requires
        prompt.len() > 32000,
        resolved_api_key(env) is Ok,
    ensures
        completion(timeout_secs, env, prompt, model, max_tokens, temperature_bits, exchange) == Err::<
            Seq<char>,
            _,
        >(Failure::PromptTooLong(prompt.len(), 32000)),
        transition(
            timeout_secs,
            CallState::Start,
            EventView::Call { env, prompt, model, max_tokens, temperature_bits },
        ) == (
            CallState::Failed,
            ActionView::Finish(Err(Failure::PromptTooLong(prompt.len(), 32000))),
        ),
{
}

/// With neither key variable set the call fails with a configuration
/// failure, however long the prompt is and whatever the transport would have
/// come back with; nothing is sent.
pub proof fn missing_key_is_reported_first(
    timeout_secs: u64,
    env: EnvironmentView,
    prompt: Seq<char>,
    model: Seq<char>,
    max_tokens: Option<u32>,
    temperature_bits: Option<u32>,
    exchange: ExchangeView,
)
    requires
        env.api_key is Absent,
        env.legacy_api_key is Absent,
    ensures
        completion(timeout_secs, env, prompt, model, max_tokens, temperature_bits, exchange)
            matches Err(failure) && failure is Config,
        transition(
            timeout_secs,
            CallState::Start,
            EventView::Call { env, prompt, model, max_tokens, temperature_bits },
        ).1 matches ActionView::Finish(result) && result matches Err(failure) && failure is Config,
{
}

/// A status outside the success range fails the call with an API failure
/// whose detail starts with `HTTP` and the number of the status; the body
/// plays no part.
pub proof fn failed_status_is_reported_with_its_number(status: u16, body: BodyView)
    requires
        !is_success(status),
    ensures
        outcome(ExchangeView::Answered { status, body }) == Err::<Seq<char>, _>(
            status_failed(status),
        ),
        status_failed(status) matches Failure::Api(detail) && ("HTTP "@ + decimal(status as nat)
            + " "@).is_prefix_of(detail),
{
    let tail = match reason_phrase(status) {
        Some(p) => p,
        None => "<unknown status code>"@,
    };
    let head = "HTTP "@ + decimal(status as nat) + " "@;
    assert(status_failed(status)->Api_0 =~= head + tail);
}

/// A call sends at most once: only the first step of a call can ask for a
/// request to be sent, no step leads back to the start, and a finished call
/// accepts no further event.
pub proof fn nothing_is_sent_twice(timeout_secs: u64, state: CallState, event: EventView)
    requires
        accepts(state, event),
    ensures
        transition(timeout_secs, state, event).0 != CallState::Start,
        transition(timeout_secs, state, event).1 is Send ==> state == CallState::Start,
        transition(timeout_secs, state, event).1 is Finish <==> (transition(
            timeout_secs,
            state,
            event,
        ).0 == CallState::Done || transition(timeout_secs, state, event).0 == CallState::Failed),
        forall|later: EventView|
            transition(timeout_secs, state, event).1 is Finish ==> !accepts(
                transition(timeout_secs, state, event).0,
                later,
            ),
{
}

/// An error reported inside the body decides the result; the choices that
/// come with it are not looked at.
pub proof fn provider_error_outranks_choices(
    error: ApiErrorView,
    choices: Seq<Seq<char>>,
    other_choices: Seq<Seq<char>>,
)
    ensures
        reading(ChatResponseView { choices, error: Some(error) }) == Err::<Seq<char>, _>(
            Failure::Api(error.description()),
        ),
        reading(ChatResponseView { choices, error: Some(error) }) == reading(
            ChatResponseView { choices: other_choices, error: Some(error) },
        ),
{
}

/// Without a reported error the result is the text of the first choice, as
/// it is; further choices are not looked at.
pub proof fn first_choice_is_returned_unchanged(first: Seq<char>, rest: Seq<Seq<char>>)
    ensures
        reading(ChatResponseView { choices: seq![first] + rest, error: None }) == Ok::<
            _,
            Failure,
        >(first),
{
}

/// With neither endpoint variable set, the request goes to the built-in
/// default endpoint.
pub proof fn endpoint_falls_back_to_default(
    timeout_secs: u64,
    env: EnvironmentView,
    prompt: Seq<char>,
    model: Seq<char>,
    max_tokens: Option<u32>,
    temperature_bits: Option<u32>,
)
    requires
        env.endpoint is Absent,
        env.legacy_endpoint is Absent,
    ensures
        resolved_endpoint(env) == DEFAULT_LLM_ENDPOINT@,
        prepared(timeout_secs, env, prompt, model, max_tokens, temperature_bits) matches Ok(
            request,
        ) ==> request.endpoint == DEFAULT_LLM_ENDPOINT@,
{
}

/// Each of the two lookups takes the first variable that is set: the older
/// variable counts only where the newer one is not set.
pub proof fn newer_variable_wins(env: EnvironmentView)
    ensures
        env.api_key matches VariableView::Present(key) ==> resolved_api_key(env) == Ok::<
            _,
            Failure,
        >(key),
        env.endpoint matches VariableView::Present(url) ==> resolved_endpoint(env) == url,
        env.api_key is Absent ==> (env.legacy_api_key matches VariableView::Present(key)
            ==> resolved_api_key(env) == Ok::<_, Failure>(key)),
        env.endpoint is Absent ==> (env.legacy_endpoint matches VariableView::Present(url)
            ==> resolved_endpoint(env) == url),
{
}

/// No failure gives away the key or the endpoint: two calls that differ
/// only in the key and the endpoint they resolve to, fail alike or not at
/// all.
pub proof fn failures_keep_the_secrets(
    timeout_secs: u64,
    env: EnvironmentView,
    other_env: EnvironmentView,
    prompt: Seq<char>,
    model: Seq<char>,
    max_tokens: Option<u32>,
    temperature_bits: Option<u32>,
    exchange: ExchangeView,
)
    requires
        resolved_api_key(env) is Ok,
        resolved_api_key(other_env) is Ok,
    ensures
        completion(timeout_secs, env, prompt, model, max_tokens, temperature_bits, exchange)
            == completion(
            timeout_secs,
            other_env,
            prompt,
            model,
            max_tokens,
            temperature_bits,
            exchange,
        ),
{
}

/// Driving the machine step by step gives what the call gives in one go.
pub proof fn machine_agrees_with_call(
    timeout_secs: u64,
    env: EnvironmentView,
    prompt: Seq<char>,
    model: Seq<char>,
    max_tokens: Option<u32>,
    temperature_bits: Option<u32>,
    exchange: ExchangeView,
)
    ensures
        ({
            let first = transition(
                timeout_secs,
                CallState::Start,
                EventView::Call { env, prompt, model, max_tokens, temperature_bits },
            );
            let result = completion(
                timeout_secs,
                env,
                prompt,
                model,
                max_tokens,
                temperature_bits,
                exchange,
            );
            if first.1 is Send {
                first.0 == CallState::Sent && driven(timeout_secs, exchange) == result
            } else {
                first.1 == ActionView::Finish(result)
            }
        }),
{
}

} // verus!
