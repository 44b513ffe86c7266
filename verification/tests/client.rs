use dsrs::client::{ApiError, ChatResponse, Choice, LLMClient, MessageResponse};
use dsrs::config::{Environment, Variable};
use dsrs::errors::DSRSError;
use dsrs::request::PostRequest;
use dsrs::response::{Body, Exchange};

fn gone() -> Variable {
    Variable::Absent("environment variable not found".to_string())
}

fn env_with_key(key: &str) -> Environment {
    Environment {
        api_key: Variable::Present(key.to_string()),
        legacy_api_key: gone(),
        endpoint: gone(),
        legacy_endpoint: gone(),
    }
}

fn env_without_key() -> Environment {
    Environment { api_key: gone(), legacy_api_key: gone(), endpoint: gone(), legacy_endpoint: gone() }
}

fn answered(status: u16, response: ChatResponse) -> Exchange {
    Exchange::Answered { status, body: Body::Decoded(response) }
}

fn says(text: &str) -> ChatResponse {
    ChatResponse {
        choices: vec![Choice { message: MessageResponse { content: text.to_string() } }],
        error: None,
    }
}

#[test]
fn test_complete_with_long_prompt() {
    // A key is set, so that the call gets to the prompt length check
    let env = env_with_key("test-key-for-prompt-length-validation");

    let client = LLMClient::new();
    let long_prompt = "a".repeat(35000); // Exceeds 32k limit
    let mut sent = 0;
    let result = client.complete(&env, &long_prompt, "gpt-3.5-turbo", Some(100), None, |_request| {
        sent += 1;
        answered(200, says("unexpected"))
    });

    match result {
        Err(DSRSError::PromptTooLong(len, max)) => {
            assert_eq!(len, 35000);
            assert_eq!(max, 32000);
        }
        other => {
            panic!("Expected PromptTooLong error, got: {:?}", other);
        }
    }
    assert_eq!(sent, 0);
}

#[test]
fn new_client_has_the_standard_timeout() {
    assert_eq!(LLMClient::new().timeout_secs(), 30);
    assert_eq!(LLMClient::default().timeout_secs(), 30);
}

#[test]
fn prompt_at_the_limit_is_sent_once() {
    let client = LLMClient::new();
    let prompt = "a".repeat(32000);
    let mut sent = 0;
    let result = client.complete(&env_with_key("k"), &prompt, "m", None, None, |request| {
        sent += 1;
        assert_eq!(request.body.messages[0].content.len(), 32000);
        answered(200, says("fine"))
    });
    assert_eq!(result.unwrap(), "fine");
    assert_eq!(sent, 1);
}

#[test]
fn missing_key_with_short_prompt_is_a_config_error() {
    let client = LLMClient::new();
    let mut sent = 0;
    let result = client.complete(&env_without_key(), "short", "m", None, None, |_request| {
        sent += 1;
        answered(200, says("unexpected"))
    });
    match result {
        Err(DSRSError::ConfigError(detail)) => assert_eq!(
            detail,
            "LLM_API_KEY or OPENAI_API_KEY not set: environment variable not found"
        ),
        other => panic!("expected ConfigError, got: {:?}", other),
    }
    assert_eq!(sent, 0);
}

#[test]
fn missing_key_is_reported_before_a_long_prompt() {
    let client = LLMClient::new();
    let mut sent = 0;
    let result = client.complete(&env_without_key(), &"a".repeat(35000), "m", None, None, |_request| {
        sent += 1;
        answered(200, says("unexpected"))
    });
    assert!(matches!(result, Err(DSRSError::ConfigError(_))));
    assert_eq!(sent, 0);
}

#[test]
fn http_429_fails_without_retry() {
    let client = LLMClient::new();
    let mut sent = 0;
    let result = client.complete(&env_with_key("k"), "hi", "m", None, None, |_request| {
        sent += 1;
        answered(429, says("unexpected"))
    });
    match result {
        Err(DSRSError::ApiError(detail)) => {
            assert!(detail.contains("429"));
            assert_eq!(detail, "HTTP 429 Too Many Requests");
        }
        other => panic!("expected ApiError, got: {:?}", other),
    }
    assert_eq!(sent, 1);
}

#[test]
fn empty_choices_give_an_api_error() {
    let client = LLMClient::new();
    let result = client.complete(&env_with_key("k"), "hi", "m", None, None, |_request| {
        answered(200, ChatResponse { choices: vec![], error: None })
    });
    match result {
        Err(DSRSError::ApiError(detail)) => assert_eq!(detail, "no response choices returned"),
        other => panic!("expected ApiError, got: {:?}", other),
    }
}

#[test]
fn embedded_error_is_reported_instead_of_choices() {
    let client = LLMClient::new();
    let result = client.complete(&env_with_key("k"), "hi", "m", None, None, |_request| {
        let mut response = says("the choices are ignored");
        response.error = Some(ApiError {
            message: "Rate limited".to_string(),
            error_type: "rate_limit".to_string(),
            code: Some("429".to_string()),
        });
        answered(200, response)
    });
    match result {
        Err(DSRSError::ApiError(detail)) => {
            assert_eq!(detail, "Rate limited (type: rate_limit, code: Some(\"429\"))");
            assert!(!detail.contains("ignored"));
        }
        other => panic!("expected ApiError, got: {:?}", other),
    }
}

#[test]
fn hello_comes_back_unmodified() {
    let client = LLMClient::new();
    let result = client.complete(&env_with_key("k"), "hi", "m", None, None, |_request| {
        answered(200, says("hello"))
    });
    assert_eq!(result.unwrap(), "hello");
}

#[test]
fn request_target_is_the_default_endpoint_without_endpoint_variables() {
    let client = LLMClient::new();
    let mut seen: Option<PostRequest> = None;
    let result = client.complete(
        &env_with_key("sk-secret"),
        "What is Rust?",
        "gpt-4",
        Some(500),
        Some(0.25f32.to_bits()),
        |request| {
            seen = Some(request);
            answered(200, says("a language"))
        },
    );
    assert_eq!(result.unwrap(), "a language");
    let request = seen.unwrap();
    assert_eq!(request.endpoint, "https://api.openai.com/v1/chat/completions");
    assert_eq!(request.authorization, "Bearer sk-secret");
    assert_eq!(request.content_type, "application/json");
    assert_eq!(request.timeout_secs, 30);
    assert_eq!(request.body.model, "gpt-4");
    assert_eq!(request.body.messages.len(), 1);
    assert_eq!(request.body.messages[0].role, "user");
    assert_eq!(request.body.messages[0].content, "What is Rust?");
    assert_eq!(request.body.max_tokens, Some(500));
    assert_eq!(request.body.temperature_bits.map(f32::from_bits), Some(0.25f32));
}

#[test]
fn endpoint_variables_are_read_at_each_call() {
    let client = LLMClient::new();
    let mut env = env_with_key("k");
    let mut first = String::new();
    let _ = client.complete(&env, "hi", "m", None, None, |request| {
        first = request.endpoint;
        answered(200, says("x"))
    });
    env.legacy_endpoint = Variable::Present("http://localhost:8080/v1".to_string());
    let mut second = String::new();
    let _ = client.complete(&env, "hi", "m", None, None, |request| {
        second = request.endpoint;
        answered(200, says("x"))
    });
    assert_eq!(first, "https://api.openai.com/v1/chat/completions");
    assert_eq!(second, "http://localhost:8080/v1");
}

#[test]
fn transport_failure_is_a_network_error_without_the_key() {
    let client = LLMClient::new();
    let result = client.complete(&env_with_key("sk-secret"), "hi", "m", None, None, |_request| {
        Exchange::Failed("connection refused".to_string())
    });
    match result {
        Err(DSRSError::NetworkError(detail)) => {
            assert_eq!(detail, "Request failed: connection refused");
            assert!(!detail.contains("sk-secret"));
        }
        other => panic!("expected NetworkError, got: {:?}", other),
    }
}
