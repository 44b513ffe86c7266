use dsrs::config::{Environment, Variable};
use dsrs::errors::DSRSError;
use dsrs::limits::{MAX_PROMPT_LENGTH, REQUEST_TIMEOUT_SECS};
use dsrs::request::{build_request, prepare, validate_prompt};
use dsrs::request::{AUTHORIZATION_HEADER, BEARER_PREFIX, CONTENT_TYPE_HEADER, JSON_CONTENT_TYPE};

fn gone() -> Variable {
    Variable::Absent("environment variable not found".to_string())
}

fn keyed_env() -> Environment {
    Environment {
        api_key: Variable::Present("sk-test".to_string()),
        legacy_api_key: gone(),
        endpoint: gone(),
        legacy_endpoint: gone(),
    }
}

#[test]
fn limits_have_their_values() {
    assert_eq!(MAX_PROMPT_LENGTH, 32000);
    assert_eq!(REQUEST_TIMEOUT_SECS, 30);
}

#[test]
fn header_constants() {
    assert_eq!(AUTHORIZATION_HEADER, "Authorization");
    assert_eq!(CONTENT_TYPE_HEADER, "Content-Type");
    assert_eq!(JSON_CONTENT_TYPE, "application/json");
    assert_eq!(BEARER_PREFIX, "Bearer ");
}

#[test]
fn prompt_at_the_limit_passes() {
    assert!(validate_prompt(&"a".repeat(32000)).is_ok());
    assert!(validate_prompt("").is_ok());
}

#[test]
fn prompt_one_over_the_limit_fails() {
    match validate_prompt(&"a".repeat(32001)) {
        Err(DSRSError::PromptTooLong(len, max)) => {
            assert_eq!(len, 32001);
            assert_eq!(max, 32000);
        }
        other => panic!("expected PromptTooLong, got: {:?}", other),
    }
}

#[test]
fn prompt_length_counts_characters() {
    let prompt = "\u{e9}".repeat(32000);
    assert_eq!(prompt.len(), 64000);
    assert!(validate_prompt(&prompt).is_ok());
    let longer = "\u{e9}".repeat(32001);
    match validate_prompt(&longer) {
        Err(DSRSError::PromptTooLong(len, max)) => {
            assert_eq!(len, 32001);
            assert_eq!(max, 32000);
        }
        other => panic!("expected PromptTooLong, got: {:?}", other),
    }
}

#[test]
fn request_holds_one_user_message_with_the_raw_prompt() {
    let request = build_request("  Hello\n", "gpt-4", Some(500), Some(0.7f32.to_bits()));
    assert_eq!(request.model, "gpt-4");
    assert_eq!(request.messages.len(), 1);
    assert_eq!(request.messages[0].role, "user");
    assert_eq!(request.messages[0].content, "  Hello\n");
    assert_eq!(request.max_tokens, Some(500));
    assert_eq!(request.temperature_bits.map(f32::from_bits), Some(0.7f32));
}

#[test]
fn options_are_not_clamped() {
    let request = build_request("p", "m", Some(u32::MAX), Some(1.0e9f32.to_bits()));
    assert_eq!(request.max_tokens, Some(u32::MAX));
    assert_eq!(request.temperature_bits.map(f32::from_bits), Some(1.0e9f32));
    let bare = build_request("p", "m", None, None);
    assert_eq!(bare.max_tokens, None);
    assert_eq!(bare.temperature_bits, None);
}

#[test]
fn prepared_request_carries_headers_endpoint_and_timeout() {
    let request = prepare(30, &keyed_env(), "hi", "gpt-3.5-turbo", Some(100), None).unwrap();
    assert_eq!(request.endpoint, "https://api.openai.com/v1/chat/completions");
    assert_eq!(request.authorization, "Bearer sk-test");
    assert_eq!(request.content_type, "application/json");
    assert_eq!(request.timeout_secs, 30);
    assert_eq!(request.body.model, "gpt-3.5-turbo");
    assert_eq!(request.body.messages.len(), 1);
    assert_eq!(request.body.messages[0].content, "hi");
    assert_eq!(request.body.max_tokens, Some(100));
}

#[test]
fn prepare_reports_missing_key_before_prompt_length() {
    let env = Environment {
        api_key: gone(),
        legacy_api_key: gone(),
        endpoint: gone(),
        legacy_endpoint: gone(),
    };
    for prompt in ["short".to_string(), "a".repeat(35000)] {
        match prepare(30, &env, &prompt, "m", None, None) {
            Err(DSRSError::ConfigError(detail)) => assert_eq!(
                detail,
                "LLM_API_KEY or OPENAI_API_KEY not set: environment variable not found"
            ),
            other => panic!("expected ConfigError, got: {:?}", other),
        }
    }
}

#[test]
fn prepare_rejects_long_prompt_when_key_is_set() {
    match prepare(30, &keyed_env(), &"a".repeat(35000), "m", None, None) {
        Err(DSRSError::PromptTooLong(len, max)) => {
            assert_eq!(len, 35000);
            assert_eq!(max, 32000);
        }
        other => panic!("expected PromptTooLong, got: {:?}", other),
    }
}
