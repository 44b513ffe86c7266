//! The closed set of failures a completion call can end in.

use vstd::prelude::*;
use crate::text::{decimal, decimal_string};

verus! {

/// Why a completion call failed.
#[derive(Debug)]
pub enum DSRSError {
    /// The prompt has more characters than allowed: actual length, then the limit.
    PromptTooLong(usize, usize),
    /// A response arrived but was unsuccessful or not what was expected.
    ApiError(String),
    /// No response arrived: the transport itself failed.
    NetworkError(String),
    /// No credential could be resolved.
    ConfigError(String),
}

/// A failure as a mathematical value.
pub enum Failure {
    PromptTooLong(nat, nat),
    Api(Seq<char>),
    Network(Seq<char>),
    Config(Seq<char>),
}

impl Failure {
    /// The human-readable message of this failure.
    pub open spec fn message(self) -> Seq<char> {
        match self {
            Failure::PromptTooLong(len, max) => "Prompt too long: "@ + decimal(len) + " chars (max: "@
                + decimal(max) + ")"@,
            Failure::Api(detail) => "API error: "@ + detail,
            Failure::Network(detail) => "Network error: "@ + detail,
            Failure::Config(detail) => "Configuration error: "@ + detail,
        }
    }
}

impl View for DSRSError {
    type V = Failure;

    open spec fn view(&self) -> Failure {
        match *self {
            DSRSError::PromptTooLong(len, max) => Failure::PromptTooLong(len as nat, max as nat),
            DSRSError::ApiError(detail) => Failure::Api(detail@),
            DSRSError::NetworkError(detail) => Failure::Network(detail@),
            DSRSError::ConfigError(detail) => Failure::Config(detail@),
        }
    }
}

impl DSRSError {
    /// Renders the failure as the message shown to a user.
    pub fn to_string(&self) -> (text: String)
        ensures
            text@ == self@.message(),
    {
        match self {
            DSRSError::PromptTooLong(len, max) => {
                let mut text = String::from_str("Prompt too long: ");
                let len_text = decimal_string(*len);
                text.append(len_text.as_str());
                text.append(" chars (max: ");
                let max_text = decimal_string(*max);
                text.append(max_text.as_str());
                text.append(")");
                text
            },
            DSRSError::ApiError(detail) => {
                let mut text = String::from_str("API error: ");
                text.append(detail.as_str());
                text
            },
            DSRSError::NetworkError(detail) => {
                let mut text = String::from_str("Network error: ");
                text.append(detail.as_str());
                text
            },
            DSRSError::ConfigError(detail) => {
                let mut text = String::from_str("Configuration error: ");
                text.append(detail.as_str());
                text
            },
        }
    }
}

} // verus!
