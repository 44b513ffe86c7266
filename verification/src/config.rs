//! Where the credential and the endpoint of a call come from.
//!
//! Both are looked up anew for every call. The caller reads the four
//! environment variables named here and hands over what it found.

use vstd::prelude::*;
use crate::errors::{DSRSError, Failure};
use crate::text::joined;

verus! {

/// Name of the variable that holds the API key.
pub const API_KEY_VAR: &'static str = "LLM_API_KEY";

/// Name of the older variable that is consulted when `API_KEY_VAR` gives nothing.
pub const LEGACY_API_KEY_VAR: &'static str = "OPENAI_API_KEY";

/// Name of the variable that holds the endpoint URL.
pub const ENDPOINT_VAR: &'static str = "LLM_ENDPOINT";

/// Name of the older variable that is consulted when `ENDPOINT_VAR` gives nothing.
pub const LEGACY_ENDPOINT_VAR: &'static str = "OPENAI_API_ENDPOINT";

/// Endpoint used when neither endpoint variable gives one.
pub const DEFAULT_LLM_ENDPOINT: &'static str = "https://api.openai.com/v1/chat/completions";

/// What looking up one environment variable gave.
#[derive(Debug, Clone)]
pub enum Variable {
    /// The variable holds this value.
    Present(String),
    /// The lookup gave no value; the text says why.
    Absent(String),
}

/// A looked-up variable as a mathematical value.
pub enum VariableView {
    Present(Seq<char>),
    Absent(Seq<char>),
}

impl View for Variable {
    type V = VariableView;

    open spec fn view(&self) -> VariableView {
        match *self {
            Variable::Present(value) => VariableView::Present(value@),
            Variable::Absent(reason) => VariableView::Absent(reason@),
        }
    }
}

/// The four lookups a call depends on, as found at call time.
#[derive(Debug, Clone)]
pub struct Environment {
    /// `LLM_API_KEY`
    pub api_key: Variable,
    /// `OPENAI_API_KEY`
    pub legacy_api_key: Variable,
    /// `LLM_ENDPOINT`
    pub endpoint: Variable,
    /// `OPENAI_API_ENDPOINT`
    pub legacy_endpoint: Variable,
}

/// An environment as a mathematical value.
pub struct EnvironmentView {
    pub api_key: VariableView,
    pub legacy_api_key: VariableView,
    pub endpoint: VariableView,
    pub legacy_endpoint: VariableView,
}

impl View for Environment {
    type V = EnvironmentView;

    open spec fn view(&self) -> EnvironmentView {
        EnvironmentView {
            api_key: self.api_key@,
            legacy_api_key: self.legacy_api_key@,
            endpoint: self.endpoint@,
            legacy_endpoint: self.legacy_endpoint@,
        }
    }
}

/// The API key of a call: the first of the two key variables that is set.
/// With neither set the call fails, and the failure says why the second
/// lookup gave nothing.
pub open spec fn resolved_api_key(env: EnvironmentView) -> Result<Seq<char>, Failure> {
    match env.api_key {
        VariableView::Present(key) => Ok(key),
        VariableView::Absent(_) => match env.legacy_api_key {
            VariableView::Present(key) => Ok(key),
            VariableView::Absent(reason) => Err(
                Failure::Config("LLM_API_KEY or OPENAI_API_KEY not set: "@ + reason),
            ),
        },
    }
}

/// The endpoint of a call: the first of the two endpoint variables that is
/// set, else the built-in default.
pub open spec fn resolved_endpoint(env: EnvironmentView) -> Seq<char> {
    match env.endpoint {
        VariableView::Present(url) => url,
        VariableView::Absent(_) => match env.legacy_endpoint {
            VariableView::Present(url) => url,
            VariableView::Absent(_) => DEFAULT_LLM_ENDPOINT@,
        },
    }
}

/// Resolves the API key from what the environment gave.
pub fn resolve_api_key(env: &Environment) -> (key: Result<String, DSRSError>)
    ensures
        (match resolved_api_key(env@) {
            Ok(expected) => key matches Ok(k) && k@ == expected,
            Err(failure) => key matches Err(e) && e@ == failure,
        }),
{
    match &env.api_key {
        Variable::Present(key) => Ok(key.clone()),
        Variable::Absent(_) => match &env.legacy_api_key {
            Variable::Present(key) => Ok(key.clone()),
            Variable::Absent(reason) => Err(
                DSRSError::ConfigError(
                    joined("LLM_API_KEY or OPENAI_API_KEY not set: ", reason.as_str()),
                ),
            ),
        },
    }
}

/// Resolves the endpoint from what the environment gave.
pub fn resolve_endpoint(env: &Environment) -> (url: String)
    ensures
        url@ == resolved_endpoint(env@),
{
    match &env.endpoint {
        Variable::Present(url) => url.clone(),
        Variable::Absent(_) => match &env.legacy_endpoint {
            Variable::Present(url) => url.clone(),
            Variable::Absent(_) => String::from_str(DEFAULT_LLM_ENDPOINT),
        },
    }
}

} // verus!
