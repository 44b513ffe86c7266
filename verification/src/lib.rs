//! A client core for OpenAI-compatible chat-completion endpoints.

pub mod client;
pub mod config;
pub mod errors;
pub mod laws;
pub mod limits;
pub mod protocol;
pub mod request;
pub mod response;
pub mod status;
pub mod text;

pub use client::LLMClient;
pub use errors::DSRSError;
