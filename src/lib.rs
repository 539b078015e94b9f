//! One chat-completion model in front of several text-generation backends.
//!
//! Each backend adapter turns a [`ChatCompletionRequest`] into the JSON body
//! that its service expects and turns the service's JSON answer back into a
//! [`ChatCompletionResponse`]. The HTTP exchange itself is left to the caller,
//! which reports how it went through [`HttpOutcome`].

pub mod chat;
pub mod error;
pub mod json;
pub mod wire;
pub mod transport;
pub mod providers;

pub use chat::{
    ChatChoice, ChatCompletionRequest, ChatCompletionResponse, ChatMessage, ChatUsage, CoreError,
};
pub use error::LlmApiError;
pub use json::Json;
pub use providers::{Anthropic, DeepSeek, Gemini, Groq, Ollama, OpenAI, Together, XAI};
pub use transport::HttpOutcome;

