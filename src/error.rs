use vstd::prelude::*;

use crate::chat::CoreError;

verus! {

/// Every way a chat completion can fail.
#[derive(Debug, Clone, PartialEq, Eq)]
pub enum LlmApiError {
    CoreError(CoreError),
    ProviderError(String),
    /// The exchange did not complete, or the service answered with a
    /// status outside the success range; carries the transport's message or
    /// the service's own error text.
    NetworkError(String),
    AuthError(String),
    ConfigError(String),
    SerializationError(String),
    /// The answer could not be read as the shape the backend promises.
    DeserializationError(String),
}

impl LlmApiError {
    /// A short description, prefixed by the kind of failure.
    pub fn message(&self) -> (r: String)
        ensures
            r@ == self.spec_message(),
    {
        match self {
            LlmApiError::CoreError(e) => "Core error: ".to_owned().concat(e.message().as_str()),
            LlmApiError::ProviderError(m) => "Provider error: ".to_owned().concat(m.as_str()),
            LlmApiError::NetworkError(m) => "Network error: ".to_owned().concat(m.as_str()),
            LlmApiError::AuthError(m) => "Authentication error: ".to_owned().concat(m.as_str()),
            LlmApiError::ConfigError(m) => "Configuration error: ".to_owned().concat(m.as_str()),
            LlmApiError::SerializationError(m) => "Serialization error: ".to_owned().concat(m.as_str()),
            LlmApiError::DeserializationError(m) => "Deserialization error: ".to_owned().concat(m.as_str()),
        }
    }

    pub open spec fn spec_message(&self) -> Seq<char> {
        match self {
            LlmApiError::CoreError(e) => "Core error: "@ + e.spec_message(),
            LlmApiError::ProviderError(m) => "Provider error: "@ + m@,
            LlmApiError::NetworkError(m) => "Network error: "@ + m@,
            LlmApiError::AuthError(m) => "Authentication error: "@ + m@,
            LlmApiError::ConfigError(m) => "Configuration error: "@ + m@,
            LlmApiError::SerializationError(m) => "Serialization error: "@ + m@,
            LlmApiError::DeserializationError(m) => "Deserialization error: "@ + m@,
        }
    }
}

impl From<CoreError> for LlmApiError {
    fn from(e: CoreError) -> (r: LlmApiError) {
        LlmApiError::CoreError(e)
    }
}

impl vstd::std_specs::convert::FromSpecImpl<CoreError> for LlmApiError {
    open spec fn obeys_from_spec() -> bool {
        true
    }

    open spec fn from_spec(e: CoreError) -> LlmApiError {
        LlmApiError::CoreError(e)
    }
}

} // verus!
