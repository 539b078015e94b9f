use vstd::prelude::*;

verus! {

/// One turn of a conversation. The role is a free-form tag.
#[derive(Debug, Clone, PartialEq, Eq)]
pub struct ChatMessage {
    pub role: String,
    pub content: String,
}

/// What a caller asks of any backend.
///
/// `temperature` holds the bit pattern of an IEEE-754 single-precision
/// number (`f32::to_bits`); it is handed to the backends as it is.
#[derive(Debug, Clone, PartialEq, Eq)]
pub struct ChatCompletionRequest {
    pub model: String,
    pub messages: Vec<ChatMessage>,
    pub temperature: Option<u32>,
    pub max_tokens: Option<u32>,
}

/// What every backend's answer is turned into.
#[derive(Debug, Clone, PartialEq, Eq)]
pub struct ChatCompletionResponse {
    pub id: String,
    pub model: String,
    pub choices: Vec<ChatChoice>,
    pub usage: Option<ChatUsage>,
}

/// One candidate completion.
#[derive(Debug, Clone, PartialEq, Eq)]
pub struct ChatChoice {
    pub message: ChatMessage,
    pub finish_reason: String,
}

/// Token counts, for the backends that report them.
#[derive(Debug, Clone, PartialEq, Eq)]
pub struct ChatUsage {
    pub input_tokens: Option<u32>,
    pub output_tokens: Option<u32>,
}

#[derive(Debug, Clone, PartialEq, Eq)]
pub enum CoreError {
    SerializationError(String),
    DeserializationError(String),
}

impl CoreError {
    /// A short description, prefixed by the kind of failure.
    pub fn message(&self) -> (r: String)
        ensures
            r@ == self.spec_message(),
    {
        match self {
            CoreError::SerializationError(m) => "Serialization error: ".to_owned().concat(m.as_str()),
            CoreError::DeserializationError(m) => "Deserialization error: ".to_owned().concat(m.as_str()),
        }
    }

    pub open spec fn spec_message(&self) -> Seq<char> {
        match self {
            CoreError::SerializationError(m) => "Serialization error: "@ + m@,
            CoreError::DeserializationError(m) => "Deserialization error: "@ + m@,
        }
    }
}

} // verus!
