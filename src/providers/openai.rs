//! The chat-completions shape: messages as they are, bearer authentication,
//! and answers whose choices and usage already have the canonical shape.
//! Groq and Together speak it too.

use vstd::prelude::*;

use crate::chat::{ChatChoice, ChatCompletionRequest, ChatCompletionResponse, ChatMessage, ChatUsage};
use crate::error::LlmApiError;
use crate::json::{array_field, is_text, str_field, Json};
use crate::providers::{bearer_headers, is_bearer, options_from, push_options};
use crate::wire::{
    all_choices, array_of, choices_of, decode_choices, decode_usage, encode_messages, has_usage,
    message_json, usage_of,
};

verus! {

/// The request body: the model, the messages, then the temperature and the
/// token limit, each left out when absent.
pub open spec fn openai_body(
    j: Json,
    model: Seq<char>,
    messages: Seq<ChatMessage>,
    temperature: Option<u32>,
    max_tokens: Option<u32>,
) -> bool {
    &&& j.keys().len() >= 2
    &&& j.keys()[0] == "model"@
    &&& is_text(j.entry(0), model)
    &&& j.keys()[1] == "messages"@
    &&& array_of(j.entry(1), messages, |e: Json, m: ChatMessage| message_json(e, m))
    &&& options_from(j, 2, temperature, max_tokens, "max_tokens"@)
}

pub fn openai_json(
    model: &String,
    messages: &Vec<ChatMessage>,
    temperature: Option<u32>,
    max_tokens: Option<u32>,
) -> (r: Json)
    ensures
        openai_body(r, model@, messages@, temperature, max_tokens),
{
    let mut members: Vec<(String, Json)> = Vec::new();
    members.push(("model".to_owned(), Json::Str(model.clone())));
    members.push(("messages".to_owned(), encode_messages(messages)));
    let ghost before = members@;
    push_options(&mut members, temperature, max_tokens, "max_tokens");
    proof {
        reveal_strlit("model");
        reveal_strlit("messages");
        assert(members@[0] == before[0]);
        assert(members@[1] == before[1]);
    }
    Json::Object(members)
}

/// The wire request of the chat-completions shape.
pub struct OpenAIChatCompletionRequest {
    pub model: String,
    pub messages: Vec<ChatMessage>,
    /// Bit pattern of an IEEE-754 single, as in `ChatCompletionRequest`.
    pub temperature: Option<u32>,
    pub max_tokens: Option<u32>,
}

impl OpenAIChatCompletionRequest {
    pub fn from_request(request: ChatCompletionRequest) -> (r: OpenAIChatCompletionRequest)
        ensures
            r.model == request.model,
            r.messages == request.messages,
            r.temperature == request.temperature,
            r.max_tokens == request.max_tokens,
    {
        OpenAIChatCompletionRequest {
            model: request.model,
            messages: request.messages,
            temperature: request.temperature,
            max_tokens: request.max_tokens,
        }
    }

    pub fn to_json(&self) -> (r: Json)
        ensures
            openai_body(r, self.model@, self.messages@, self.temperature, self.max_tokens),
    {
        openai_json(&self.model, &self.messages, self.temperature, self.max_tokens)
    }
}

/// The wire answer of the chat-completions shape.
pub struct OpenAIChatCompletionResponse {
    pub id: String,
    pub model: String,
    pub choices: Vec<ChatChoice>,
    pub usage: Option<ChatUsage>,
}

/// An answer that reads: `id` and `model` strings, a non-empty array of
/// choices, and a usage that reads. An answer without any choice is an
/// error, not an empty success.
pub open spec fn is_openai_answer(j: Json) -> bool {
    &&& str_field(j, "id"@) is Some
    &&& str_field(j, "model"@) is Some
    &&& array_field(j, "choices"@) is Some
    &&& array_field(j, "choices"@)->Some_0.len() > 0
    &&& all_choices(array_field(j, "choices"@)->Some_0)
    &&& has_usage(j)
}

impl OpenAIChatCompletionResponse {
    pub fn from_json(j: &Json) -> (r: Result<OpenAIChatCompletionResponse, LlmApiError>)
        ensures
            match r {
                Ok(res) => {
                    &&& is_openai_answer(*j)
                    &&& str_field(*j, "id"@) == Some(res.id@)
                    &&& str_field(*j, "model"@) == Some(res.model@)
                    &&& array_field(*j, "choices"@) is Some
                    &&& choices_of(array_field(*j, "choices"@)->Some_0, res.choices@)
                    &&& usage_of(*j, res.usage)
                },
                Err(e) => !is_openai_answer(*j) && e is DeserializationError,
            },
    {
        let choices_json = j.get_array("choices")?;
        if choices_json.len() == 0 {
            return Err(LlmApiError::DeserializationError("the answer holds no choice".to_owned()));
        }
    if choices_json.len() == 0 {
        return Err(LlmApiError::DeserializationError("the answer holds no choice".to_owned()));
    }
        let choices = decode_choices(choices_json)?;
        let usage = decode_usage(j)?;
        let id = j.get_string("id")?;
        let model = j.get_string("model")?;
        Ok(OpenAIChatCompletionResponse { id, model, choices, usage })
    }

    /// The canonical answer: every member is passed through.
    pub fn into_response(self) -> (r: ChatCompletionResponse)
        ensures
            r.id == self.id,
            r.model == self.model,
            r.choices == self.choices,
            r.usage == self.usage,
    {
        ChatCompletionResponse { id: self.id, model: self.model, choices: self.choices, usage: self.usage }
    }
}

/// The canonical answer read from a chat-completions answer.
pub open spec fn openai_response_of(j: Json, r: ChatCompletionResponse) -> bool {
    &&& str_field(j, "id"@) == Some(r.id@)
    &&& str_field(j, "model"@) == Some(r.model@)
    &&& array_field(j, "choices"@) is Some
    &&& choices_of(array_field(j, "choices"@)->Some_0, r.choices@)
    &&& usage_of(j, r.usage)
}

/// Reads a chat-completions answer into the canonical answer.
pub fn decode_openai_response(body: &Json) -> (r: Result<ChatCompletionResponse, LlmApiError>)
    ensures
        match r {
            Ok(res) => is_openai_answer(*body) && openai_response_of(*body, res),
            Err(e) => !is_openai_answer(*body) && e is DeserializationError,
        },
{
    let wire = OpenAIChatCompletionResponse::from_json(body)?;
    Ok(wire.into_response())
}

pub struct OpenAI {
    domain: String,
    api_key: String,
}

impl OpenAI {
    pub closed spec fn spec_domain(&self) -> Seq<char> {
        self.domain@
    }

    pub closed spec fn spec_api_key(&self) -> Seq<char> {
        self.api_key@
    }

    pub fn new(api_key: String) -> (r: OpenAI)
        ensures
            r.spec_domain() == "https://api.openai.com"@,
            r.spec_api_key() == api_key@,
    {
        OpenAI { domain: "https://api.openai.com".to_owned(), api_key }
    }

    pub fn endpoint(&self) -> (r: String)
        ensures
            r@ == self.spec_domain() + "/v1/chat/completions"@,
    {
        self.domain.clone().concat("/v1/chat/completions")
    }

    pub fn headers(&self) -> (r: Vec<(String, String)>)
        ensures
            is_bearer(r@, self.spec_api_key()),
    {
        bearer_headers(&self.api_key)
    }

    pub fn encode_request(request: &ChatCompletionRequest) -> (r: Json)
        ensures
            openai_body(r, request.model@, request.messages@, request.temperature, request.max_tokens),
    {
        openai_json(&request.model, &request.messages, request.temperature, request.max_tokens)
    }

    pub fn decode_response(body: &Json) -> (r: Result<ChatCompletionResponse, LlmApiError>)
        ensures
            match r {
                Ok(res) => is_openai_answer(*body) && openai_response_of(*body, res),
                Err(e) => !is_openai_answer(*body) && e is DeserializationError,
            },
    {
        decode_openai_response(body)
    }
}

} // verus!
