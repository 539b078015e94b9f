//! A backend of the chat-completions shape.

use vstd::prelude::*;

use crate::chat::{ChatCompletionRequest, ChatCompletionResponse};
use crate::error::LlmApiError;
use crate::json::Json;
use crate::providers::openai::{
    decode_openai_response, is_openai_answer, openai_body, openai_json, openai_response_of,
    OpenAIChatCompletionRequest, OpenAIChatCompletionResponse,
};
use crate::providers::{bearer_headers, is_bearer};

verus! {

pub type GroqChatCompletionRequest = OpenAIChatCompletionRequest;

pub type GroqChatCompletionResponse = OpenAIChatCompletionResponse;

pub struct Groq {
    domain: String,
    api_key: String,
}

impl Groq {
    pub closed spec fn spec_domain(&self) -> Seq<char> {
        self.domain@
    }

    pub closed spec fn spec_api_key(&self) -> Seq<char> {
        self.api_key@
    }

    pub fn new(api_key: String) -> (r: Groq)
        ensures
            r.spec_domain() == "https://api.groq.com"@,
            r.spec_api_key() == api_key@,
    {
        Groq { domain: "https://api.groq.com".to_owned(), api_key }
    }

    pub fn endpoint(&self) -> (r: String)
        ensures
            r@ == self.spec_domain() + "/openai/v1/chat/completions"@,
    {
        self.domain.clone().concat("/openai/v1/chat/completions")
    }

    pub fn headers(&self) -> (r: Vec<(String, String)>)
        ensures
            is_bearer(r@, self.spec_api_key()),
    {
        bearer_headers(&self.api_key)
    }

    pub fn encode_request(request: &ChatCompletionRequest) -> (r: Json)
        ensures
            openai_body(r, request.model@, request.messages@, request.temperature, request.max_tokens),
    {
        openai_json(&request.model, &request.messages, request.temperature, request.max_tokens)
    }

    pub fn decode_response(body: &Json) -> (r: Result<ChatCompletionResponse, LlmApiError>)
        ensures
            match r {
                Ok(res) => is_openai_answer(*body) && openai_response_of(*body, res),
                Err(e) => !is_openai_answer(*body) && e is DeserializationError,
            },
    {
        decode_openai_response(body)
    }
}

} // verus!
