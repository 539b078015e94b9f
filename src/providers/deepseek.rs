//! A backend of the chat-completions kind that reports no usage.

use vstd::prelude::*;

use crate::chat::{ChatCompletionRequest, ChatCompletionResponse, ChatMessage};
use crate::error::LlmApiError;
use crate::json::{is_text, Json};
use crate::providers::{
    bearer_headers, decode_plain_response, is_bearer, is_plain_response, options_from,
    plain_response_of, push_options,
};
use crate::wire::{array_of, encode_messages, message_json, message_of};

verus! {

/// The request body: the messages, the model, then the temperature and the
/// token limit, each left out when absent.
pub open spec fn deepseek_body(j: Json, req: ChatCompletionRequest) -> bool {
    &&& j.keys().len() >= 2
    &&& j.keys()[0] == "messages"@
    &&& array_of(j.entry(0), req.messages@, |e: Json, m: ChatMessage| message_json(e, m))
    &&& j.keys()[1] == "model"@
    &&& is_text(j.entry(1), req.model@)
    &&& options_from(j, 2, req.temperature, req.max_tokens, "max_tokens"@)
}

pub struct DeepSeek {
    domain: String,
    api_key: String,
}

impl DeepSeek {
    pub closed spec fn spec_domain(&self) -> Seq<char> {
        self.domain@
    }

    pub closed spec fn spec_api_key(&self) -> Seq<char> {
        self.api_key@
    }

    pub fn new(api_key: String) -> (r: DeepSeek)
        ensures
            r.spec_domain() == "https://api.deepseek.com"@,
            r.spec_api_key() == api_key@,
    {
        DeepSeek { domain: "https://api.deepseek.com".to_owned(), api_key }
    }

    pub fn endpoint(&self) -> (r: String)
        ensures
            r@ == self.spec_domain() + "/v1/chat/completions"@,
    {
        self.domain.clone().concat("/v1/chat/completions")
    }

    pub fn headers(&self) -> (r: Vec<(String, String)>)
        ensures
            is_bearer(r@, self.spec_api_key()),
    {
        bearer_headers(&self.api_key)
    }

    /// The messages as `role`/`content` objects, in the same order: the
    /// element at each position reads back as the message at that position.
    pub fn convert_messages(messages: &Vec<ChatMessage>) -> (r: Json)
        ensures
            array_of(r, messages@, |e: Json, m: ChatMessage| message_json(e, m)),
            r->Array_0@.len() == messages@.len(),
            forall|i: int|
                0 <= i < messages@.len() ==> #[trigger] message_of(r->Array_0@[i], messages@[i]),
    {
        encode_messages(messages)
    }

    pub fn encode_request(request: &ChatCompletionRequest) -> (r: Json)
        ensures
            deepseek_body(r, *request),
    {
        let mut members: Vec<(String, Json)> = Vec::new();
        members.push(("messages".to_owned(), Self::convert_messages(&request.messages)));
        members.push(("model".to_owned(), Json::Str(request.model.clone())));
        let ghost before = members@;
        push_options(&mut members, request.temperature, request.max_tokens, "max_tokens");
        proof {
            reveal_strlit("model");
            reveal_strlit("messages");
            assert(members@[0] == before[0]);
            assert(members@[1] == before[1]);
        }
        Json::Object(members)
    }

    /// Id, model and choices are passed through; usage is not read.
    pub fn decode_response(body: &Json) -> (r: Result<ChatCompletionResponse, LlmApiError>)
        ensures
            match r {
                Ok(res) => is_plain_response(*body) && plain_response_of(*body, res),
                Err(e) => !is_plain_response(*body) && e is DeserializationError,
            },
    {
        decode_plain_response(body)
    }
}

} // verus!
