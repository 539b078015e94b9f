//! A backend with a messages endpoint: key and version headers, a required
//! token limit, and answers made of content blocks.

use vstd::prelude::*;

use crate::chat::{ChatChoice, ChatCompletionRequest, ChatCompletionResponse, ChatMessage, ChatUsage};
use crate::error::LlmApiError;
use crate::json::{array_field, str_field, u32_field, Json};
use crate::wire::{array_of, encode_messages, message_json};

verus! {

/// The token limit sent when the request names none.
pub const DEFAULT_MAX_TOKENS: u32 = 1000;

pub struct Anthropic {
    domain: String,
    api_key: String,
}

/// The request body: the messages, the model, the token limit (or
/// `DEFAULT_MAX_TOKENS`), and the temperature, written as `null` when absent.
pub open spec fn anthropic_body(j: Json, req: ChatCompletionRequest) -> bool {
    &&& j.keys() == seq!["messages"@, "model"@, "max_tokens"@, "temperature"@]
    &&& array_of(j.entry(0), req.messages@, |e: Json, m: ChatMessage| message_json(e, m))
    &&& crate::json::is_text(j.entry(1), req.model@)
    &&& j.entry(2) == Json::Number(
        (match req.max_tokens {
            Some(n) => n,
            None => DEFAULT_MAX_TOKENS,
        }) as u64,
    )
    &&& j.entry(3) == match req.temperature {
        Some(t) => Json::Float(t),
        None => Json::Null,
    }
}

/// One content block: an object with a string `text`.
pub open spec fn is_block(j: Json) -> bool {
    str_field(j, "text"@) is Some
}

/// An answer that reads: `id`, `model`, `role` and `stop_reason` strings, a
/// non-empty array of content blocks, and a `usage` object with both token counts.
pub open spec fn is_anthropic_answer(j: Json) -> bool {
    &&& str_field(j, "id"@) is Some
    &&& str_field(j, "model"@) is Some
    &&& str_field(j, "role"@) is Some
    &&& str_field(j, "stop_reason"@) is Some
    &&& array_field(j, "content"@) is Some
    &&& array_field(j, "content"@)->Some_0.len() > 0
    &&& forall|i: int|
        0 <= i < array_field(j, "content"@)->Some_0.len() ==> #[trigger] is_block(
            array_field(j, "content"@)->Some_0[i],
        )
    &&& j.field("usage"@) is Some
    &&& u32_field(j.field("usage"@)->Some_0, "input_tokens"@) is Some
    &&& u32_field(j.field("usage"@)->Some_0, "output_tokens"@) is Some
}

/// Each content block becomes one choice with the answer's single role and
/// stop reason; usage always holds both counts.
pub open spec fn anthropic_response_of(j: Json, r: ChatCompletionResponse) -> bool {
    let blocks = array_field(j, "content"@)->Some_0;
    let usage = j.field("usage"@)->Some_0;
    &&& str_field(j, "id"@) == Some(r.id@)
    &&& str_field(j, "model"@) == Some(r.model@)
    &&& r.choices@.len() == blocks.len()
    &&& forall|i: int|
        0 <= i < blocks.len() ==> {
            &&& str_field(j, "role"@) == Some(#[trigger] r.choices@[i].message.role@)
            &&& str_field(blocks[i], "text"@) == Some(r.choices@[i].message.content@)
            &&& str_field(j, "stop_reason"@) == Some(r.choices@[i].finish_reason@)
        }
    &&& r.usage == Some(
        ChatUsage {
            input_tokens: u32_field(usage, "input_tokens"@),
            output_tokens: u32_field(usage, "output_tokens"@),
        },
    )
}

impl Anthropic {
    pub closed spec fn spec_domain(&self) -> Seq<char> {
        self.domain@
    }

    pub closed spec fn spec_api_key(&self) -> Seq<char> {
        self.api_key@
    }

    pub fn new(api_key: String) -> (r: Anthropic)
        ensures
            r.spec_domain() == "https://api.anthropic.com"@,
            r.spec_api_key() == api_key@,
    {
        Anthropic { domain: "https://api.anthropic.com".to_owned(), api_key }
    }

    pub fn endpoint(&self) -> (r: String)
        ensures
            r@ == self.spec_domain() + "/v1/messages"@,
    {
        self.domain.clone().concat("/v1/messages")
    }

    /// The key header and the API version header.
    pub fn headers(&self) -> (r: Vec<(String, String)>)
        ensures
            r@.len() == 2,
            r@[0].0@ == "x-api-key"@,
            r@[0].1@ == self.spec_api_key(),
            r@[1].0@ == "anthropic-version"@,
            r@[1].1@ == "2023-06-01"@,
    {
        let mut h: Vec<(String, String)> = Vec::new();
        h.push(("x-api-key".to_owned(), self.api_key.clone()));
        h.push(("anthropic-version".to_owned(), "2023-06-01".to_owned()));
        h
    }

    pub fn encode_request(request: &ChatCompletionRequest) -> (r: Json)
        ensures
            anthropic_body(r, *request),
    {
        let mut members: Vec<(String, Json)> = Vec::new();
        members.push(("messages".to_owned(), encode_messages(&request.messages)));
        members.push(("model".to_owned(), Json::Str(request.model.clone())));
        let max_tokens: u32 = match request.max_tokens {
            Some(n) => n,
            None => DEFAULT_MAX_TOKENS,
        };
        members.push(("max_tokens".to_owned(), Json::Number(max_tokens as u64)));
        let temperature = match request.temperature {
            Some(t) => Json::Float(t),
            None => Json::Null,
        };
        members.push(("temperature".to_owned(), temperature));
        proof {
            reveal_strlit("messages");
            reveal_strlit("model");
            reveal_strlit("max_tokens");
            reveal_strlit("temperature");
        }
        let r = Json::Object(members);
        assert(r.keys() =~= seq!["messages"@, "model"@, "max_tokens"@, "temperature"@]);
        r
    }

    pub fn decode_response(body: &Json) -> (r: Result<ChatCompletionResponse, LlmApiError>)
        ensures
            match r {
                Ok(res) => is_anthropic_answer(*body) && anthropic_response_of(*body, res),
                Err(e) => !is_anthropic_answer(*body) && e is DeserializationError,
            },
    {
        let blocks = body.get_array("content")?;
        if blocks.len() == 0 {
            return Err(LlmApiError::DeserializationError("the answer holds no content block".to_owned()));
        }
        let id = body.get_string("id")?;
        let model = body.get_string("model")?;
        let role = body.get_string("role")?;
        let stop_reason = body.get_string("stop_reason")?;
        let usage = match body.get("usage") {
            Some(u) => u,
            None => {
                return Err(crate::json::malformed("usage"));
            },
        };
        let input_tokens = usage.get_u32("input_tokens")?;
        let output_tokens = usage.get_u32("output_tokens")?;
        let mut choices: Vec<ChatChoice> = Vec::new();
        let mut i: usize = 0;
        while i < blocks.len()
            invariant
                i <= blocks@.len(),
                choices@.len() == i,
                array_field(*body, "content"@) == Some(blocks@),
                str_field(*body, "role"@) == Some(role@),
                str_field(*body, "stop_reason"@) == Some(stop_reason@),
                forall|k: int|
                    0 <= k < i ==> {
                        &&& #[trigger] choices@[k].message.role@ == role@
                        &&& str_field(blocks@[k], "text"@) == Some(choices@[k].message.content@)
                        &&& choices@[k].finish_reason@ == stop_reason@
                    },
            decreases blocks@.len() - i,
        {
            let text = match blocks[i].get_string("text") {
                Ok(t) => t,
                Err(e) => {
                    assert(!is_block(blocks@[i as int]));
                    assert(!is_anthropic_answer(*body)) by {
                        if is_anthropic_answer(*body) {
                            assert(is_block(array_field(*body, "content"@)->Some_0[i as int]));
                        }
                    }
                    return Err(e);
                },
            };
            choices.push(
                ChatChoice {
                    message: ChatMessage { role: role.clone(), content: text },
                    finish_reason: stop_reason.clone(),
                },
            );
            i = i + 1;
        }
        assert forall|k: int| 0 <= k < blocks@.len() implies #[trigger] is_block(blocks@[k]) by {
            assert(choices@[k].message.role@ == role@);
        }
        Ok(
            ChatCompletionResponse {
                id,
                model,
                choices,
                usage: Some(
                    ChatUsage { input_tokens: Some(input_tokens), output_tokens: Some(output_tokens) },
                ),
            },
        )
    }
}

} // verus!
