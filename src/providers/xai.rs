//! A backend of the chat-completions kind whose messages carry their
//! content as a list of typed blocks.

use vstd::prelude::*;

use crate::chat::{ChatChoice, ChatCompletionRequest, ChatCompletionResponse, ChatMessage};
use crate::error::LlmApiError;
use crate::json::{array_field, is_text, malformed, str_field, Json};
use crate::providers::{bearer_headers, is_bearer, options_from, push_options};
use crate::wire::array_of;

verus! {

/// `j` is `{"type": "text", "text": <text>}`.
pub open spec fn text_block(j: Json, text: Seq<char>) -> bool {
    &&& j.keys() == seq!["type"@, "text"@]
    &&& is_text(j.entry(0), "text"@)
    &&& is_text(j.entry(1), text)
}

/// `j` is `{"role": ..., "content": [<one text block>]}` for `m`.
pub open spec fn xai_message(j: Json, m: ChatMessage) -> bool {
    &&& j.keys() == seq!["role"@, "content"@]
    &&& is_text(j.entry(0), m.role@)
    &&& j.entry(1) is Array
    &&& j.entry(1)->Array_0@.len() == 1
    &&& text_block(j.entry(1)->Array_0@[0], m.content@)
}

/// The request body: the messages in block form, the model, then the
/// temperature and the token limit, each left out when absent.
pub open spec fn xai_body(j: Json, req: ChatCompletionRequest) -> bool {
    &&& j.keys().len() >= 2
    &&& j.keys()[0] == "messages"@
    &&& array_of(j.entry(0), req.messages@, |e: Json, m: ChatMessage| xai_message(e, m))
    &&& j.keys()[1] == "model"@
    &&& is_text(j.entry(1), req.model@)
    &&& options_from(j, 2, req.temperature, req.max_tokens, "max_tokens"@)
}

/// The text of an answer message's content: a string as it is, or a list of
/// exactly one block whose `type` is `text`, unwrapped to its `text`.
pub open spec fn content_text(c: Json) -> Option<Seq<char>> {
    match c {
        Json::Str(t) => Some(t@),
        Json::Array(a) => if a@.len() == 1 && str_field(a@[0], "type"@) == Some("text"@) {
            str_field(a@[0], "text"@)
        } else {
            None
        },
        _ => None,
    }
}

/// The `message` member of a choice.
pub open spec fn message_of_choice(j: Json) -> Json {
    j.field("message"@)->Some_0
}

/// A choice that reads: a `message` with a string `role` and a `content`
/// that reads as text, and a string `finish_reason`.
pub open spec fn is_xai_choice(j: Json) -> bool {
    &&& j.field("message"@) is Some
    &&& str_field(message_of_choice(j), "role"@) is Some
    &&& message_of_choice(j).field("content"@) is Some
    &&& content_text(message_of_choice(j).field("content"@)->Some_0) is Some
    &&& str_field(j, "finish_reason"@) is Some
}

/// The choice read from `j`: its role, its content's text, and its finish
/// reason.
pub open spec fn xai_choice_of(j: Json, c: ChatChoice) -> bool {
    &&& str_field(message_of_choice(j), "role"@) == Some(c.message.role@)
    &&& content_text(message_of_choice(j).field("content"@)->Some_0) == Some(c.message.content@)
    &&& str_field(j, "finish_reason"@) == Some(c.finish_reason@)
}

/// An answer that reads: `id` and `model` strings and a non-empty array of
/// choices that read.
pub open spec fn is_xai_answer(j: Json) -> bool {
    &&& str_field(j, "id"@) is Some
    &&& str_field(j, "model"@) is Some
    &&& array_field(j, "choices"@) is Some
    &&& array_field(j, "choices"@)->Some_0.len() > 0
    &&& forall|i: int|
        0 <= i < array_field(j, "choices"@)->Some_0.len() ==> #[trigger] is_xai_choice(
            array_field(j, "choices"@)->Some_0[i],
        )
}

/// Id and model are passed through, each choice is read in order with its
/// content unwrapped, and there is no usage.
pub open spec fn xai_response_of(j: Json, r: ChatCompletionResponse) -> bool {
    let cs = array_field(j, "choices"@)->Some_0;
    &&& str_field(j, "id"@) == Some(r.id@)
    &&& str_field(j, "model"@) == Some(r.model@)
    &&& r.choices@.len() == cs.len()
    &&& forall|i: int| 0 <= i < cs.len() ==> xai_choice_of(cs[i], #[trigger] r.choices@[i])
    &&& r.usage is None
}

pub struct XAI {
    domain: String,
    api_key: String,
}

impl XAI {
    pub closed spec fn spec_domain(&self) -> Seq<char> {
        self.domain@
    }

    pub closed spec fn spec_api_key(&self) -> Seq<char> {
        self.api_key@
    }

    pub fn new(api_key: String) -> (r: XAI)
        ensures
            r.spec_domain() == "https://api.x.ai"@,
            r.spec_api_key() == api_key@,
    {
        XAI { domain: "https://api.x.ai".to_owned(), api_key }
    }

    pub fn endpoint(&self) -> (r: String)
        ensures
            r@ == self.spec_domain() + "/v1/chat/completions"@,
    {
        self.domain.clone().concat("/v1/chat/completions")
    }

    pub fn headers(&self) -> (r: Vec<(String, String)>)
        ensures
            is_bearer(r@, self.spec_api_key()),
    {
        bearer_headers(&self.api_key)
    }

    fn convert_message(m: &ChatMessage) -> (r: Json)
        ensures
            xai_message(r, *m),
    {
        let mut block: Vec<(String, Json)> = Vec::new();
        block.push(("type".to_owned(), Json::Str("text".to_owned())));
        block.push(("text".to_owned(), Json::Str(m.content.clone())));
        let mut blocks: Vec<Json> = Vec::new();
        blocks.push(Json::Object(block));
        let mut members: Vec<(String, Json)> = Vec::new();
        members.push(("role".to_owned(), Json::Str(m.role.clone())));
        members.push(("content".to_owned(), Json::Array(blocks)));
        proof {
            reveal_strlit("type");
            reveal_strlit("text");
            reveal_strlit("role");
            reveal_strlit("content");
        }
        let r = Json::Object(members);
        assert(r.keys() =~= seq!["role"@, "content"@]);
        assert(r.entry(1)->Array_0@[0].keys() =~= seq!["type"@, "text"@]);
        r
    }

    /// The messages in block form, in the same order.
    pub fn convert_messages(messages: &Vec<ChatMessage>) -> (r: Json)
        ensures
            array_of(r, messages@, |e: Json, m: ChatMessage| xai_message(e, m)),
    {
        let mut out: Vec<Json> = Vec::new();
        let mut i: usize = 0;
        while i < messages.len()
            invariant
                i <= messages@.len(),
                out@.len() == i,
                forall|k: int| 0 <= k < i ==> xai_message(#[trigger] out@[k], messages@[k]),
            decreases messages@.len() - i,
        {
            out.push(Self::convert_message(&messages[i]));
            i = i + 1;
        }
        Json::Array(out)
    }

    pub fn encode_request(request: &ChatCompletionRequest) -> (r: Json)
        ensures
            xai_body(r, *request),
    {
        let mut members: Vec<(String, Json)> = Vec::new();
        members.push(("messages".to_owned(), Self::convert_messages(&request.messages)));
        members.push(("model".to_owned(), Json::Str(request.model.clone())));
        let ghost before = members@;
        push_options(&mut members, request.temperature, request.max_tokens, "max_tokens");
        proof {
            reveal_strlit("model");
            reveal_strlit("messages");
            assert(members@[0] == before[0]);
            assert(members@[1] == before[1]);
        }
        Json::Object(members)
    }

    fn read_content(c: &Json) -> (r: Result<String, LlmApiError>)
        ensures
            match r {
                Ok(t) => content_text(*c) == Some(t@),
                Err(e) => content_text(*c) is None && e is DeserializationError,
            },
    {
        match c {
            Json::Str(t) => Ok(t.clone()),
            Json::Array(a) => {
                if a.len() != 1 {
                    return Err(malformed("content"));
                }
                let kind = a[0].get_string("type")?;
                let text_kind: String = "text".to_owned();
                if !(kind == text_kind) {
                    return Err(malformed("type"));
                }
                a[0].get_string("text")
            },
            _ => Err(malformed("content")),
        }
    }

    fn decode_choice(j: &Json) -> (r: Result<ChatChoice, LlmApiError>)
        ensures
            match r {
                Ok(c) => is_xai_choice(*j) && xai_choice_of(*j, c),
                Err(e) => !is_xai_choice(*j) && e is DeserializationError,
            },
    {
        let message = match j.get("message") {
            Some(m) => m,
            None => {
                return Err(malformed("message"));
            },
        };
        let role = message.get_string("role")?;
        let content = match message.get("content") {
            Some(c) => Self::read_content(c)?,
            None => {
                return Err(malformed("content"));
            },
        };
        let finish_reason = j.get_string("finish_reason")?;
        Ok(ChatChoice { message: ChatMessage { role, content }, finish_reason })
    }

    /// Id and model are passed through; each choice's content is taken as it
    /// is when it is a string, or unwrapped from its single text block; usage
    /// is not read. An answer without any choice is an error.
    pub fn decode_response(body: &Json) -> (r: Result<ChatCompletionResponse, LlmApiError>)
        ensures
            match r {
                Ok(res) => is_xai_answer(*body) && xai_response_of(*body, res),
                Err(e) => !is_xai_answer(*body) && e is DeserializationError,
            },
    {
        let cs = body.get_array("choices")?;
        if cs.len() == 0 {
            return Err(LlmApiError::DeserializationError("the answer holds no choice".to_owned()));
        }
        let mut choices: Vec<ChatChoice> = Vec::new();
        let mut i: usize = 0;
        while i < cs.len()
            invariant
                i <= cs@.len(),
                array_field(*body, "choices"@) == Some(cs@),
                choices@.len() == i,
                forall|k: int| 0 <= k < i ==> #[trigger] is_xai_choice(cs@[k]),
                forall|k: int| 0 <= k < i ==> xai_choice_of(cs@[k], #[trigger] choices@[k]),
            decreases cs@.len() - i,
        {
            let c = Self::decode_choice(&cs[i])?;
            choices.push(c);
            i = i + 1;
        }
        let id = body.get_string("id")?;
        let model = body.get_string("model")?;
        Ok(ChatCompletionResponse { id, model, choices, usage: None })
    }
}

} // verus!
