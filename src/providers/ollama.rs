//! A local daemon: no authentication, no generation options, and a single
//! message for an answer.

use vstd::prelude::*;

use crate::chat::{ChatChoice, ChatCompletionRequest, ChatCompletionResponse, ChatMessage};
use crate::error::LlmApiError;
use crate::json::{is_text, Json};
use crate::wire::{array_of, decode_message, encode_messages, is_message, message_json, message_of};

verus! {

/// The request body: the messages, the model, and `stream` set to false;
/// temperature and token limit are not sent.
pub open spec fn ollama_body(j: Json, req: ChatCompletionRequest) -> bool {
    &&& j.keys() == seq!["messages"@, "model"@, "stream"@]
    &&& array_of(j.entry(0), req.messages@, |e: Json, m: ChatMessage| message_json(e, m))
    &&& is_text(j.entry(1), req.model@)
    &&& j.entry(2) == Json::Bool(false)
}

/// An answer that reads: a `message` member that reads as a message.
pub open spec fn is_ollama_answer(j: Json) -> bool {
    &&& j.field("message"@) is Some
    &&& is_message(j.field("message"@)->Some_0)
}

/// One choice holding the answer's message, finished as `completed`; the id
/// is empty, the model is the one asked for, and there is no usage.
pub open spec fn ollama_response_of(j: Json, model: Seq<char>, r: ChatCompletionResponse) -> bool {
    &&& r.id@ == Seq::<char>::empty()
    &&& r.model@ == model
    &&& r.choices@.len() == 1
    &&& message_of(j.field("message"@)->Some_0, r.choices@[0].message)
    &&& r.choices@[0].finish_reason@ == "completed"@
    &&& r.usage is None
}

pub struct Ollama {
    domain: String,
}

impl Ollama {
    pub closed spec fn spec_domain(&self) -> Seq<char> {
        self.domain@
    }

    pub fn new(domain: String) -> (r: Ollama)
        ensures
            r.spec_domain() == domain@,
    {
        Ollama { domain }
    }

    pub fn endpoint(&self) -> (r: String)
        ensures
            r@ == self.spec_domain() + "/api/chat"@,
    {
        self.domain.clone().concat("/api/chat")
    }

    /// No headers: the daemon asks for no credential.
    pub fn headers(&self) -> (r: Vec<(String, String)>)
        ensures
            r@.len() == 0,
    {
        Vec::new()
    }

    pub fn encode_request(request: &ChatCompletionRequest) -> (r: Json)
        ensures
            ollama_body(r, *request),
    {
        let mut members: Vec<(String, Json)> = Vec::new();
        members.push(("messages".to_owned(), encode_messages(&request.messages)));
        members.push(("model".to_owned(), Json::Str(request.model.clone())));
        members.push(("stream".to_owned(), Json::Bool(false)));
        proof {
            reveal_strlit("messages");
            reveal_strlit("model");
            reveal_strlit("stream");
        }
        let r = Json::Object(members);
        assert(r.keys() =~= seq!["messages"@, "model"@, "stream"@]);
        r
    }

    pub fn decode_response(body: &Json, model: &String) -> (r: Result<ChatCompletionResponse, LlmApiError>)
        ensures
            match r {
                Ok(res) => is_ollama_answer(*body) && ollama_response_of(*body, model@, res),
                Err(e) => !is_ollama_answer(*body) && e is DeserializationError,
            },
    {
        let message = match body.get("message") {
            Some(m) => decode_message(m)?,
            None => {
                return Err(crate::json::malformed("message"));
            },
        };
        let mut choices: Vec<ChatChoice> = Vec::new();
        choices.push(ChatChoice { message, finish_reason: "completed".to_owned() });
        Ok(ChatCompletionResponse { id: String::new(), model: model.clone(), choices, usage: None })
    }
}

} // verus!
