//! A backend that takes its key in the query string, writes messages as
//! `contents` with text parts, and answers with candidates.

use vstd::prelude::*;

use crate::chat::{ChatChoice, ChatCompletionRequest, ChatCompletionResponse, ChatMessage};
use crate::error::LlmApiError;
use crate::json::{array_field, is_text, opt_str_field, str_field, Json};
use crate::providers::{options_from, push_options};
use crate::wire::array_of;

verus! {

/// `j` is `{"role": ..., "parts": [{"text": ...}]}` for `m`.
pub open spec fn content_json(j: Json, m: ChatMessage) -> bool {
    &&& j.keys() == seq!["role"@, "parts"@]
    &&& is_text(j.entry(0), m.role@)
    &&& j.entry(1) is Array
    &&& j.entry(1)->Array_0@.len() == 1
    &&& j.entry(1)->Array_0@[0].keys() == seq!["text"@]
    &&& is_text(j.entry(1)->Array_0@[0].entry(0), m.content@)
}

/// The request body: `contents` in message order, and a `generation_config`
/// object that holds the present ones of `temperature` and
/// `maxOutputTokens`.
pub open spec fn gemini_body(j: Json, req: ChatCompletionRequest) -> bool {
    &&& j.keys() == seq!["contents"@, "generation_config"@]
    &&& array_of(j.entry(0), req.messages@, |e: Json, m: ChatMessage| content_json(e, m))
    &&& j.entry(1) is Object
    &&& options_from(j.entry(1), 0, req.temperature, req.max_tokens, "maxOutputTokens"@)
}

/// One part: an object with a string `text`.
pub open spec fn is_part(j: Json) -> bool {
    str_field(j, "text"@) is Some
}

/// The parts of a candidate's content.
pub open spec fn parts_of(c: Json) -> Seq<Json> {
    array_field(c.field("content"@)->Some_0, "parts"@)->Some_0
}

/// A candidate that reads: a `content` object with a string `role` and at
/// least one part, every part with a string `text`, and an optional string
/// `finish_reason`.
pub open spec fn is_candidate(c: Json) -> bool {
    &&& c.field("content"@) is Some
    &&& str_field(c.field("content"@)->Some_0, "role"@) is Some
    &&& array_field(c.field("content"@)->Some_0, "parts"@) is Some
    &&& parts_of(c).len() > 0
    &&& forall|k: int| 0 <= k < parts_of(c).len() ==> #[trigger] is_part(parts_of(c)[k])
    &&& opt_str_field(c, "finish_reason"@) is Some
}

/// The choice read from a candidate: its role, the text of its first part,
/// and its finish reason or the empty string.
pub open spec fn candidate_of(c: Json, ch: ChatChoice) -> bool {
    &&& str_field(c.field("content"@)->Some_0, "role"@) == Some(ch.message.role@)
    &&& str_field(parts_of(c)[0], "text"@) == Some(ch.message.content@)
    &&& ch.finish_reason@ == match opt_str_field(c, "finish_reason"@)->Some_0 {
        Some(f) => f,
        None => Seq::<char>::empty(),
    }
}

/// An answer that reads: a non-empty array of candidates that read.
pub open spec fn is_gemini_answer(j: Json) -> bool {
    &&& array_field(j, "candidates"@) is Some
    &&& array_field(j, "candidates"@)->Some_0.len() > 0
    &&& forall|i: int|
        0 <= i < array_field(j, "candidates"@)->Some_0.len() ==> #[trigger] is_candidate(
            array_field(j, "candidates"@)->Some_0[i],
        )
}

/// One choice per candidate, in order; the id is empty (the answer carries
/// no identifier), the model is the one asked for, and there is no usage.
pub open spec fn gemini_response_of(j: Json, model: Seq<char>, r: ChatCompletionResponse) -> bool {
    let cands = array_field(j, "candidates"@)->Some_0;
    &&& r.id@ == Seq::<char>::empty()
    &&& r.model@ == model
    &&& r.choices@.len() == cands.len()
    &&& forall|i: int| 0 <= i < cands.len() ==> candidate_of(cands[i], #[trigger] r.choices@[i])
    &&& r.usage is None
}

pub struct Gemini {
    domain: String,
    api_key: String,
}

impl Gemini {
    pub closed spec fn spec_domain(&self) -> Seq<char> {
        self.domain@
    }

    pub closed spec fn spec_api_key(&self) -> Seq<char> {
        self.api_key@
    }

    pub fn new(api_key: String) -> (r: Gemini)
        ensures
            r.spec_domain() == "https://generativelanguage.googleapis.com"@,
            r.spec_api_key() == api_key@,
    {
        Gemini { domain: "https://generativelanguage.googleapis.com".to_owned(), api_key }
    }

    /// The model's generate endpoint, with the key as a query parameter.
    pub fn endpoint(&self, model: &String) -> (r: String)
        ensures
            r@ == self.spec_domain() + "/v1beta/models/"@ + model@ + ":generateContent?key="@
                + self.spec_api_key(),
    {
        self.domain.clone().concat("/v1beta/models/").concat(model.as_str()).concat(
            ":generateContent?key=",
        ).concat(self.api_key.as_str())
    }

    /// No headers: the key travels in the endpoint.
    pub fn headers(&self) -> (r: Vec<(String, String)>)
        ensures
            r@.len() == 0,
    {
        Vec::new()
    }

    fn convert_message(m: &ChatMessage) -> (r: Json)
        ensures
            content_json(r, *m),
    {
        let mut part: Vec<(String, Json)> = Vec::new();
        part.push(("text".to_owned(), Json::Str(m.content.clone())));
        let mut parts: Vec<Json> = Vec::new();
        parts.push(Json::Object(part));
        let mut members: Vec<(String, Json)> = Vec::new();
        members.push(("role".to_owned(), Json::Str(m.role.clone())));
        members.push(("parts".to_owned(), Json::Array(parts)));
        proof {
            reveal_strlit("text");
            reveal_strlit("role");
            reveal_strlit("parts");
        }
        let r = Json::Object(members);
        assert(r.keys() =~= seq!["role"@, "parts"@]);
        assert(r.entry(1)->Array_0@[0].keys() =~= seq!["text"@]);
        r
    }

    pub fn encode_request(request: &ChatCompletionRequest) -> (r: Json)
        ensures
            gemini_body(r, *request),
    {
        let mut contents: Vec<Json> = Vec::new();
        let mut i: usize = 0;
        while i < request.messages.len()
            invariant
                i <= request.messages@.len(),
                contents@.len() == i,
                forall|k: int| 0 <= k < i ==> content_json(#[trigger] contents@[k], request.messages@[k]),
            decreases request.messages@.len() - i,
        {
            contents.push(Self::convert_message(&request.messages[i]));
            i = i + 1;
        }
        let mut config: Vec<(String, Json)> = Vec::new();
        push_options(&mut config, request.temperature, request.max_tokens, "maxOutputTokens");
        let mut members: Vec<(String, Json)> = Vec::new();
        members.push(("contents".to_owned(), Json::Array(contents)));
        members.push(("generation_config".to_owned(), Json::Object(config)));
        proof {
            reveal_strlit("contents");
            reveal_strlit("generation_config");
        }
        let r = Json::Object(members);
        assert(r.keys() =~= seq!["contents"@, "generation_config"@]);
        r
    }

    fn decode_candidate(c: &Json) -> (r: Result<ChatChoice, LlmApiError>)
        ensures
            match r {
                Ok(ch) => is_candidate(*c) && candidate_of(*c, ch),
                Err(e) => !is_candidate(*c) && e is DeserializationError,
            },
    {
        let content = match c.get("content") {
            Some(x) => x,
            None => {
                return Err(crate::json::malformed("content"));
            },
        };
        let role = content.get_string("role")?;
        let parts = content.get_array("parts")?;
        if parts.len() == 0 {
            return Err(crate::json::malformed("parts"));
        }
        let mut k: usize = 0;
        while k < parts.len()
            invariant
                k <= parts@.len(),
                parts@ == parts_of(*c),
                forall|q: int| 0 <= q < k ==> #[trigger] is_part(parts@[q]),
            decreases parts@.len() - k,
        {
            if let Err(e) = parts[k].get_string("text") {
                assert(!is_part(parts@[k as int]));
                return Err(e);
            }
            k = k + 1;
        }
        assert(is_part(parts@[0]));
        let content_text = parts[0].get_string("text")?;
        let finish_reason = match c.get_opt_string("finish_reason")? {
            Some(f) => f,
            None => String::new(),
        };
        Ok(ChatChoice { message: ChatMessage { role, content: content_text }, finish_reason })
    }

    /// Reads the candidates. An answer without any candidate is an error,
    /// not an empty success.
    pub fn decode_response(body: &Json, model: &String) -> (r: Result<ChatCompletionResponse, LlmApiError>)
        ensures
            match r {
                Ok(res) => is_gemini_answer(*body) && gemini_response_of(*body, model@, res),
                Err(e) => !is_gemini_answer(*body) && e is DeserializationError,
            },
    {
        let cands = body.get_array("candidates")?;
        if cands.len() == 0 {
            return Err(LlmApiError::DeserializationError("the answer holds no candidate".to_owned()));
        }
        let mut choices: Vec<ChatChoice> = Vec::new();
        let mut i: usize = 0;
        while i < cands.len()
            invariant
                i <= cands@.len(),
                cands@ == array_field(*body, "candidates"@)->Some_0,
                array_field(*body, "candidates"@) is Some,
                choices@.len() == i,
                forall|k: int| 0 <= k < i ==> #[trigger] is_candidate(cands@[k]),
                forall|k: int| 0 <= k < i ==> candidate_of(cands@[k], #[trigger] choices@[k]),
            decreases cands@.len() - i,
        {
            match Self::decode_candidate(&cands[i]) {
                Ok(ch) => choices.push(ch),
                Err(e) => {
                    return Err(e);
                },
            }
            i = i + 1;
        }
        Ok(ChatCompletionResponse { id: String::new(), model: model.clone(), choices, usage: None })
    }
}

} // verus!
