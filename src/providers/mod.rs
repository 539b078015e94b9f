//! The backend adapters. Each one knows its endpoint, its authentication,
//! how a request is written for it and how its answer is read.

use vstd::prelude::*;

use crate::chat::ChatCompletionResponse;
use crate::error::LlmApiError;
use crate::json::{array_field, str_field, Json};
use crate::wire::{all_choices, choices_of, decode_choices};

pub mod anthropic;
pub mod deepseek;
pub mod gemini;
pub mod groq;
pub mod ollama;
pub mod openai;
pub mod together;
pub mod xai;

pub use anthropic::Anthropic;
pub use deepseek::DeepSeek;
pub use gemini::Gemini;
pub use groq::Groq;
pub use ollama::Ollama;
pub use openai::OpenAI;
pub use together::Together;
pub use xai::XAI;

verus! {

/// A single `authorization: Bearer <key>` header.
pub open spec fn is_bearer(h: Seq<(String, String)>, api_key: Seq<char>) -> bool {
    &&& h.len() == 1
    &&& h[0].0@ == "authorization"@
    &&& h[0].1@ == "Bearer "@ + api_key
}

pub fn bearer_headers(api_key: &String) -> (r: Vec<(String, String)>)
    ensures
        is_bearer(r@, api_key@),
{
    let mut h: Vec<(String, String)> = Vec::new();
    h.push(("authorization".to_owned(), "Bearer ".to_owned().concat(api_key.as_str())));
    h
}

/// The members of `j` from position `n` on are exactly the present ones of
/// `temperature` (as a float) and `max_tokens` (as a number, under the name
/// `max_name`), in that order; absent ones are left out.
pub open spec fn options_from(
    j: Json,
    n: int,
    temperature: Option<u32>,
    max_tokens: Option<u32>,
    max_name: Seq<char>,
) -> bool {
    let t: int = if temperature is Some { 1 } else { 0 };
    let m: int = if max_tokens is Some { 1 } else { 0 };
    &&& j.keys().len() == n + t + m
    &&& temperature is Some ==> j.keys()[n] == "temperature"@ && j.entry(n) == Json::Float(
        temperature->Some_0,
    )
    &&& max_tokens is Some ==> j.keys()[n + t] == max_name && j.entry(n + t) == Json::Number(
        max_tokens->Some_0 as u64,
    )
}

/// Appends the present ones of `temperature` and `max_tokens`.
pub fn push_options(
    members: &mut Vec<(String, Json)>,
    temperature: Option<u32>,
    max_tokens: Option<u32>,
    max_name: &str,
)
    ensures
        final(members)@.subrange(0, old(members)@.len() as int) == old(members)@,
        options_from(Json::Object(*final(members)), old(members)@.len() as int, temperature, max_tokens, max_name@),
{
    let ghost n = old(members)@.len() as int;
    if let Some(t) = temperature {
        members.push(("temperature".to_owned(), Json::Float(t)));
    }
    if let Some(m) = max_tokens {
        members.push((max_name.to_owned(), Json::Number(m as u64)));
    }
    proof {
        reveal_strlit("temperature");
    }
    assert(members@.subrange(0, n) =~= old(members)@);
}

/// The answer shape of the backends that send an `id`, a `model` and
/// `message`/`finish_reason` choices, and no usage that is read.
pub open spec fn plain_response_of(j: Json, r: ChatCompletionResponse) -> bool {
    &&& str_field(j, "id"@) == Some(r.id@)
    &&& str_field(j, "model"@) == Some(r.model@)
    &&& array_field(j, "choices"@) is Some
    &&& choices_of(array_field(j, "choices"@)->Some_0, r.choices@)
    &&& r.usage is None
}

/// An answer that reads: `id` and `model` strings and a non-empty array of
/// choices that read.
pub open spec fn is_plain_response(j: Json) -> bool {
    &&& str_field(j, "id"@) is Some
    &&& str_field(j, "model"@) is Some
    &&& array_field(j, "choices"@) is Some
    &&& array_field(j, "choices"@)->Some_0.len() > 0
    &&& all_choices(array_field(j, "choices"@)->Some_0)
}

pub fn decode_plain_response(j: &Json) -> (r: Result<ChatCompletionResponse, LlmApiError>)
    ensures
        match r {
            Ok(res) => is_plain_response(*j) && plain_response_of(*j, res),
            Err(e) => !is_plain_response(*j) && e is DeserializationError,
        },
{
    let choices_json = j.get_array("choices")?;
    if choices_json.len() == 0 {
        return Err(LlmApiError::DeserializationError("the answer holds no choice".to_owned()));
    }
    let choices = decode_choices(choices_json)?;
    let id = j.get_string("id")?;
    let model = j.get_string("model")?;
    Ok(ChatCompletionResponse { id, model, choices, usage: None })
}

} // verus!
