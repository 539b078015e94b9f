//! Shapes that several backends share: a message as a `role`/`content`
//! object, a choice as a `message`/`finish_reason` object, and the optional
//! `usage` member. Members that a shape does not name are ignored.

use vstd::prelude::*;

use crate::chat::{ChatChoice, ChatMessage, ChatUsage};
use crate::error::LlmApiError;
use crate::json::{is_text, opt_u32_field, str_field, Json};

verus! {

/// `j` is written as `{"role": ..., "content": ...}` for `m`.
pub open spec fn message_json(j: Json, m: ChatMessage) -> bool {
    &&& j.keys() == seq!["role"@, "content"@]
    &&& is_text(j.entry(0), m.role@)
    &&& is_text(j.entry(1), m.content@)
}

/// `j` is an array that holds, position by position, `f(j_i, ms[i])`.
pub open spec fn array_of<T>(j: Json, ms: Seq<T>, f: spec_fn(Json, T) -> bool) -> bool {
    &&& j is Array
    &&& j->Array_0@.len() == ms.len()
    &&& forall|i: int| 0 <= i < ms.len() ==> #[trigger] f(j->Array_0@[i], ms[i])
}

pub fn encode_message(m: &ChatMessage) -> (r: Json)
    ensures
        message_json(r, *m),
{
    let mut members: Vec<(String, Json)> = Vec::new();
    members.push(("role".to_owned(), Json::Str(m.role.clone())));
    members.push(("content".to_owned(), Json::Str(m.content.clone())));
    proof {
        reveal_strlit("role");
        reveal_strlit("content");
    }
    let r = Json::Object(members);
    assert(r.keys() =~= seq!["role"@, "content"@]);
    r
}

/// The messages as an array of `role`/`content` objects, in the same order;
/// read back, the element at each position is the message at that position.
pub fn encode_messages(ms: &Vec<ChatMessage>) -> (r: Json)
    ensures
        array_of(r, ms@, |j: Json, m: ChatMessage| message_json(j, m)),
        r->Array_0@.len() == ms@.len(),
        forall|i: int| 0 <= i < ms@.len() ==> #[trigger] message_of(r->Array_0@[i], ms@[i]),
{
    let mut out: Vec<Json> = Vec::new();
    let mut i: usize = 0;
    while i < ms.len()
        invariant
            i <= ms@.len(),
            out@.len() == i,
            forall|k: int| 0 <= k < i ==> message_json(#[trigger] out@[k], ms@[k]),
        decreases ms@.len() - i,
    {
        out.push(encode_message(&ms[i]));
        i = i + 1;
    }
    let r = Json::Array(out);
    proof {
        lemma_messages_keep_order(r, ms@);
    }
    r
}

/// `j` reads as the message `m`: its `role` and `content` are strings that
/// equal `m`'s. Other members are ignored.
pub open spec fn message_of(j: Json, m: ChatMessage) -> bool {
    &&& str_field(j, "role"@) == Some(m.role@)
    &&& str_field(j, "content"@) == Some(m.content@)
}

pub open spec fn is_message(j: Json) -> bool {
    &&& str_field(j, "role"@) is Some
    &&& str_field(j, "content"@) is Some
}

pub fn decode_message(j: &Json) -> (r: Result<ChatMessage, LlmApiError>)
    ensures
        match r {
            Ok(m) => is_message(*j) && message_of(*j, m),
            Err(e) => !is_message(*j) && e is DeserializationError,
        },
{
    let role = j.get_string("role")?;
    let content = j.get_string("content")?;
    Ok(ChatMessage { role, content })
}

/// `j` reads as the choice `c`: a `message` member that reads as
/// `c.message`, and a string `finish_reason`.
pub open spec fn choice_of(j: Json, c: ChatChoice) -> bool {
    &&& j.field("message"@) is Some
    &&& message_of(j.field("message"@)->Some_0, c.message)
    &&& str_field(j, "finish_reason"@) == Some(c.finish_reason@)
}

pub open spec fn is_choice(j: Json) -> bool {
    &&& j.field("message"@) is Some
    &&& is_message(j.field("message"@)->Some_0)
    &&& str_field(j, "finish_reason"@) is Some
}

pub fn decode_choice(j: &Json) -> (r: Result<ChatChoice, LlmApiError>)
    ensures
        match r {
            Ok(c) => is_choice(*j) && choice_of(*j, c),
            Err(e) => !is_choice(*j) && e is DeserializationError,
        },
{
    let message = match j.get("message") {
        Some(m) => decode_message(m)?,
        None => {
            return Err(crate::json::malformed("message"));
        },
    };
    let finish_reason = j.get_string("finish_reason")?;
    Ok(ChatChoice { message, finish_reason })
}

/// `cs` reads, position by position, from the elements of `a`.
pub open spec fn choices_of(a: Seq<Json>, cs: Seq<ChatChoice>) -> bool {
    &&& a.len() == cs.len()
    &&& forall|i: int| 0 <= i < a.len() ==> #[trigger] choice_of(a[i], cs[i])
}

pub open spec fn all_choices(a: Seq<Json>) -> bool {
    forall|i: int| 0 <= i < a.len() ==> #[trigger] is_choice(a[i])
}

pub fn decode_choices(a: &Vec<Json>) -> (r: Result<Vec<ChatChoice>, LlmApiError>)
    ensures
        match r {
            Ok(cs) => all_choices(a@) && choices_of(a@, cs@),
            Err(e) => !all_choices(a@) && e is DeserializationError,
        },
{
    let mut out: Vec<ChatChoice> = Vec::new();
    let mut i: usize = 0;
    while i < a.len()
        invariant
            i <= a@.len(),
            out@.len() == i,
            forall|k: int| 0 <= k < i ==> choice_of(a@[k], #[trigger] out@[k]),
            forall|k: int| 0 <= k < i ==> #[trigger] is_choice(a@[k]),
        decreases a@.len() - i,
    {
        let c = decode_choice(&a[i])?;
        out.push(c);
        i = i + 1;
    }
    Ok(out)
}

/// The optional `usage` member with optional `input_tokens` and
/// `output_tokens` counts: absent or `null` reads as no usage.
pub open spec fn usage_of(j: Json, u: Option<ChatUsage>) -> bool {
    match j.field("usage"@) {
        None => u is None,
        Some(Json::Null) => u is None,
        Some(v) => v is Object && u is Some && opt_u32_field(v, "input_tokens"@) == Some(u->Some_0.input_tokens)
            && opt_u32_field(v, "output_tokens"@) == Some(u->Some_0.output_tokens),
    }
}

pub open spec fn has_usage(j: Json) -> bool {
    match j.field("usage"@) {
        None => true,
        Some(Json::Null) => true,
        Some(v) => v is Object && opt_u32_field(v, "input_tokens"@) is Some && opt_u32_field(v, "output_tokens"@) is Some,
    }
}

pub fn decode_usage(j: &Json) -> (r: Result<Option<ChatUsage>, LlmApiError>)
    ensures
        match r {
            Ok(u) => has_usage(*j) && usage_of(*j, u),
            Err(e) => !has_usage(*j) && e is DeserializationError,
        },
{
    match j.get("usage") {
        None => Ok(None),
        Some(Json::Null) => Ok(None),
        Some(v) => {
            if !matches!(v, Json::Object(_)) {
                return Err(crate::json::malformed("usage"));
            }
            let input_tokens = v.get_opt_u32("input_tokens")?;
            let output_tokens = v.get_opt_u32("output_tokens")?;
            Ok(Some(ChatUsage { input_tokens, output_tokens }))
        },
    }
}

/// Reading back a message written in the shared shape gives the message:
/// its `role` member holds the role and its `content` member the content.
pub proof fn lemma_message_read_back(j: Json, m: ChatMessage)
    requires
        message_json(j, m),
    ensures
        is_message(j),
        message_of(j, m),
{
    reveal_strlit("role");
    reveal_strlit("content");
    assert(j.keys().len() == 2);
    assert(j is Object);
    let members = j->Object_0@;
    assert(j.keys()[0] == members[0].0@);
    assert(j.keys()[1] == members[1].0@);
    assert(members.drop_first()[0] == members[1]);
    assert("role"@ != "content"@) by {
        assert("role"@[0] != "content"@[0]);
    }
    assert(crate::json::lookup(members, "role"@) == Some(members[0].1));
    assert(crate::json::lookup(members.drop_first(), "content"@) == Some(members[1].1));
    assert(crate::json::lookup(members, "content"@) == Some(members[1].1));
    assert(j.field("role"@) == Some(j.entry(0)));
    assert(j.field("content"@) == Some(j.entry(1)));
}

/// A message list written in the shared shape reads back as the same
/// messages in the same order: the element at each position reads as the
/// message at that position.
pub proof fn lemma_messages_keep_order(j: Json, ms: Seq<ChatMessage>)
    requires
        array_of(j, ms, |e: Json, m: ChatMessage| message_json(e, m)),
    ensures
        j->Array_0@.len() == ms.len(),
        forall|i: int| 0 <= i < ms.len() ==> #[trigger] message_of(j->Array_0@[i], ms[i]),
{
    assert forall|i: int| 0 <= i < ms.len() implies #[trigger] message_of(j->Array_0@[i], ms[i]) by {
        let f = |e: Json, m: ChatMessage| message_json(e, m);
        assert(f(j->Array_0@[i], ms[i]));
        lemma_message_read_back(j->Array_0@[i], ms[i]);
    }
}

} // verus!
