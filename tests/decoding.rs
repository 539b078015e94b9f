use llm_api_rs::providers::anthropic::Anthropic;
use llm_api_rs::providers::deepseek::DeepSeek;
use llm_api_rs::providers::gemini::Gemini;
use llm_api_rs::providers::groq::Groq;
use llm_api_rs::providers::ollama::Ollama;
use llm_api_rs::providers::openai::{OpenAI, OpenAIChatCompletionResponse};
use llm_api_rs::providers::together::Together;
use llm_api_rs::providers::xai::XAI;
use llm_api_rs::{ChatChoice, ChatMessage, ChatUsage, Json, LlmApiError};

fn s(x: &str) -> Json {
    Json::Str(x.to_string())
}

fn obj(members: Vec<(&str, Json)>) -> Json {
    Json::Object(members.into_iter().map(|(k, v)| (k.to_string(), v)).collect())
}

fn choice(role: &str, content: &str, finish: &str) -> ChatChoice {
    ChatChoice {
        message: ChatMessage { role: role.to_string(), content: content.to_string() },
        finish_reason: finish.to_string(),
    }
}

fn is_deserialization(r: &Result<llm_api_rs::ChatCompletionResponse, LlmApiError>) -> bool {
    matches!(r, Err(LlmApiError::DeserializationError(_)))
}

fn openai_answer(usage: Json) -> Json {
    obj(vec![
        ("id", s("chatcmpl-1")),
        ("object", s("chat.completion")),
        ("model", s("model-b")),
        (
            "choices",
            Json::Array(vec![obj(vec![
                ("index", Json::Number(0)),
                ("message", obj(vec![("role", s("assistant")), ("content", s("Hi there"))])),
                ("finish_reason", s("stop")),
            ])]),
        ),
        ("usage", usage),
    ])
}

#[test]
fn anthropic_answer_is_read() {
    let answer = obj(vec![
        ("id", s("msg_1")),
        ("model", s("model-a")),
        ("role", s("assistant")),
        ("type", s("message")),
        ("content", Json::Array(vec![obj(vec![("type", s("text")), ("text", s("Hi there"))])])),
        ("stop_reason", s("end_turn")),
        ("usage", obj(vec![("input_tokens", Json::Number(12)), ("output_tokens", Json::Number(3))])),
    ]);
    let r = Anthropic::decode_response(&answer).unwrap();
    assert_eq!(r.id, "msg_1");
    assert_eq!(r.model, "model-a");
    assert_eq!(r.choices, vec![choice("assistant", "Hi there", "end_turn")]);
    assert_eq!(r.usage, Some(ChatUsage { input_tokens: Some(12), output_tokens: Some(3) }));
}

#[test]
fn anthropic_blocks_become_choices() {
    let answer = obj(vec![
        ("id", s("msg_2")),
        ("model", s("model-a")),
        ("role", s("assistant")),
        ("content", Json::Array(vec![obj(vec![("text", s("one"))]), obj(vec![("text", s("two"))])])),
        ("stop_reason", s("max_tokens")),
        ("usage", obj(vec![("input_tokens", Json::Number(1)), ("output_tokens", Json::Number(2))])),
    ]);
    let r = Anthropic::decode_response(&answer).unwrap();
    assert_eq!(r.choices, vec![choice("assistant", "one", "max_tokens"), choice("assistant", "two", "max_tokens")]);
}

#[test]
fn anthropic_answer_without_usage_fails() {
    let answer = obj(vec![
        ("id", s("msg_1")),
        ("model", s("model-a")),
        ("role", s("assistant")),
        ("content", Json::Array(vec![obj(vec![("text", s("Hi"))])])),
        ("stop_reason", s("end_turn")),
    ]);
    assert!(is_deserialization(&Anthropic::decode_response(&answer)));
}

#[test]
fn openai_shape_answer_is_passed_through() {
    let usage = obj(vec![("input_tokens", Json::Number(4)), ("output_tokens", Json::Number(5))]);
    for r in [
        OpenAI::decode_response(&openai_answer(usage.clone_json())),
        Groq::decode_response(&openai_answer(usage.clone_json())),
        Together::decode_response(&openai_answer(usage.clone_json())),
    ] {
        let r = r.unwrap();
        assert_eq!(r.id, "chatcmpl-1");
        assert_eq!(r.model, "model-b");
        assert_eq!(r.choices, vec![choice("assistant", "Hi there", "stop")]);
        assert_eq!(r.usage, Some(ChatUsage { input_tokens: Some(4), output_tokens: Some(5) }));
    }
}

trait CloneJson {
    fn clone_json(&self) -> Json;
}

impl CloneJson for Json {
    fn clone_json(&self) -> Json {
        match self {
            Json::Null => Json::Null,
            Json::Bool(b) => Json::Bool(*b),
            Json::Number(n) => Json::Number(*n),
            Json::Float(f) => Json::Float(*f),
            Json::Str(t) => Json::Str(t.clone()),
            Json::Array(a) => Json::Array(a.iter().map(|x| x.clone_json()).collect()),
            Json::Object(m) => Json::Object(m.iter().map(|(k, v)| (k.clone(), v.clone_json())).collect()),
        }
    }
}

#[test]
fn openai_shape_usage_of_other_names_reads_as_empty_counts() {
    let usage = obj(vec![("prompt_tokens", Json::Number(4)), ("completion_tokens", Json::Number(5))]);
    let r = OpenAI::decode_response(&openai_answer(usage)).unwrap();
    assert_eq!(r.usage, Some(ChatUsage { input_tokens: None, output_tokens: None }));
    let r = OpenAI::decode_response(&openai_answer(Json::Null)).unwrap();
    assert_eq!(r.usage, None);
}

#[test]
fn openai_wire_answer_converts() {
    let wire = OpenAIChatCompletionResponse::from_json(&openai_answer(Json::Null)).unwrap();
    assert_eq!(wire.id, "chatcmpl-1");
    let r = wire.into_response();
    assert_eq!(r.choices, vec![choice("assistant", "Hi there", "stop")]);
}

#[test]
fn token_count_above_u32_fails() {
    let usage = obj(vec![("input_tokens", Json::Number(4_294_967_296))]);
    assert!(is_deserialization(&OpenAI::decode_response(&openai_answer(usage))));
}

#[test]
fn deepseek_and_xai_answers_have_no_usage() {
    let usage = obj(vec![("input_tokens", Json::Number(4))]);
    for r in [
        DeepSeek::decode_response(&openai_answer(usage.clone_json())),
        XAI::decode_response(&openai_answer(usage.clone_json())),
    ] {
        let r = r.unwrap();
        assert_eq!(r.id, "chatcmpl-1");
        assert_eq!(r.model, "model-b");
        assert_eq!(r.choices, vec![choice("assistant", "Hi there", "stop")]);
        assert_eq!(r.usage, None);
    }
}

fn gemini_candidate(text: &str, finish: Option<&str>) -> Json {
    let mut members = vec![(
        "content",
        obj(vec![("role", s("model")), ("parts", Json::Array(vec![obj(vec![("text", s(text))])]))]),
    )];
    if let Some(f) = finish {
        members.push(("finish_reason", s(f)));
    }
    obj(members)
}

#[test]
fn gemini_answer_is_read() {
    let answer = obj(vec![("candidates", Json::Array(vec![gemini_candidate("Hi there", Some("STOP"))]))]);
    let r = Gemini::decode_response(&answer, &"gemini-pro".to_string()).unwrap();
    assert_eq!(r.id, "");
    assert_eq!(r.model, "gemini-pro");
    assert_eq!(r.choices, vec![choice("model", "Hi there", "STOP")]);
    assert_eq!(r.usage, None);
}

#[test]
fn gemini_absent_finish_reason_is_empty() {
    let answer = obj(vec![(
        "candidates",
        Json::Array(vec![gemini_candidate("a", None), gemini_candidate("b", Some("STOP"))]),
    )]);
    let r = Gemini::decode_response(&answer, &"g".to_string()).unwrap();
    assert_eq!(r.choices, vec![choice("model", "a", ""), choice("model", "b", "STOP")]);
}

#[test]
fn gemini_without_candidates_fails() {
    let answer = obj(vec![("candidates", Json::Array(vec![]))]);
    assert!(is_deserialization(&Gemini::decode_response(&answer, &"g".to_string())));
}

#[test]
fn gemini_candidate_without_parts_fails() {
    let cand = obj(vec![("content", obj(vec![("role", s("model")), ("parts", Json::Array(vec![]))]))]);
    let answer = obj(vec![("candidates", Json::Array(vec![cand]))]);
    assert!(is_deserialization(&Gemini::decode_response(&answer, &"g".to_string())));
}

#[test]
fn ollama_answer_is_one_completed_choice() {
    let answer = obj(vec![
        ("model", s("llama")),
        ("message", obj(vec![("role", s("assistant")), ("content", s("Hi there"))])),
        ("done", Json::Bool(true)),
    ]);
    let r = Ollama::decode_response(&answer, &"deepseek-r1:7b".to_string()).unwrap();
    assert_eq!(r.id, "");
    assert_eq!(r.model, "deepseek-r1:7b");
    assert_eq!(r.choices, vec![choice("assistant", "Hi there", "completed")]);
    assert_eq!(r.usage, None);
}

#[test]
fn wrong_shape_is_a_deserialization_error_for_every_backend() {
    let wrong = obj(vec![("unexpected", Json::Number(1))]);
    assert!(is_deserialization(&Anthropic::decode_response(&wrong)));
    assert!(is_deserialization(&OpenAI::decode_response(&wrong)));
    assert!(is_deserialization(&Groq::decode_response(&wrong)));
    assert!(is_deserialization(&Together::decode_response(&wrong)));
    assert!(is_deserialization(&DeepSeek::decode_response(&wrong)));
    assert!(is_deserialization(&XAI::decode_response(&wrong)));
    assert!(is_deserialization(&Gemini::decode_response(&wrong, &"g".to_string())));
    assert!(is_deserialization(&Ollama::decode_response(&wrong, &"o".to_string())));
    let not_object = Json::Array(vec![]);
    assert!(is_deserialization(&OpenAI::decode_response(&not_object)));
}

#[test]
fn choice_with_null_content_fails() {
    let answer = obj(vec![
        ("id", s("x")),
        ("model", s("m")),
        (
            "choices",
            Json::Array(vec![obj(vec![
                ("message", obj(vec![("role", s("assistant")), ("content", Json::Null)])),
                ("finish_reason", s("tool_calls")),
            ])]),
        ),
    ]);
    assert!(is_deserialization(&DeepSeek::decode_response(&answer)));
}

#[test]
fn anthropic_answer_without_content_blocks_fails() {
    let answer = obj(vec![
        ("id", s("msg_1")),
        ("model", s("m")),
        ("role", s("assistant")),
        ("content", Json::Array(vec![])),
        ("stop_reason", s("end_turn")),
        ("usage", obj(vec![("input_tokens", Json::Number(1)), ("output_tokens", Json::Number(0))])),
    ]);
    assert!(is_deserialization(&Anthropic::decode_response(&answer)));
}

#[test]
fn answers_without_choices_fail() {
    let answer = obj(vec![("id", s("c1")), ("model", s("model-b")), ("choices", Json::Array(vec![]))]);
    assert!(is_deserialization(&OpenAI::decode_response(&answer)));
    assert!(is_deserialization(&Groq::decode_response(&answer)));
    assert!(is_deserialization(&Together::decode_response(&answer)));
    assert!(is_deserialization(&DeepSeek::decode_response(&answer)));
    assert!(is_deserialization(&XAI::decode_response(&answer)));
    assert!(OpenAIChatCompletionResponse::from_json(&answer).is_err());
}

fn xai_answer(content: Json) -> Json {
    obj(vec![
        ("id", s("x-1")),
        ("model", s("model-c")),
        (
            "choices",
            Json::Array(vec![obj(vec![
                ("message", obj(vec![("role", s("assistant")), ("content", content)])),
                ("finish_reason", s("stop")),
            ])]),
        ),
    ])
}

fn text_block(kind: &str, text: &str) -> Json {
    obj(vec![("type", s(kind)), ("text", s(text))])
}

#[test]
fn xai_content_block_is_unwrapped() {
    let r = XAI::decode_response(&xai_answer(Json::Array(vec![text_block("text", "Hello")]))).unwrap();
    assert_eq!(r.id, "x-1");
    assert_eq!(r.model, "model-c");
    assert_eq!(r.choices, vec![choice("assistant", "Hello", "stop")]);
    assert_eq!(r.usage, None);
}

#[test]
fn xai_plain_string_content_is_kept() {
    let r = XAI::decode_response(&xai_answer(s("Hello"))).unwrap();
    assert_eq!(r.choices, vec![choice("assistant", "Hello", "stop")]);
}

#[test]
fn xai_content_that_is_not_one_text_block_fails() {
    let two = Json::Array(vec![text_block("text", "a"), text_block("text", "b")]);
    assert!(is_deserialization(&XAI::decode_response(&xai_answer(two))));
    let none = Json::Array(vec![]);
    assert!(is_deserialization(&XAI::decode_response(&xai_answer(none))));
    let image = Json::Array(vec![text_block("image_url", "a")]);
    assert!(is_deserialization(&XAI::decode_response(&xai_answer(image))));
    assert!(is_deserialization(&XAI::decode_response(&xai_answer(Json::Number(3)))));
}
