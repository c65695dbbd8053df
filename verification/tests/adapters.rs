use llm_client::anthropic;
use llm_client::chat::{self, ChatMessage, ChatRole};
use llm_client::decode::parse_json;
use llm_client::gemini;
use llm_client::json::Json;
use llm_client::litellm;
use llm_client::ollama;
use llm_client::openai;
use llm_client::prompt_utils::STRICT_JSON_PROMPT;
use llm_client::response::{interpret, normalize};
use llm_client::types::{
    LlmError, LlmGenerateRequest, LlmGenerateResponse, LlmSpec, OutputFormat, ProtocolFault,
    ToJsonSchemaOptions,
};

fn spec(model: &str, address: Option<&str>) -> LlmSpec {
    LlmSpec { model: model.to_string(), address: address.map(|a| a.to_string()) }
}

fn json(text: &str) -> Json {
    parse_json(text).unwrap()
}

fn schema_format(schema: &str) -> Option<OutputFormat> {
    Some(OutputFormat::JsonSchema { name: "Answer".to_string(), schema: json(schema) })
}

fn request(system: Option<&str>, format: Option<OutputFormat>) -> LlmGenerateRequest {
    LlmGenerateRequest {
        user_prompt: "What is 1+1?".to_string(),
        system_prompt: system.map(|s| s.to_string()),
        output_format: format,
    }
}

fn member(key: &str, value: Json) -> (String, Json) {
    (key.to_string(), value)
}

fn text(s: &str) -> Json {
    Json::Str(s.to_string())
}

fn configuration(message: &str) -> LlmError {
    LlmError::Configuration(message.to_string())
}

fn reported(error: &str) -> LlmError {
    LlmError::Protocol(ProtocolFault::Reported(json(error)))
}

fn reported_fault(error: &str) -> ProtocolFault {
    ProtocolFault::Reported(json(error))
}

fn a_equals_one() -> Json {
    Json::Object(vec![("a".to_string(), Json::Number("1".to_string()))])
}

#[test]
fn anthropic_needs_its_credential() {
    let r = anthropic::Client::new(spec("messages-model", None), None);
    assert_eq!(r.unwrap_err(), configuration("ANTHROPIC_API_KEY environment variable must be set"));
    assert!(anthropic::Client::new(spec("messages-model", None), Some("k".to_string())).is_ok());
}

#[test]
fn gemini_needs_its_credential() {
    let r = gemini::Client::new(spec("gemini-pro", None), None);
    assert_eq!(r.unwrap_err(), configuration("GEMINI_API_KEY environment variable must be set"));
    assert!(gemini::Client::new(spec("gemini-pro", None), Some("k".to_string())).is_ok());
}

#[test]
fn openai_needs_its_credential() {
    let r = openai::Client::new(spec("gpt", None), None);
    assert_eq!(r.unwrap_err(), configuration("OPENAI_API_KEY environment variable must be set"));
    let c = openai::Client::new(spec("gpt", None), Some("k".to_string())).unwrap();
    assert_eq!(c.credential(), "k");
}

#[test]
fn openai_refuses_a_custom_address() {
    let r = openai::Client::new(spec("gpt", Some("http://x")), Some("k".to_string()));
    assert_eq!(
        r.unwrap_err(),
        configuration("OpenAI doesn't support custom API address: http://x")
    );
    let r = openai::Client::new(spec("gpt", Some("http://x")), None);
    assert_eq!(
        r.unwrap_err(),
        configuration("OpenAI doesn't support custom API address: http://x")
    );
}

#[test]
fn litellm_needs_its_credential() {
    let r = litellm::Client::new(spec("m", None), None);
    assert_eq!(r.unwrap_err(), configuration("LITELLM_API_KEY environment variable must be set"));
    let r = litellm::Client::new(spec("gpt-4o", Some("http://proxy:4000")), None);
    assert_eq!(r.unwrap_err(), configuration("LITELLM_API_KEY environment variable must be set"));
}

#[test]
fn litellm_falls_back_to_its_default_address() {
    let c = litellm::Client::new(spec("m", None), Some("secret".to_string())).unwrap();
    assert_eq!(c.base_address(), "http://0.0.0.0:4000");
    assert_eq!(c.credential(), "secret");
    let c = litellm::Client::new(spec("m", Some("http://proxy:1")), Some("secret".to_string()))
        .unwrap();
    assert_eq!(c.base_address(), "http://proxy:1");
    assert_eq!(c.credential(), "secret");
}

#[test]
fn ollama_resolves_its_address() {
    let req = request(None, None);
    let c = ollama::Client::new(spec("llama", None)).unwrap();
    assert_eq!(c.build_request(&req).url, "http://localhost:11434/api/generate");
    let c = ollama::Client::new(spec("llama", Some("http://host:1234///"))).unwrap();
    assert_eq!(c.build_request(&req).url, "http://host:1234/api/generate");
    let c = ollama::Client::new(spec("llama", Some("http://host:1234"))).unwrap();
    assert_eq!(c.build_request(&req).url, "http://host:1234/api/generate");
    let c = ollama::Client::new(spec("llama", Some("//"))).unwrap();
    assert_eq!(c.build_request(&req).url, "/api/generate");
}

#[test]
fn trim_trailing_slashes_cuts_only_the_end() {
    assert_eq!(ollama::trim_trailing_slashes("a/b//"), "a/b");
    assert_eq!(ollama::trim_trailing_slashes("/a"), "/a");
    assert_eq!(ollama::trim_trailing_slashes(""), "");
    assert_eq!(ollama::trim_trailing_slashes("///"), "");
    assert_eq!(ollama::trim_trailing_slashes("h\u{e9}/"), "h\u{e9}");
}

#[test]
fn every_envelope_puts_a_reported_error_first() {
    let only = r#"{"error":{"message":"bad key"}}"#;
    let want = reported_fault(r#"{"message":"bad key"}"#);
    assert_eq!(anthropic::Client::extract_text(&json(only)).unwrap_err(), want);
    assert_eq!(gemini::Client::extract_text(&json(only)).unwrap_err(), want);
    assert_eq!(ollama::Client::extract_text(&json(only)).unwrap_err(), want);
    assert_eq!(chat::extract_text(&json(only)).unwrap_err(), want);

    let a = r#"{"content":[{"text":"hi"}],"error":"overloaded"}"#;
    assert_eq!(anthropic::Client::extract_text(&json(a)).unwrap_err(), reported_fault("\"overloaded\""));
    let g = r#"{"error":null,"candidates":[{"content":{"parts":[{"text":"hi"}]}}]}"#;
    assert_eq!(gemini::Client::extract_text(&json(g)).unwrap_err(), reported_fault("null"));
    let o = r#"{"response":"hi","error":"x"}"#;
    assert_eq!(ollama::Client::extract_text(&json(o)).unwrap_err(), reported_fault("\"x\""));
    let c = r#"{"choices":[{"message":{"content":"hi"}}],"error":{"code":1}}"#;
    assert_eq!(chat::extract_text(&json(c)).unwrap_err(), reported_fault(r#"{"code":1}"#));
}

#[test]
fn parse_response_reports_the_error_object() {
    let body = r#"{"error":{"message":"bad key"}}"#;
    let want = reported(r#"{"message":"bad key"}"#);
    let a = anthropic::Client::new(spec("messages-model", None), Some("k".to_string())).unwrap();
    assert_eq!(a.parse_response(body, &schema_format("{}")).unwrap_err(), want);
    let g = gemini::Client::new(spec("g", None), Some("k".to_string())).unwrap();
    assert_eq!(g.parse_response(body).unwrap_err(), want);
    let o = ollama::Client::new(spec("llama", None)).unwrap();
    assert_eq!(o.parse_response(body, &None).unwrap_err(), want);
}

#[test]
fn a_body_that_is_no_json_is_malformed() {
    let want = LlmError::Protocol(ProtocolFault::MalformedBody);
    let a = anthropic::Client::new(spec("messages-model", None), Some("k".to_string())).unwrap();
    assert_eq!(a.parse_response("<html>", &None).unwrap_err(), want);
    let g = gemini::Client::new(spec("g", None), Some("k".to_string())).unwrap();
    assert_eq!(g.parse_response("<html>").unwrap_err(), want);
    let o = ollama::Client::new(spec("llama", None)).unwrap();
    assert_eq!(o.parse_response("<html>", &None).unwrap_err(), want);
}

#[test]
fn a_body_without_text_is_a_fault_but_for_gemini() {
    let want = ProtocolFault::NoContent;
    assert_eq!(anthropic::Client::extract_text(&json("{}")).unwrap_err(), want);
    assert_eq!(anthropic::Client::extract_text(&json(r#"{"content":[]}"#)).unwrap_err(), want);
    assert_eq!(
        anthropic::Client::extract_text(&json(r#"{"content":[{"text":5}]}"#)).unwrap_err(),
        want
    );
    assert_eq!(ollama::Client::extract_text(&json("{}")).unwrap_err(), want);
    assert_eq!(ollama::Client::extract_text(&json(r#"{"response":null}"#)).unwrap_err(), want);
    assert_eq!(chat::extract_text(&json(r#"{"choices":[]}"#)).unwrap_err(), want);
    assert_eq!(
        chat::extract_text(&json(r#"{"choices":[{"message":{"content":null}}]}"#)).unwrap_err(),
        want
    );
    assert_eq!(gemini::Client::extract_text(&json("{}")), Ok(String::new()));
    assert_eq!(gemini::Client::extract_text(&json(r#"{"candidates":[]}"#)), Ok(String::new()));
}

#[test]
fn each_envelope_yields_its_text() {
    let a = r#"{"content":[{"type":"text","text":"one"},{"text":"two"}]}"#;
    assert_eq!(anthropic::Client::extract_text(&json(a)), Ok("one".to_string()));
    let g = r#"{"candidates":[{"content":{"parts":[{"text":"one"},{"text":"two"}]}}]}"#;
    assert_eq!(gemini::Client::extract_text(&json(g)), Ok("one".to_string()));
    let o = r#"{"model":"llama","response":"one","done":true}"#;
    assert_eq!(ollama::Client::extract_text(&json(o)), Ok("one".to_string()));
    let c = r#"{"choices":[{"message":{"role":"assistant","content":"one"}},{"message":{"content":"two"}}]}"#;
    assert_eq!(chat::extract_text(&json(c)), Ok("one".to_string()));
}

#[test]
fn without_a_schema_the_answer_is_text() {
    let text = "{\"a\":1}".to_string();
    assert_eq!(interpret(text.clone(), &None), LlmGenerateResponse::Text(text.clone()));
    assert_eq!(
        normalize(text.clone(), false, Some(a_equals_one())),
        LlmGenerateResponse::Text(text.clone())
    );
    let o = ollama::Client::new(spec("llama", None)).unwrap();
    assert_eq!(
        o.parse_response(r#"{"response":"{\"a\":1}"}"#, &None),
        Ok(LlmGenerateResponse::Text(text.clone()))
    );
    let c = openai::Client::new(spec("gpt", None), Some("k".to_string())).unwrap();
    assert_eq!(
        c.parse_choices(&vec![Some(text.clone())], &None),
        Ok(LlmGenerateResponse::Text(text))
    );
}

#[test]
fn with_a_schema_json_text_is_parsed() {
    let format = schema_format(r#"{"type":"object"}"#);
    let text = "{\"a\":1}".to_string();
    assert_eq!(interpret(text.clone(), &format), LlmGenerateResponse::Json(a_equals_one()));
    let o = ollama::Client::new(spec("llama", None)).unwrap();
    assert_eq!(
        o.parse_response(r#"{"response":"{\"a\":1}"}"#, &format),
        Ok(LlmGenerateResponse::Json(a_equals_one()))
    );
    let a = anthropic::Client::new(spec("messages-model", None), Some("k".to_string())).unwrap();
    assert_eq!(
        a.parse_response(r#"{"content":[{"text":"{\"a\":1}"}]}"#, &format),
        Ok(LlmGenerateResponse::Json(a_equals_one()))
    );
    let c = openai::Client::new(spec("gpt", None), Some("k".to_string())).unwrap();
    assert_eq!(
        c.parse_choices(&vec![Some(text)], &format),
        Ok(LlmGenerateResponse::Json(a_equals_one()))
    );
}

#[test]
fn with_a_schema_other_text_stays_text() {
    let format = schema_format(r#"{"type":"object"}"#);
    let want = LlmGenerateResponse::Text("not json".to_string());
    assert_eq!(interpret("not json".to_string(), &format), want);
    assert_eq!(normalize("not json".to_string(), true, None), want);
    let o = ollama::Client::new(spec("llama", None)).unwrap();
    assert_eq!(o.parse_response(r#"{"response":"not json"}"#, &format), Ok(want));
    let c = openai::Client::new(spec("gpt", None), Some("k".to_string())).unwrap();
    assert_eq!(
        c.parse_choices(&vec![Some("not json".to_string())], &format),
        Ok(LlmGenerateResponse::Text("not json".to_string()))
    );
}

#[test]
fn gemini_and_litellm_hand_text_on_as_it_is() {
    let g = gemini::Client::new(spec("g", None), Some("k".to_string())).unwrap();
    let body = r#"{"candidates":[{"content":{"parts":[{"text":"{\"a\":1}"}]}}]}"#;
    assert_eq!(g.parse_response(body), Ok(LlmGenerateResponse::Text("{\"a\":1}".to_string())));
    let l = litellm::Client::new(spec("m", None), Some("k".to_string())).unwrap();
    assert_eq!(
        l.parse_choices(&vec![Some("{\"a\":1}".to_string()), None]),
        Ok(LlmGenerateResponse::Text("{\"a\":1}".to_string()))
    );
}

#[test]
fn choices_without_content_are_a_fault() {
    let want = LlmError::Protocol(ProtocolFault::NoContent);
    let c = openai::Client::new(spec("gpt", None), Some("k".to_string())).unwrap();
    assert_eq!(c.parse_choices(&vec![], &None).unwrap_err(), want);
    assert_eq!(c.parse_choices(&vec![None, Some("x".to_string())], &None).unwrap_err(), want);
    let l = litellm::Client::new(spec("m", None), Some("k".to_string())).unwrap();
    assert_eq!(l.parse_choices(&vec![]).unwrap_err(), want);
    assert_eq!(chat::first_choice(&vec![None]).unwrap_err(), ProtocolFault::NoContent);
    assert_eq!(chat::first_choice(&vec![]).unwrap_err(), ProtocolFault::NoContent);
    assert_eq!(chat::first_choice(&vec![Some("x".to_string())]), Ok("x".to_string()));
}

#[test]
fn capabilities_are_fixed_per_backend() {
    let chat_like = ToJsonSchemaOptions {
        fields_always_required: true,
        supports_format: false,
        extract_descriptions: false,
        top_level_must_be_object: true,
    };
    let vendor = ToJsonSchemaOptions {
        fields_always_required: false,
        supports_format: false,
        extract_descriptions: false,
        top_level_must_be_object: true,
    };
    let local = ToJsonSchemaOptions {
        fields_always_required: false,
        supports_format: true,
        extract_descriptions: true,
        top_level_must_be_object: false,
    };
    let a = anthropic::Client::new(spec("messages-model", None), Some("k".to_string())).unwrap();
    let g = gemini::Client::new(spec("g", None), Some("k".to_string())).unwrap();
    let o = ollama::Client::new(spec("llama", None)).unwrap();
    let c = openai::Client::new(spec("gpt", None), Some("k".to_string())).unwrap();
    let l = litellm::Client::new(spec("m", None), Some("k".to_string())).unwrap();
    assert_eq!(a.json_schema_options(), vendor);
    assert_eq!(a.json_schema_options(), a.json_schema_options());
    assert_eq!(g.json_schema_options(), vendor);
    assert_eq!(g.json_schema_options(), g.json_schema_options());
    assert_eq!(o.json_schema_options(), local);
    assert_eq!(o.json_schema_options(), o.json_schema_options());
    assert_eq!(c.json_schema_options(), chat_like);
    assert_eq!(c.json_schema_options(), c.json_schema_options());
    assert_eq!(l.json_schema_options(), chat_like);
    assert_eq!(l.json_schema_options(), l.json_schema_options());
}

#[test]
fn ollama_puts_the_strict_instruction_first() {
    let o = ollama::Client::new(spec("llama", None)).unwrap();
    let schema = r#"{"type":"object","additionalProperties":false}"#;
    let call = o.build_request(&request(Some("Be brief."), schema_format(schema)));
    let want = format!("{}\n\nBe brief.", STRICT_JSON_PROMPT);
    assert_eq!(call.body.get("system"), Some(&Json::Str(want)));
    assert_eq!(call.body.get("format"), Some(&json(schema)));

    let call = o.build_request(&request(None, schema_format(schema)));
    assert_eq!(call.body.get("system"), Some(&Json::Str(STRICT_JSON_PROMPT.to_string())));

    let call = o.build_request(&request(Some(""), schema_format(schema)));
    let want = format!("{}\n\n", STRICT_JSON_PROMPT);
    assert_eq!(call.body.get("system"), Some(&Json::Str(want)));
}

#[test]
fn ollama_sends_the_bare_instruction_without_a_caller_prompt() {
    let o = ollama::Client::new(spec("llama", None)).unwrap();
    let req = LlmGenerateRequest {
        user_prompt: "hi".to_string(),
        system_prompt: None,
        output_format: Some(OutputFormat::JsonSchema {
            name: "r".to_string(),
            schema: json(r#"{"type":"object"}"#),
        }),
    };
    let call = o.build_request(&req);
    assert_eq!(call.body.get("system"), Some(&Json::Str(STRICT_JSON_PROMPT.to_string())));
    assert_eq!(call.body.get("prompt"), Some(&Json::Str("hi".to_string())));
}

#[test]
fn ollama_payload_without_a_schema() {
    let o = ollama::Client::new(spec("llama", None)).unwrap();
    let call = o.build_request(&request(Some("Be brief."), None));
    let want = Json::Object(vec![
        ("model".to_string(), Json::Str("llama".to_string())),
        ("prompt".to_string(), Json::Str("What is 1+1?".to_string())),
        ("format".to_string(), Json::Null),
        ("system".to_string(), Json::Str("Be brief.".to_string())),
        ("stream".to_string(), Json::Bool(false)),
    ]);
    assert_eq!(call.body, want);
    assert!(call.headers.is_empty());
    let call = o.build_request(&request(None, None));
    assert_eq!(call.body.get("system"), Some(&Json::Str(String::new())));
}

#[test]
fn strict_prompt_has_its_wording() {
    assert!(STRICT_JSON_PROMPT.starts_with("IMPORTANT: Output ONLY valid JSON"));
    assert!(STRICT_JSON_PROMPT.ends_with("output an empty JSON object: {}."));
}

#[test]
fn anthropic_request_is_a_tool_call() {
    let a = anthropic::Client::new(spec("messages-model", None), Some("sk a/b+\u{e9}~".to_string()))
        .unwrap();
    let schema = r#"{"type":"object","additionalProperties":false}"#;
    let call = a.build_request(&request(Some("Be brief."), schema_format(schema)));
    assert_eq!(call.url, "https://api.anthropic.com/v1/messages");
    assert_eq!(
        call.headers,
        vec![
            ("x-api-key".to_string(), "sk%20a%2Fb%2B%C3%A9~".to_string()),
            ("anthropic-version".to_string(), "2023-06-01".to_string()),
        ]
    );
    let want = Json::Object(vec![
        member("model", text("messages-model")),
        member(
            "messages",
            Json::Array(vec![Json::Object(vec![
                member("role", text("user")),
                member("content", text("What is 1+1?")),
            ])]),
        ),
        member("max_tokens", Json::Number("4096".to_string())),
        member("system", text("Be brief.")),
        member(
            "tools",
            Json::Array(vec![Json::Object(vec![
                member("type", text("custom")),
                member("name", text("report_result")),
                member("input_schema", json(schema)),
            ])]),
        ),
    ]);
    assert_eq!(call.body, want);
    match &call.body {
        Json::Object(members) => assert_eq!(members.len(), 5),
        _ => panic!("the body is an object"),
    }
    let call = a.build_request(&request(None, schema_format(schema)));
    assert_eq!(call.body.get("system"), None);
}

#[test]
fn anthropic_request_for_free_text_names_no_tool() {
    let a = anthropic::Client::new(spec("messages-model", None), Some("k".to_string())).unwrap();
    let call = a.build_request(&request(Some("Be brief."), None));
    assert_eq!(call.url, "https://api.anthropic.com/v1/messages");
    let want = Json::Object(vec![
        member("model", text("messages-model")),
        member(
            "messages",
            Json::Array(vec![Json::Object(vec![
                member("role", text("user")),
                member("content", text("What is 1+1?")),
            ])]),
        ),
        member("max_tokens", Json::Number("4096".to_string())),
        member("system", text("Be brief.")),
    ]);
    assert_eq!(call.body, want);
    assert_eq!(call.body.get("tools"), None);
    let answer = a.parse_response(r#"{"content":[{"text":"{\"a\":1}"}]}"#, &None);
    assert_eq!(answer, Ok(LlmGenerateResponse::Text("{\"a\":1}".to_string())));
}

#[test]
fn gemini_request_strips_the_schema() {
    let g = gemini::Client::new(spec("gemini-pro", None), Some("KEY".to_string())).unwrap();
    let schema = r#"{"type":"object","additionalProperties":false,"properties":{"a":{"type":"object","additionalProperties":true}}}"#;
    let call = g.build_request(&request(Some("Be brief."), schema_format(schema)));
    assert_eq!(
        call.url,
        "https://generativelanguage.googleapis.com/v1beta/models/gemini-pro:generateContent?key=KEY"
    );
    assert!(call.headers.is_empty());
    let contents = Json::Array(vec![Json::Object(vec![
        member("role", text("user")),
        member("parts", Json::Array(vec![Json::Object(vec![member("text", text("What is 1+1?"))])])),
    ])]);
    let want = Json::Object(vec![
        member("contents", contents),
        member("systemInstruction", json(r#"{"parts":[{"text":"Be brief."}]}"#)),
        member(
            "generationConfig",
            Json::Object(vec![
                member("responseMimeType", text("application/json")),
                member(
                    "responseSchema",
                    json(r#"{"properties":{"a":{"type":"object"}},"type":"object"}"#),
                ),
            ]),
        ),
    ]);
    assert_eq!(call.body, want);
    let call = g.build_request(&request(None, None));
    assert_eq!(
        call.body,
        Json::Object(vec![(
            "contents".to_string(),
            Json::Array(vec![Json::Object(vec![
                ("role".to_string(), Json::Str("user".to_string())),
                (
                    "parts".to_string(),
                    Json::Array(vec![Json::Object(vec![(
                        "text".to_string(),
                        Json::Str("What is 1+1?".to_string())
                    )])])
                ),
            ])])
        )])
    );
}

#[test]
fn chat_request_has_system_message_first() {
    let c = openai::Client::new(spec("gpt", None), Some("k".to_string())).unwrap();
    let schema = r#"{"type":"object","additionalProperties":false}"#;
    let r = c.build_request(&request(Some("Be brief."), schema_format(schema)));
    assert_eq!(r.model, "gpt");
    assert_eq!(
        r.messages,
        vec![
            ChatMessage { role: ChatRole::System, content: "Be brief.".to_string() },
            ChatMessage { role: ChatRole::User, content: "What is 1+1?".to_string() },
        ]
    );
    let f = r.response_format.unwrap();
    assert_eq!(f.name, "Answer");
    assert_eq!(f.schema, json(schema));
    assert!(f.strict);

    let l = litellm::Client::new(spec("m", None), Some("k".to_string())).unwrap();
    let r = l.build_request(&request(None, None));
    assert_eq!(r.model, "m");
    assert_eq!(
        r.messages,
        vec![ChatMessage { role: ChatRole::User, content: "What is 1+1?".to_string() }]
    );
    assert_eq!(r.response_format, None);
}

#[test]
fn chat_bodies_are_read_like_the_others() {
    let c = openai::Client::new(spec("gpt", None), Some("k".to_string())).unwrap();
    let format = schema_format(r#"{"type":"object"}"#);
    let body = r#"{"choices":[{"message":{"content":"{\"a\":1}"}}]}"#;
    assert_eq!(c.parse_response(body, &format), Ok(LlmGenerateResponse::Json(a_equals_one())));
    assert_eq!(
        c.parse_response(body, &None),
        Ok(LlmGenerateResponse::Text("{\"a\":1}".to_string()))
    );
    assert_eq!(
        c.parse_response(r#"{"error":{"code":401}}"#, &format).unwrap_err(),
        reported(r#"{"code":401}"#)
    );
    assert_eq!(
        c.parse_response("oops", &format).unwrap_err(),
        LlmError::Protocol(ProtocolFault::MalformedBody)
    );
    let l = litellm::Client::new(spec("m", None), Some("k".to_string())).unwrap();
    assert_eq!(l.parse_response(body), Ok(LlmGenerateResponse::Text("{\"a\":1}".to_string())));
    assert_eq!(
        l.parse_response(r#"{"error":{"code":401}}"#).unwrap_err(),
        reported(r#"{"code":401}"#)
    );
    assert_eq!(
        l.parse_response(r#"{"choices":[]}"#).unwrap_err(),
        LlmError::Protocol(ProtocolFault::NoContent)
    );
}
