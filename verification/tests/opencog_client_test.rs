//! Request bodies, response extraction and prepared requests.

use opencog_client::client::{
    prepare_chat_completions, prepare_embeddings, OpenCogClient, OpenCogConfig, RequestData,
    API_BASE,
};
use opencog_client::json::{Json, JsonNumber};
use opencog_client::model::{
    ChatCompletionsData, ClientError, EmbeddingsData, Message, MessageRole, Model, ToolCall,
};
use opencog_client::request::{opencog_build_chat_completions_body, opencog_build_embeddings_body};
use opencog_client::response::{
    catch_error, opencog_chat_completions, opencog_embeddings, opencog_extract_chat_completions,
    opencog_extract_embeddings, status_is_success, tool_call_from,
};
use opencog_client::stream::{StreamAccumulator, SseHandler};
use serde_json::Value;

fn model(name: &str, max_tokens: Option<i64>) -> Model {
    Model { name: name.to_string(), max_tokens }
}

fn message(role: MessageRole, content: &str) -> Message {
    Message { role, content: content.to_string() }
}

fn chat(messages: Vec<Message>) -> ChatCompletionsData {
    ChatCompletionsData { messages, temperature: None, top_p: None, functions: None, stream: false }
}

fn doc(text: &str) -> Json {
    Json::parse(text).expect("a JSON document")
}

fn wire(body: &Json) -> Value {
    serde_json::from_str(&body.to_text()).expect("printed JSON")
}

fn client(api_base: Option<&str>, api_key: Option<&str>) -> OpenCogClient {
    OpenCogClient {
        config: OpenCogConfig {
            name: None,
            api_key: api_key.map(|v| v.to_string()),
            api_base: api_base.map(|v| v.to_string()),
            models: vec![],
        },
        model: model("opencog-chat", None),
    }
}

#[test]
fn test_opencog_build_chat_completions_body_basic() {
    let data = chat(vec![message(MessageRole::User, "Hello, OpenCog!")]);
    let body = wire(&opencog_build_chat_completions_body(data, &model("opencog-chat", None)));

    assert_eq!(body["model"], "opencog-chat");
    assert!(body["messages"].is_array());
    assert_eq!(body["messages"][0]["role"], "user");
    assert_eq!(body["messages"][0]["content"], "Hello, OpenCog!");
}

#[test]
fn test_opencog_build_chat_completions_body_with_options() {
    let mut data = chat(vec![
        message(MessageRole::System, "You are an OpenCog reasoning assistant."),
        message(MessageRole::User, "What is PLN?"),
    ]);
    data.temperature = Some(JsonNumber::Float("0.7".to_string()));
    data.top_p = Some(JsonNumber::Float("0.9".to_string()));
    data.stream = true;
    let body =
        wire(&opencog_build_chat_completions_body(data, &model("opencog-reasoning", Some(1000))));

    assert_eq!(body["model"], "opencog-reasoning");
    assert_eq!(body["temperature"], 0.7);
    assert_eq!(body["top_p"], 0.9);
    assert_eq!(body["max_tokens"], 1000);
    assert_eq!(body["stream"], true);
}

#[test]
fn test_opencog_build_chat_completions_body_with_tools() {
    let def = doc(
        r#"{
            "name": "pln_deduction",
            "description": "Calculate PLN deduction TruthValue",
            "parameters": {
                "type": "object",
                "properties": {
                    "premise1_strength": {"type": "number"},
                    "premise1_confidence": {"type": "number"},
                    "premise2_strength": {"type": "number"},
                    "premise2_confidence": {"type": "number"}
                },
                "required": ["premise1_strength", "premise1_confidence", "premise2_strength", "premise2_confidence"]
            }
        }"#,
    );
    let mut data = chat(vec![message(MessageRole::User, "Calculate PLN deduction")]);
    data.functions = Some(vec![def]);
    let body = wire(&opencog_build_chat_completions_body(data, &model("opencog-reasoning", None)));

    assert!(body["tools"].is_array());
    assert_eq!(body["tools"][0]["type"], "function");
    assert_eq!(body["tools"][0]["function"]["name"], "pln_deduction");
}

#[test]
fn test_opencog_build_embeddings_body() {
    let data = EmbeddingsData {
        texts: vec!["OpenCog AtomSpace".to_string(), "Probabilistic Logic Networks".to_string()],
    };
    let body = wire(&opencog_build_embeddings_body(&data, &model("opencog-embed", None)));

    assert_eq!(body["model"], "opencog-embed");
    assert!(body["input"].is_array());
    assert_eq!(body["input"].as_array().unwrap().len(), 2);
}

#[test]
fn test_opencog_extract_chat_completions_response() {
    let response = doc(
        r#"{
            "id": "chatcmpl-opencog-123",
            "object": "chat.completion",
            "created": 1234567890,
            "model": "opencog-chat",
            "choices": [{
                "index": 0,
                "message": {
                    "role": "assistant",
                    "content": "PLN (Probabilistic Logic Networks) is a framework for uncertain inference."
                },
                "finish_reason": "stop"
            }],
            "usage": {"prompt_tokens": 10, "completion_tokens": 20, "total_tokens": 30}
        }"#,
    );
    let output = opencog_extract_chat_completions(&response).unwrap();

    assert!(!output.text.is_empty());
    assert!(output.text.contains("PLN"));
    assert_eq!(output.input_tokens, Some(10));
    assert_eq!(output.output_tokens, Some(20));
    assert_eq!(output.id, Some("chatcmpl-opencog-123".to_string()));
    assert!(output.tool_calls.is_empty());
}

#[test]
fn test_opencog_extract_tool_calls_response() {
    let response = doc(
        r#"{
            "id": "chatcmpl-opencog-456",
            "choices": [{
                "message": {
                    "role": "assistant",
                    "content": "",
                    "tool_calls": [{
                        "id": "call_1",
                        "type": "function",
                        "function": {
                            "name": "pln_deduction",
                            "arguments": "{\"premise1_strength\":0.8,\"premise1_confidence\":0.9,\"premise2_strength\":0.7,\"premise2_confidence\":0.85}"
                        }
                    }]
                }
            }]
        }"#,
    );
    let output = opencog_extract_chat_completions(&response).unwrap();

    assert_eq!(output.tool_calls.len(), 1);
    assert_eq!(output.tool_calls[0].name, "pln_deduction");
    assert_eq!(output.tool_calls[0].id, Some("call_1".to_string()));
    let args = wire(&output.tool_calls[0].arguments);
    assert_eq!(args["premise1_strength"], 0.8);
    assert_eq!(args["premise1_confidence"], 0.9);
    assert_eq!(output.text, "");
    assert_eq!(output.input_tokens, None);
}

#[test]
fn test_opencog_embeddings_response() {
    let response = doc(
        r#"{
            "object": "list",
            "data": [
                {"object": "embedding", "index": 0, "embedding": [0.1, 0.2, 0.3, 0.4, 0.5]},
                {"object": "embedding", "index": 1, "embedding": [0.2, 0.3, 0.4, 0.5, 0.6]}
            ],
            "model": "opencog-embed",
            "usage": {"prompt_tokens": 8, "total_tokens": 8}
        }"#,
    );
    let embeddings = opencog_embeddings(200, &response).unwrap();
    assert_eq!(embeddings.len(), 2);
    assert_eq!(embeddings[0].len(), 5);
    assert_eq!(embeddings[1].len(), 5);
    assert_eq!(embeddings[0][0], JsonNumber::Float("0.1".to_string()));
    assert_eq!(embeddings[1][4], JsonNumber::Float("0.6".to_string()));
    let first: f64 = match &embeddings[0][0] {
        JsonNumber::Float(t) => t.parse().unwrap(),
        _ => panic!("a fraction is no integer"),
    };
    assert_eq!(first, 0.1);
}

#[test]
fn test_opencog_api_base_default() {
    let default_base = "http://localhost:5000/v1";
    assert_eq!(API_BASE, default_base);
    let c = client(None, None);
    let chat_request = prepare_chat_completions(&c, chat(vec![])).unwrap();
    let embed_request = prepare_embeddings(&c, &EmbeddingsData { texts: vec![] }).unwrap();

    assert_eq!(chat_request.url, "http://localhost:5000/v1/chat/completions");
    assert_eq!(embed_request.url, "http://localhost:5000/v1/embeddings");
}

#[test]
fn test_opencog_api_base_custom() {
    let custom_base = "http://cogserver.local:8080/api";
    let c = client(Some(custom_base), None);
    let request = prepare_chat_completions(&c, chat(vec![])).unwrap();

    assert_eq!(request.url, "http://cogserver.local:8080/api/chat/completions");
}

#[test]
fn test_opencog_streaming_response_parsing() {
    let sse_data = r#"{"choices":[{"delta":{"content":"Hello"}}]}"#;
    let mut acc = StreamAccumulator::new();
    let mut handler = SseHandler::new();
    let done = acc.handle(sse_data, &mut handler).unwrap();

    assert!(!done);
    assert_eq!(handler.texts, vec!["Hello".to_string()]);
}

#[test]
fn test_opencog_streaming_tool_call_parsing() {
    let sse_data = r#"{"choices":[{"delta":{"tool_calls":[{"id":"call_1","function":{"name":"pln_deduction","arguments":"{\"premise1"}}]}}]}"#;
    let mut acc = StreamAccumulator::new();
    let mut handler = SseHandler::new();
    acc.handle(sse_data, &mut handler).unwrap();

    assert_eq!(acc.function_name, "pln_deduction");
    assert_eq!(acc.function_arguments, "{\"premise1");
    assert_eq!(acc.function_id, "call_1");
    assert!(handler.texts.is_empty());
}

#[test]
fn api_base_trailing_slashes_are_stripped() {
    let c = client(Some("http://host/v1///"), None);
    let request = prepare_embeddings(&c, &EmbeddingsData { texts: vec![] }).unwrap();
    assert_eq!(request.url, "http://host/v1/embeddings");
    let only = client(Some("/"), None);
    assert_eq!(prepare_chat_completions(&only, chat(vec![])).unwrap().url, "/chat/completions");
}

#[test]
fn bearer_header_only_with_a_key() {
    let without = prepare_chat_completions(&client(None, None), chat(vec![])).unwrap();
    assert!(without.headers.is_empty());
    let with = prepare_chat_completions(&client(None, Some("k1")), chat(vec![])).unwrap();
    assert_eq!(with.headers, vec![("authorization".to_string(), "Bearer k1".to_string())]);
    let mut plain = RequestData::new("u".to_string(), Json::Null);
    plain.bearer_auth("abc");
    assert_eq!(plain.headers[0].1, "Bearer abc");
}

#[test]
fn chat_body_omits_what_is_absent() {
    let body = opencog_build_chat_completions_body(
        chat(vec![message(MessageRole::Assistant, "hi")]),
        &model("m", None),
    );
    for key in ["temperature", "top_p", "max_tokens", "stream", "tools"] {
        assert_eq!(body.get(key), None);
    }
    assert_eq!(body.get("model"), Some(&Json::Str("m".to_string())));
    assert_eq!(body.to_text(), r#"{"messages":[{"content":"hi","role":"assistant"}],"model":"m"}"#);
    match &body {
        Json::Object(members) => assert_eq!(members.len(), 2),
        _ => panic!("the body is an object"),
    }
}

#[test]
fn chat_body_includes_what_is_present() {
    let mut data = chat(vec![]);
    data.temperature = Some(JsonNumber::PosInt(1));
    data.top_p = Some(JsonNumber::Float("0.5".to_string()));
    data.stream = true;
    data.functions = Some(vec![doc(r#"{"name":"f"}"#), doc(r#"{"name":"g"}"#)]);
    let body = opencog_build_chat_completions_body(data, &model("m", Some(-1)));
    assert_eq!(body.get("temperature"), Some(&Json::Number(JsonNumber::PosInt(1))));
    assert_eq!(body.get("top_p"), Some(&Json::Number(JsonNumber::Float("0.5".to_string()))));
    assert_eq!(body.get("max_tokens"), Some(&Json::Number(JsonNumber::NegInt(-1))));
    assert_eq!(body.get("stream"), Some(&Json::Bool(true)));
    let tools = wire(&body)["tools"].clone();
    assert_eq!(tools.as_array().unwrap().len(), 2);
    assert_eq!(tools[0]["function"]["name"], "f");
    assert_eq!(tools[1]["function"]["name"], "g");
    assert_eq!(tools[1]["type"], "function");
}

#[test]
fn embeddings_body_is_input_and_model() {
    let data = EmbeddingsData { texts: vec!["a".to_string(), "b".to_string()] };
    let body = opencog_build_embeddings_body(&data, &model("M", None));
    assert_eq!(body.to_text(), r#"{"input":["a","b"],"model":"M"}"#);
    assert_eq!(
        body,
        Json::Object(vec![
            (
                "input".to_string(),
                Json::Array(vec![Json::Str("a".to_string()), Json::Str("b".to_string())])
            ),
            ("model".to_string(), Json::Str("M".to_string())),
        ])
    );
}

#[test]
fn extract_text_only() {
    let output =
        opencog_extract_chat_completions(&doc(r#"{"choices":[{"message":{"content":"X"}}]}"#))
            .unwrap();
    assert_eq!(output.text, "X");
    assert!(output.tool_calls.is_empty());
    assert_eq!(output.id, None);
    assert_eq!(output.input_tokens, None);
    assert_eq!(output.output_tokens, None);
}

#[test]
fn extract_tool_call_with_parsed_arguments() {
    let output = opencog_extract_chat_completions(&doc(
        r#"{"choices":[{"message":{"content":"","tool_calls":[{"id":"1","function":{"name":"f","arguments":"{\"a\":1}"}}]}}]}"#,
    ))
    .unwrap();
    assert_eq!(output.text, "");
    assert_eq!(
        output.tool_calls,
        vec![ToolCall {
            name: "f".to_string(),
            arguments: Json::Object(vec![("a".to_string(), Json::Number(JsonNumber::PosInt(1)))]),
            id: Some("1".to_string()),
        }]
    );
}

#[test]
fn extract_empty_response_fails() {
    let text = r#"{"choices":[{"message":{"content":"","tool_calls":[]}}]}"#;
    let err = opencog_extract_chat_completions(&doc(text)).unwrap_err();
    assert_eq!(err, ClientError::EmptyResponse { document: text.to_string() });
    assert_eq!(err.message(), format!("Invalid response data: {text}"));
    assert!(matches!(
        opencog_extract_chat_completions(&Json::Null),
        Err(ClientError::EmptyResponse { .. })
    ));
}

#[test]
fn extract_bad_arguments_fail_the_call() {
    let err = opencog_extract_chat_completions(&doc(
        r#"{"choices":[{"message":{"content":"some text","tool_calls":[
            {"id":"1","function":{"name":"good","arguments":"{}"}},
            {"id":"2","function":{"name":"f","arguments":"{bad"}}]}}]}"#,
    ))
    .unwrap_err();
    assert_eq!(
        err,
        ClientError::ArgumentParse { name: "f".to_string(), arguments: "{bad".to_string() }
    );
    assert_eq!(err.message(), "Tool call 'f' have non-JSON arguments '{bad'");
}

#[test]
fn extract_skips_entries_that_lack_a_string() {
    let output = opencog_extract_chat_completions(&doc(
        r#"{"choices":[{"message":{"content":"t","tool_calls":[
            {"function":{"name":"no_id","arguments":"{}"}},
            {"id":"2","function":{"name":"g","arguments":"[1]"}}]}}]}"#,
    ))
    .unwrap();
    assert_eq!(output.tool_calls.len(), 1);
    assert_eq!(output.tool_calls[0].name, "g");
    assert_eq!(output.tool_calls[0].arguments, Json::Array(vec![Json::Number(JsonNumber::PosInt(1))]));
}

#[test]
fn tool_call_from_each_outcome() {
    assert_eq!(
        tool_call_from("n", "null", "i", Some(Json::Null)),
        Ok(ToolCall { name: "n".to_string(), arguments: Json::Null, id: Some("i".to_string()) })
    );
    assert_eq!(
        tool_call_from("n", "x", "i", None),
        Err(ClientError::ArgumentParse { name: "n".to_string(), arguments: "x".to_string() })
    );
}

#[test]
fn failed_status_is_classified() {
    let body = doc(r#"{"error":{"message":"model overloaded","type":"server"}}"#);
    let err = opencog_chat_completions(503, &body).unwrap_err();
    assert_eq!(err, ClientError::HttpStatus { status: 503, message: "model overloaded".to_string() });
    assert_eq!(err.message(), "model overloaded");
    let odd = doc(r#"{"detail": [1, 2]}"#);
    assert_eq!(
        catch_error(&odd, 404),
        ClientError::HttpStatus { status: 404, message: r#"{"detail":[1,2]}"#.to_string() }
    );
    assert_eq!(
        opencog_embeddings(199, &odd),
        Err(ClientError::HttpStatus { status: 199, message: r#"{"detail":[1,2]}"#.to_string() })
    );
    assert!(matches!(opencog_chat_completions(300, &body), Err(ClientError::HttpStatus { .. })));
}

#[test]
fn success_status_bounds() {
    assert!(!status_is_success(199));
    assert!(status_is_success(200));
    assert!(status_is_success(299));
    assert!(!status_is_success(300));
    assert!(!status_is_success(0));
    let body = doc(r#"{"choices":[{"message":{"content":"ok"}}]}"#);
    assert_eq!(opencog_chat_completions(200, &body).unwrap().text, "ok");
    assert_eq!(opencog_chat_completions(299, &body).unwrap().text, "ok");
}

#[test]
fn embeddings_structural_mismatch_is_malformed() {
    for text in [
        r#"{}"#,
        r#"{"data": 1}"#,
        r#"{"data": [{"embedding": [1, "x"]}]}"#,
        r#"{"data": [{"embedding": [1]}, {"vector": [2]}]}"#,
        r#"{"data": [{"embedding": {"0": 1}}]}"#,
    ] {
        let err = opencog_extract_embeddings(&doc(text)).unwrap_err();
        assert_eq!(err, ClientError::MalformedPayload);
        assert_eq!(err.message(), "Invalid embeddings data");
    }
}

#[test]
fn embeddings_keep_order_and_number_shapes() {
    let out = opencog_extract_embeddings(&doc(r#"{"data":[{"embedding":[1,-2,1.5]},{"embedding":[]}]}"#))
        .unwrap();
    assert_eq!(
        out,
        vec![
            vec![JsonNumber::PosInt(1), JsonNumber::NegInt(-2), JsonNumber::Float("1.5".to_string())],
            vec![],
        ]
    );
}

#[test]
fn default_config_is_empty() {
    let config = OpenCogConfig::default();
    assert_eq!(
        config,
        OpenCogConfig { name: None, api_key: None, api_base: None, models: vec![] }
    );
    assert_eq!(config.clone(), config);
}

#[test]
fn prepared_request_carries_the_body() {
    let c = client(Some("http://h/"), Some("key"));
    let data = EmbeddingsData { texts: vec!["t".to_string()] };
    let request = prepare_embeddings(&c, &data).unwrap();
    assert_eq!(request.body, opencog_build_embeddings_body(&data, &c.model));
    assert_eq!(request.url, "http://h/embeddings");
    let chat_request =
        prepare_chat_completions(&c, chat(vec![message(MessageRole::User, "q")])).unwrap();
    assert_eq!(
        chat_request.body.to_text(),
        r#"{"messages":[{"content":"q","role":"user"}],"model":"opencog-chat"}"#
    );
}

#[test]
fn extract_passes_over_a_call_without_a_name() {
    let output = opencog_extract_chat_completions(&doc(
        r#"{"choices":[{"message":{"content":"t","tool_calls":[
            {"id":"1","function":{"name":"","arguments":"{}"}},
            {"id":"2","function":{"name":"","arguments":"{bad"}},
            {"id":"3","function":{"name":"named","arguments":"{\"a\":1}"}}]}}]}"#,
    ))
    .unwrap();
    assert_eq!(
        output.tool_calls,
        vec![ToolCall {
            name: "named".to_string(),
            arguments: Json::Object(vec![("a".to_string(), Json::Number(JsonNumber::PosInt(1)))]),
            id: Some("3".to_string()),
        }]
    );
    assert!(output.tool_calls.iter().all(|c| !c.name.is_empty() && c.id.is_some()));
}

#[test]
fn extract_only_nameless_calls_is_an_empty_response() {
    let text = r#"{"choices":[{"message":{"content":"","tool_calls":[{"function":{"arguments":"{}","name":""},"id":"1"}]}}]}"#;
    let err = opencog_extract_chat_completions(&doc(text)).unwrap_err();
    assert_eq!(err, ClientError::EmptyResponse { document: text.to_string() });
}
