use serde_json::Value;
use xiaozhi::llm::message::{ChatMessage, ToolInfo};
use xiaozhi::llm::openai_request::{
    build_messages, build_tools, chat_request_body, completion_from_reply, normalize_tool_calls,
    normalize_tool_parameters, parse_tool_calls, vision_answer, vision_request_body, OpenAiLlmProvider,
};
use xiaozhi::llm::openai_stream::{LlmCompletion, ToolCall};

fn parse(text: &str) -> Value {
    serde_json::from_str(text).unwrap()
}

#[test]
fn normalize_tool_calls_serializes_arguments_as_string() {
    let calls = r#"[{"id":"call_1","type":"function","function":{"name":"demo_tool","arguments":{"city":"上海"}}}]"#;
    let normalized = parse(&normalize_tool_calls(calls));
    assert_eq!(
        normalized[0]["function"]["arguments"],
        Value::String("{\"city\":\"上海\"}".to_string())
    );
}

#[test]
fn build_messages_keeps_user_content_as_string() {
    let dialogue = vec![ChatMessage::system("你是助手"), ChatMessage::user("麦当劳今天有什么吃的")];
    let messages = build_messages(&dialogue);
    assert_eq!(messages.len(), 2);
    let second = parse(&messages[1]);
    assert_eq!(second["role"], "user");
    assert!(second["content"].is_string());
}

#[test]
fn normalize_tool_parameters_adds_object_type() {
    let params = r#"{"properties":{"q":{"type":"string"}}}"#;
    let normalized = parse(&normalize_tool_parameters(params));
    assert_eq!(normalized["type"], "object");
}

#[test]
fn build_tools_uses_normalized_parameters() {
    let tools = vec![ToolInfo {
        name: "demo".into(),
        description: "demo".into(),
        parameters: r#"{"properties":{"q":{"type":"string"}}}"#.into(),
    }];
    let built = build_tools(&tools);
    assert_eq!(parse(&built[0])["function"]["parameters"]["type"], "object");
}

#[test]
fn tool_parameters_keep_their_type_and_unwrap_strings() {
    let kept = normalize_tool_parameters(r#"{"type":"array","items":{}}"#);
    assert_eq!(kept, r#"{"items":{},"type":"array"}"#);
    let wrapped = normalize_tool_parameters(r#""{\"properties\":{}}""#);
    assert_eq!(wrapped, r#"{"properties":{},"type":"object"}"#);
    assert_eq!(normalize_tool_parameters("42"), r#"{"properties":{},"type":"object"}"#);
    assert_eq!(normalize_tool_parameters(r#""not json""#), r#"{"properties":{},"type":"object"}"#);
}

#[test]
fn tool_calls_that_are_not_arrays_are_kept() {
    assert_eq!(normalize_tool_calls(r#"{ "a" : 1 }"#), r#"{"a":1}"#);
    let calls = r#"[{"id":"c","function":{"name":"f","arguments":"{}"}}]"#;
    assert_eq!(normalize_tool_calls(calls), r#"[{"function":{"arguments":"{}","name":"f"},"id":"c"}]"#);
}

#[test]
fn message_json_lists_call_id_and_tool_calls() {
    let tool = ChatMessage::tool("done", "call_9");
    let assistant = ChatMessage::assistant("").with_tool_calls(r#"[{"id":"c","function":{"name":"f","arguments":{"x":1}}}]"#.to_string());
    let out = build_messages(&[tool, assistant]);
    assert_eq!(out[0], r#"{"content":"done","role":"tool","tool_call_id":"call_9"}"#);
    assert_eq!(
        out[1],
        r#"{"content":"","role":"assistant","tool_calls":[{"function":{"arguments":"{\"x\":1}","name":"f"},"id":"c"}]}"#
    );
}

#[test]
fn settings_come_from_config_with_defaults() {
    let p = OpenAiLlmProvider::from_config("{}", String::new(), "ds".to_string());
    assert_eq!(p.model_name, "gpt-4o-mini");
    assert_eq!(p.base_url, "https://api.openai.com/v1");
    assert_eq!(p.max_tokens, 500);
    assert!(!p.is_valid());
    let q = OpenAiLlmProvider::from_config(
        r#"{"model_name":"qwen","base_url":"https://dashscope.aliyuncs.com/compatible-mode/v1//","max_token":64}"#,
        String::new(),
        "ds".to_string(),
    );
    assert_eq!(q.model_name, "qwen");
    assert_eq!(q.base_url, "https://dashscope.aliyuncs.com/compatible-mode/v1");
    assert_eq!(q.max_tokens, 64);
    assert_eq!(q.api_key, "ds");
    assert!(q.is_valid());
    assert_eq!(q.chat_url(), "https://dashscope.aliyuncs.com/compatible-mode/v1/chat/completions");
    let r = OpenAiLlmProvider::from_config(r#"{"max_tokens":"x","max_token":64}"#, "k".to_string(), String::new());
    assert_eq!(r.max_tokens, 500);
    assert_eq!(r.api_key, "k");
    let big = OpenAiLlmProvider::from_config(r#"{"max_tokens":4294967297}"#, String::new(), String::new());
    assert_eq!(big.max_tokens, 1);
}

#[test]
fn chat_body_is_written_in_key_order() {
    let p = OpenAiLlmProvider::from_config(r#"{"model_name":"m","max_tokens":10}"#, "k".into(), String::new());
    let body = chat_request_body(&p, &[ChatMessage::user("hi")], &[], true);
    assert_eq!(
        body,
        r#"{"max_tokens":10,"messages":[{"content":"hi","role":"user"}],"model":"m","stream":true}"#
    );
    let tools = vec![ToolInfo { name: "t".into(), description: "d".into(), parameters: "{}".into() }];
    let with_tools = chat_request_body(&p, &[], &tools, false);
    assert_eq!(
        with_tools,
        r#"{"max_tokens":10,"messages":[],"model":"m","stream":false,"tools":[{"function":{"description":"d","name":"t","parameters":{"type":"object"}},"type":"function"}]}"#
    );
    let v = parse(&with_tools);
    assert_eq!(v["tools"][0]["function"]["name"], "t");
}

#[test]
fn reply_gives_answer_and_tool_calls() {
    let reply = r#"{"choices":[{"message":{"content":"ok","tool_calls":[
        {"id":"a","function":{"name":"f","arguments":"{\"x\": 1}"}},
        {"id":"b","function":{"name":"g"}},
        {"function":{"name":"no_id"}},
        {"id":"c","function":{"name":"h","arguments":{"y":2}}},
        {"id":"d","function":{"name":"k","arguments":"broken"}}
    ]}}]}"#;
    let c = completion_from_reply(reply);
    assert_eq!(c.content, "ok");
    let calls: Vec<(String, String, String)> =
        c.tool_calls.iter().map(|t| (t.id.clone(), t.name.clone(), t.arguments.clone())).collect();
    assert_eq!(
        calls,
        vec![
            ("a".to_string(), "f".to_string(), r#"{"x":1}"#.to_string()),
            ("b".to_string(), "g".to_string(), "{}".to_string()),
            ("c".to_string(), "h".to_string(), r#"{"y":2}"#.to_string()),
            ("d".to_string(), "k".to_string(), "{}".to_string()),
        ]
    );
    assert!(c.has_tool_calls());
    let empty = completion_from_reply("{}");
    assert_eq!(empty.content, "");
    assert!(!empty.has_tool_calls());
    assert!(parse_tool_calls("not json", "").is_empty());
}

#[test]
fn assistant_message_lists_calls() {
    let c = LlmCompletion {
        content: "hi".to_string(),
        tool_calls: vec![ToolCall { id: "a".into(), name: "f".into(), arguments: r#"{ "x" : 1 }"#.into() }],
    };
    let m = c.to_assistant_message();
    assert_eq!(m.content, "hi");
    assert_eq!(
        m.extra_value("tool_calls").unwrap(),
        r#"[{"function":{"arguments":"{\"x\":1}","name":"f"},"id":"a","type":"function"}]"#
    );
    let plain = LlmCompletion { content: "x".into(), tool_calls: vec![] }.to_assistant_message();
    assert!(plain.extra.is_empty());
}

#[test]
fn vision_request_and_answer() {
    let p = OpenAiLlmProvider::from_config(r#"{"model_name":"v","max_tokens":5}"#, "k".into(), String::new());
    let body = vision_request_body(&p, b"ab", "what?", "image/png");
    assert_eq!(
        body,
        r#"{"max_tokens":5,"messages":[{"content":[{"text":"what?","type":"text"},{"image_url":{"url":"data:image/png;base64,YWI="},"type":"image_url"}],"role":"user"}],"model":"v"}"#
    );
    assert_eq!(vision_answer(r#"{"choices":[{"message":{"content":"a cat"}}]}"#), "a cat");
    assert_eq!(vision_answer("[]"), "");
}

#[test]
fn error_text_reads_the_error_member() {
    let mut m = ChatMessage::system("");
    assert!(!m.is_error());
    m.extra.push(("error".to_string(), "\"boom\"".to_string()));
    assert!(m.is_error());
    assert_eq!(m.error_text(), Some("boom".to_string()));
}
