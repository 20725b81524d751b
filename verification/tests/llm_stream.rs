use xiaozhi::llm::sse_stream::{iter_sse_events, split_lines};

#[test]
fn parses_chunk_and_done() {
    let body = "event: chunk\ndata: {\"a\":1}\n\nevent: done\ndata: {}\n\n";
    let events: Vec<_> = iter_sse_events(body).into_iter().collect();
    assert_eq!(events.len(), 2);
    assert_eq!(events[0].event_type, "chunk");
    assert_eq!(events[0].data, "{\"a\":1}");
}

#[test]
fn sse_defaults_type_and_joins_data_lines() {
    let events = iter_sse_events("data: a\r\ndata:b\n\n: comment\ndata: c");
    assert_eq!(events.len(), 2);
    assert_eq!(events[0].event_type, "message");
    assert_eq!(events[0].data, "a\nb");
    assert_eq!(events[1].data, "c");
}

#[test]
fn sse_drops_event_without_data() {
    let events = iter_sse_events("event: ping\n\nevent: x\ndata: 1\n\n");
    assert_eq!(events.len(), 1);
    assert_eq!(events[0].event_type, "x");
}

#[test]
fn lines_match_std_lines() {
    for s in ["", "a", "a\n", "a\r\nb", "\n\n", "a\rb\n", "x\r"] {
        let ours = split_lines(s);
        let std_lines: Vec<String> = s.lines().map(|l| l.to_string()).collect();
        assert_eq!(ours, std_lines, "input {:?}", s);
    }
}

use xiaozhi::llm::coze::{coze_stream_steps, is_coze_done_marker, is_event_stream, CozeLlmProvider};
use xiaozhi::llm::dify::{dify_stream_steps, DifyLlmProvider};
use xiaozhi::llm::openai::{OpenAiOutput, OpenAiStream};
use xiaozhi::llm::openai_stream::{tool_call_deltas, LlmCompletion, StreamingToolCallAccumulator};
use xiaozhi::llm::provider::{LlmError, StreamStep};
use xiaozhi::llm::message::ChatMessage;

#[test]
fn merges_streaming_tool_call_fragments() {
    let mut acc = StreamingToolCallAccumulator::default();
    acc.merge_delta(&tool_call_deltas(
        r#"{"tool_calls":[{"index":0,"id":"call_1","function":{"name":"get_weather","arguments":""}}]}"#,
    ));
    acc.merge_delta(&tool_call_deltas(r#"{"tool_calls":[{"index":0,"function":{"arguments":"{\"city\":"}}]}"#));
    acc.merge_delta(&tool_call_deltas(r#"{"tool_calls":[{"index":0,"function":{"arguments":"\"上海\"}"}}]}"#));
    let calls = acc.into_tool_calls();
    assert_eq!(calls.len(), 1);
    assert_eq!(calls[0].name, "get_weather");
    let args: serde_json::Value = serde_json::from_str(&calls[0].arguments).unwrap();
    assert_eq!(args["city"], "上海");
}

#[test]
fn tool_calls_come_out_in_index_order_and_incomplete_ones_are_dropped() {
    let mut acc = StreamingToolCallAccumulator::new();
    acc.merge_delta(&tool_call_deltas(
        r#"{"tool_calls":[{"index":2,"id":"c2","function":{"name":"b","arguments":"not json"}},{"index":0,"id":"c0","function":{"name":"a"}},{"index":1,"function":{"name":"nameless"}}]}"#,
    ));
    assert_eq!(
        acc.to_tool_calls_json().unwrap(),
        r#"[{"function":{"arguments":"","name":"a"},"id":"c0","type":"function"},{"function":{"arguments":"not json","name":"b"},"id":"c2","type":"function"}]"#
    );
    let calls = acc.into_tool_calls();
    assert_eq!(calls.len(), 2);
    assert_eq!(calls[0].id, "c0");
    assert_eq!(calls[0].arguments, "{}");
    assert_eq!(calls[1].id, "c2");
    assert_eq!(calls[1].arguments, "{}");
    assert!(StreamingToolCallAccumulator::new().to_tool_calls_json().is_none());
    assert!(tool_call_deltas("not json").is_empty());
}

#[test]
fn openai_stream_passes_pieces_and_ends_with_tool_calls() {
    let mut s = OpenAiStream::new();
    let mut out = s.feed("data: {\"choices\":[{\"delta\":{\"content\":\"Hel\"}}]}\n: keep-alive\ndata: {\"choices\":[{\"delta\":{\"con");
    out.extend(s.feed("tent\":\"lo\",\"tool_calls\":[{\"index\":0,\"id\":\"t\",\"function\":{\"name\":\"f\",\"arguments\":\"{}\"}}]}}]}\n"));
    assert_eq!(out.len(), 2);
    assert!(matches!(&out[0], OpenAiOutput::Piece(p) if p == "Hel"));
    assert!(matches!(&out[1], OpenAiOutput::Piece(p) if p == "lo"));
    let end = s.feed("data: [DONE]\ndata: {\"choices\":[{\"delta\":{\"content\":\"late\"}}]}\n");
    assert_eq!(end.len(), 1);
    match &end[0] {
        OpenAiOutput::Final { content, tool_calls_json } => {
            assert_eq!(content, "Hello");
            assert!(tool_calls_json.contains("\"id\":\"t\""));
        }
        other => panic!("unexpected {:?}", other),
    }
    assert!(s.is_done());
    assert!(s.feed("data: {\"choices\":[{\"delta\":{\"content\":\"x\"}}]}\n").is_empty());
    assert!(s.finish().is_none());
}

#[test]
fn openai_stream_without_tool_calls_ends_quietly() {
    let mut s = OpenAiStream::new();
    let out = s.feed("data: {\"choices\":[{\"delta\":{\"content\":\"\"}}]}\ndata: broken\n");
    assert!(out.is_empty());
    assert!(s.finish().is_none());
}

#[test]
fn dify_stream_steps_follow_events() {
    let body = [
        "data: {\"event\":\"message\",\"answer\":\"Hi\",\"conversation_id\":\"c1\"}\n\n",
        "data: [DONE]\n\n",
        "data: {\"event\":\"agent_message\",\"answer\":5}\n\n",
        "data: {\"event\":\"agent_thought\",\"answer\":\" there\"}\n\n",
        "data: {\"event\":\"message_end\"}\n\n",
        "data: {\"event\":\"message\",\"answer\":\"late\"}\n\n"
    ].concat();
    let steps = dify_stream_steps(&body);
    assert_eq!(steps.len(), 3);
    assert!(matches!(&steps[0], StreamStep::Conversation(c) if c == "c1"));
    assert!(matches!(&steps[1], StreamStep::Answer(a) if a == "Hi"));
    assert!(matches!(&steps[2], StreamStep::Answer(a) if a == " there"));
    let err = dify_stream_steps("data: {\"event\":\"error\"}\n\ndata: {\"answer\":\"x\"}\n\n");
    assert_eq!(err.len(), 1);
    assert!(matches!(&err[0], StreamStep::Failure(m) if m == "dify返回错误"));
}

#[test]
fn dify_provider_from_config() {
    let p = DifyLlmProvider::from_config(r#"{"api_key":" k ","base_url":"https://d.example/V1/"}"#).ok().unwrap();
    assert_eq!(p.api_key, "k");
    assert_eq!(p.base_url, "https://d.example/V1");
    assert_eq!(p.user_prefix, "xiaozhi");
    assert!(p.is_valid());
    let p = DifyLlmProvider::from_config(r#"{"api_key":"k","base_url":"http://d//"}"#).ok().unwrap();
    assert_eq!(p.base_url, "http://d/v1");
    let p = DifyLlmProvider::from_config(r#"{"api_key":"k"}"#).ok().unwrap();
    assert_eq!(p.base_url, "https://api.dify.ai/v1");
    match DifyLlmProvider::from_config("{}") {
        Err(LlmError::Config(m)) => assert_eq!(m, "dify api_key不能为空"),
        _ => panic!("expected a configuration error"),
    }
}

#[test]
fn dify_request_and_body() {
    let mut p = DifyLlmProvider::from_config(r#"{"api_key":"k","base_url":"http://d"}"#).ok().unwrap();
    assert!(p.chat_request("s", &[ChatMessage::assistant(" ")]).is_err());
    xiaozhi::llm::llm_common::set_conversation_id(&mut p.conversation_ids, "s", "conv");
    let q = p.chat_request("s", &[ChatMessage::user("hi \"you\"")]).ok().unwrap();
    assert_eq!(q.url, "http://d/v1/chat-messages");
    assert_eq!(
        q.body_json(),
        r#"{"conversation_id":"conv","inputs":{},"query":"hi \"you\"","response_mode":"streaming","user":"xiaozhi_s"}"#
    );
}

#[test]
fn coze_stream_steps_follow_events() {
    let body = [
        "event: conversation.message.delta\ndata: {\"content\":\"Hel\",\"conversation_id\":\" c9 \"}\n\n",
        "event: conversation.message.delta\ndata: \"{\\\"message\\\":{\\\"content\\\":\\\"lo\\\"}}\"\n\n",
        "event: conversation.message.completed\ndata: {\"content\":\"Hello\"}\n\n",
        "event: conversation.chat.completed\ndata: {}\n\n",
        "event: conversation.message.delta\ndata: {\"content\":\"late\"}\n\n"
    ].concat();
    let steps = coze_stream_steps(&body);
    assert_eq!(steps.len(), 3);
    assert!(matches!(&steps[0], StreamStep::Conversation(c) if c == "c9"));
    assert!(matches!(&steps[1], StreamStep::Answer(a) if a == "Hel"));
    assert!(matches!(&steps[2], StreamStep::Answer(a) if a == "lo"));
    let only_completed = coze_stream_steps("event: conversation.message.completed\ndata: {\"content\":\"All\"}\n\n");
    assert_eq!(only_completed.len(), 1);
    let failed = coze_stream_steps("event: conversation.chat.failed\ndata: {\"chat\":{\"last_error\":{\"msg\":\" quota \"}}}\n\n");
    assert!(matches!(&failed[0], StreamStep::Failure(m) if m == "quota"));
    let generic = coze_stream_steps("event: error\ndata: {\"msg\":\" \"}\n\n");
    assert!(matches!(&generic[0], StreamStep::Failure(m) if m == "coze返回错误"));
    assert!(coze_stream_steps("data: DONE\n\ndata: {\"content\":\"x\"}\n\n").is_empty());
    assert!(coze_stream_steps("data: {\"message\":\"not an object\",\"content\":\"x\"}\n\n").is_empty());
}

#[test]
fn coze_markers_and_content_type() {
    assert!(is_coze_done_marker(" [done] "));
    assert!(is_coze_done_marker("DONE"));
    assert!(!is_coze_done_marker("doneish"));
    assert!(is_event_stream("Text/Event-Stream; charset=utf-8"));
    assert!(!is_event_stream("application/json"));
}

#[test]
fn coze_provider_and_request_bodies() {
    match CozeLlmProvider::from_config(r#"{"api_key":"Bearer k"}"#) {
        Err(LlmError::Config(m)) => assert_eq!(m, "coze bot_id不能为空"),
        _ => panic!("expected a configuration error"),
    }
    let mut p = CozeLlmProvider::from_config(r#"{"api_key":"Bearer k","bot_id":" b ","base_url":"https://c.example/"}"#)
        .ok()
        .unwrap();
    assert_eq!(p.api_key, "k");
    assert_eq!(p.bot_id, "b");
    assert_eq!(p.connector_id, "1024");
    assert_eq!(p.stream_url(), "https://c.example/v3/chat");
    assert_eq!(p.build_request_bodies("s", "q").len(), 2);
    xiaozhi::llm::llm_common::set_conversation_id(&mut p.conversation_ids, "s", "cv");
    let bodies = p.build_request_bodies("s", "q");
    assert_eq!(bodies.len(), 4);
    assert_eq!(
        bodies[0].to_json(),
        r#"{"additional_messages":[{"content":"q","content_type":"text","role":"user","type":"question"}],"bot_id":"b","connector_id":"1024","conversation_id":"cv","stream":true,"user_id":"xiaozhi_s"}"#
    );
    assert_eq!(
        bodies[3].to_json(),
        r#"{"additional_messages":[{"content":"q","content_type":"text","role":"user","type":"question"}],"bot_id":"b","conversation_id":"","stream":true,"user_id":"xiaozhi_s"}"#
    );
}

#[test]
fn completion_collected_from_a_stream() {
    let msgs = vec![ChatMessage::assistant("你好"), ChatMessage::assistant(""), ChatMessage::assistant("，世界")];
    let c = LlmCompletion::from_stream(&msgs);
    assert_eq!(c.content, "你好，世界");
    assert!(c.tool_calls.is_empty());
    assert_eq!(LlmCompletion::from_stream(&vec![]).content, "");
}

#[test]
fn sse_events_follow_runs_of_lines() {
    let body = "event: lone\n\n\ndata: x\nevent: first\nevent:\ndata:   y\n\nignored\ndata:z\r\nevent: last";
    let events = iter_sse_events(body);
    let got: Vec<(&str, &str)> = events.iter().map(|e| (e.event_type.as_str(), e.data.as_str())).collect();
    assert_eq!(got, vec![("message", "x\ny"), ("last", "z")]);
}

#[test]
fn calls_gather_fragments_by_position() {
    let mut acc = StreamingToolCallAccumulator::new();
    acc.merge_delta(&tool_call_deltas(r#"{"tool_calls":[{"index":2,"id":"c2","function":{"name":"b","arguments":"{\"x\""}}]}"#));
    acc.merge_delta(&tool_call_deltas(r#"{"tool_calls":[{"id":"c0","function":{"name":"a","arguments":"{}"}}]}"#));
    acc.merge_delta(&tool_call_deltas(r#"{"tool_calls":[{"index":2,"id":"","function":{"name":"b2","arguments":":1}"}}]}"#));
    acc.merge_delta(&tool_call_deltas(r#"{"other":1}"#));
    acc.merge_delta(&tool_call_deltas(r#"{"tool_calls":[{"index":1,"function":{"arguments":"{}"}}]}"#));
    let calls = acc.into_tool_calls();
    let got: Vec<(&str, &str, &str)> = calls.iter().map(|c| (c.id.as_str(), c.name.as_str(), c.arguments.as_str())).collect();
    assert_eq!(got, vec![("c0", "a", "{}"), ("c2", "b2", "{\"x\":1}")]);
}
