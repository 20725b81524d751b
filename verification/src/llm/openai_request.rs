//! Requests to OpenAI-compatible chat services and the reading of their
//! answers: the settings a service is used with, the JSON of messages,
//! tools and request bodies, and the answer and tool calls of a reply.
//!
//! JSON is written as `serde_json` writes a `Value` without the
//! `preserve_order` feature: compact, with object members in the byte order
//! of their keys.
use vstd::prelude::*;
use crate::codec::{base64_encode, base64_encoded};
use crate::json_fields::{
    canonical_json, element_pointer, element_pointer_of, is_json_object, json_array_len,
    json_array_length, json_at, json_canonical, json_is_object, json_quote, json_quoted,
    json_string_literal, json_string_value, json_text_at, json_top_field, json_u64_at,
    json_member_set_at, json_unsigned_at, json_value_at, read_json_field, read_json_pointer, set_json_member_at,
    text_at,
    value_text_at, JsonField, JsonFieldView,
};
use crate::llm::message::{extra_member, ChatMessage, MessageRole, ToolInfo};
use crate::llm::openai_stream::{call_json, json_is_valid, json_text_is_valid, LlmCompletion, ToolCall};
use crate::manager::config_rules::{member_set, set_string_member, MemberUpdate, MemberUpdateView};
use crate::text::{
    concat, concat3, contains, contains_str, digits, join, join_strings, opt_view, owned,
    trim_end_char, trim_end_char_str, u64_to_string,
};

verus! {

broadcast use vstd::string::group_string_axioms;

// ---------------------------------------------------------------------------
// Settings
// ---------------------------------------------------------------------------

/// An OpenAI-compatible chat service as configured.
#[derive(Debug, Clone)]
pub struct OpenAiLlmProvider {
    pub model_name: String,
    pub api_key: String,
    /// The service's address, without trailing `/`.
    pub base_url: String,
    pub max_tokens: u32,
}

/// The answer length limit of a configuration: `max_tokens` when the
/// configuration has that member (else `max_token`), when it is an
/// unsigned number, else 500; kept to its low 32 bits.
pub open spec fn max_tokens_of(config: Seq<char>) -> u32 {
    let v = if json_top_field(config, "max_tokens"@) matches Some(JsonFieldView::Absent) {
        json_unsigned_at(config, "/max_token"@)
    } else {
        json_unsigned_at(config, "/max_tokens"@)
    };
    match v {
        Some(n) => (n % 0x1_0000_0000) as u32,
        None => 500,
    }
}

impl OpenAiLlmProvider {
    /// The service a configuration (JSON text) describes: `model_name`
    /// (default `gpt-4o-mini`), `base_url` (default the OpenAI service)
    /// without trailing `/`, the answer length limit (see `max_tokens_of`),
    /// and the API key: `configured_key`, the key the configuration gives,
    /// or, when that is empty and the service is DashScope's,
    /// `dashscope_key`, the DashScope key the configuration leads to.
    pub fn from_config(config: &str, configured_key: String, dashscope_key: String) -> (r: Self)
        ensures
            r.api_key@ == if configured_key@.len() == 0 && contains(r.base_url@, "dashscope.aliyuncs.com"@) {
                dashscope_key@
            } else {
                configured_key@
            },
            r.model_name@ == match text_at(config@, "/model_name"@) {
                Some(m) => m,
                None => "gpt-4o-mini"@,
            },
            r.base_url@ == trim_end_char(match text_at(config@, "/base_url"@) {
                Some(u) => u,
                None => "https://api.openai.com/v1"@,
            }, '/'),
            r.max_tokens == max_tokens_of(config@),
    {
        let model_name = match json_text_at(config, "/model_name") {
            Some(m) => m,
            None => owned("gpt-4o-mini"),
        };
        let url = match json_text_at(config, "/base_url") {
            Some(u) => u,
            None => owned("https://api.openai.com/v1"),
        };
        let base_url = trim_end_char_str(url.as_str(), '/');
        proof {
            reveal_strlit("max_tokens");
        }
        let absent = match read_json_field(config, "max_tokens") {
            Some(JsonField::Absent) => true,
            _ => false,
        };
        let v = if absent {
            json_u64_at(config, "/max_token")
        } else {
            json_u64_at(config, "/max_tokens")
        };
        let max_tokens: u32 = match v {
            Some(n) => (n % 0x1_0000_0000) as u32,
            None => 500,
        };
        let api_key = openai_api_key(configured_key, base_url.as_str(), dashscope_key);
        OpenAiLlmProvider { model_name, api_key, base_url, max_tokens }
    }

    /// Whether the service can be used: it has an API key.
    pub fn is_valid(&self) -> (r: bool)
        ensures
            r == (self.api_key@.len() > 0),
    {
        !self.api_key.as_str().is_empty()
    }

    /// The address chat completions are requested from.
    pub fn chat_url(&self) -> (r: String)
        ensures
            r@ == self.base_url@ + "/chat/completions"@,
    {
        concat(self.base_url.as_str(), "/chat/completions")
    }
}

/// The API key a service is used with: the configured one, or, when none
/// is configured and the service is DashScope's, the DashScope key.
fn openai_api_key(configured: String, base_url: &str, dashscope_key: String) -> (r: String)
    ensures
        r@ == if configured@.len() == 0 && contains(base_url@, "dashscope.aliyuncs.com"@) {
            dashscope_key@
        } else {
            configured@
        },
{
    if configured.as_str().is_empty() && contains_str(base_url, "dashscope.aliyuncs.com") {
        dashscope_key
    } else {
        configured
    }
}

// ---------------------------------------------------------------------------
// Tool schemas
// ---------------------------------------------------------------------------

/// The schema of a tool without a usable one: an object with no
/// properties.
pub open spec fn empty_object_schema() -> Seq<char> {
    "{\"properties\":{},\"type\":\"object\"}"@
}

/// A JSON text with JSON strings that hold JSON documents unwrapped, at
/// most `fuel` times.
pub open spec fn unwrapped(text: Seq<char>, fuel: nat) -> Seq<char>
    decreases fuel,
{
    if fuel == 0 {
        text
    } else {
        match json_string_value(text) {
            Some(inner) => if json_is_valid(inner) { unwrapped(inner, (fuel - 1) as nat) } else { text },
            None => text,
        }
    }
}

/// A tool's argument schema as sent: a schema given as a string holding
/// JSON is read from it (repeatedly); an object is kept, with `"type":
/// "object"` added when it has no `type`; anything else becomes the empty
/// object schema.  (Each unwrapping shortens the text, so the text's length
/// bounds their number.)
pub open spec fn normalized_parameters(params: Seq<char>) -> Seq<char> {
    let u = unwrapped(params, params.len());
    if json_string_value(u) is None && is_json_object(u) {
        if json_top_field(u, "type"@) matches Some(JsonFieldView::Absent) {
            match member_set(u, "type"@, "object"@) {
                MemberUpdateView::Updated(t) => t,
                _ => empty_object_schema(),
            }
        } else {
            match canonical_json(u) {
                Some(t) => t,
                None => empty_object_schema(),
            }
        }
    } else {
        empty_object_schema()
    }
}

/// Normalises the argument schema (JSON text) of a tool.
pub fn normalize_tool_parameters(params: &str) -> (r: String)
    ensures
        r@ == normalized_parameters(params@),
{
    let mut cur = owned(params);
    let mut fuel: usize = params.unicode_len();
    loop
        invariant_except_break
            cur@.len() <= fuel,
            unwrapped(params@, params@.len()) == unwrapped(cur@, fuel as nat),
        ensures
            unwrapped(params@, params@.len()) == cur@,
            json_string_value(cur@) matches Some(inner) ==> !json_is_valid(inner),
        decreases fuel,
    {
        match json_string_literal(cur.as_str()) {
            Some(inner) => {
                if json_text_is_valid(inner.as_str()) {
                    cur = inner;
                    fuel = fuel - 1;
                } else {
                    break;
                }
            },
            None => break,
        }
    }
    proof {
        reveal_strlit("{\"properties\":{},\"type\":\"object\"}");
        reveal_strlit("type");
    }
    if json_string_literal(cur.as_str()).is_some() || !json_is_object(cur.as_str()) {
        return owned("{\"properties\":{},\"type\":\"object\"}");
    }
    let absent = match read_json_field(cur.as_str(), "type") {
        Some(JsonField::Absent) => true,
        _ => false,
    };
    if absent {
        match set_string_member(cur.as_str(), "type", "object") {
            MemberUpdate::Updated(t) => t,
            _ => owned("{\"properties\":{},\"type\":\"object\"}"),
        }
    } else {
        match json_canonical(cur.as_str()) {
            Some(t) => t,
            None => owned("{\"properties\":{},\"type\":\"object\"}"),
        }
    }
}


// ---------------------------------------------------------------------------
// Tool calls in messages
// ---------------------------------------------------------------------------

/// A tool call as sent back to the service: when its `function` is an
/// object whose `arguments` is there and not a string, the arguments are
/// replaced by their JSON text; otherwise the call is kept.  `call` is the
/// call's JSON text as `serde_json` writes it.
pub open spec fn normalized_call(call: Seq<char>) -> Seq<char> {
    if json_at(call, "/function"@) == Some(JsonFieldView::Object) {
        match json_at(call, "/function/arguments"@) {
            Some(JsonFieldView::Absent) => call,
            Some(JsonFieldView::Text(_)) => call,
            None => call,
            Some(_) => match value_text_at(call, "/function/arguments"@) {
                Some(a) => match json_member_set_at(call, "/function"@, "arguments"@, json_quoted(a)) {
                    Some(t) => t,
                    None => call,
                },
                None => call,
            },
        }
    } else {
        call
    }
}

/// The JSON text of an array of JSON texts.
pub open spec fn json_array_of(items: Seq<Seq<char>>) -> Seq<char> {
    "["@ + join(items, ","@) + "]"@
}

/// The elements of the array `value`, each as written by `serde_json` and
/// normalised; elements that cannot be read are left out.
pub open spec fn normalized_calls(value: Seq<char>, n: nat) -> Seq<Seq<char>>
    decreases n,
{
    if n == 0 {
        Seq::empty()
    } else {
        let rest = normalized_calls(value, (n - 1) as nat);
        match value_text_at(value, element_pointer(Seq::empty(), n - 1)) {
            Some(c) => rest.push(normalized_call(c)),
            None => rest,
        }
    }
}

/// The tool calls of an assistant message as sent back to the service:
/// each call of an array normalised (see `normalized_call`); anything else
/// as `serde_json` writes it; text that is not JSON as given.
pub open spec fn normalized_tool_calls(value: Seq<char>) -> Seq<char> {
    match json_array_length(value, Seq::empty()) {
        Some(n) => json_array_of(normalized_calls(value, n as nat)),
        None => match canonical_json(value) {
            Some(t) => t,
            None => value,
        },
    }
}

fn normalize_call(call: &str) -> (r: String)
    ensures
        r@ == normalized_call(call@),
{
    proof {
        reveal_strlit("/function");
        reveal_strlit("/function/arguments");
        reveal_strlit("arguments");
    }
    match read_json_pointer(call, "/function") {
        Some(JsonField::Object) => {},
        _ => return owned(call),
    }
    match read_json_pointer(call, "/function/arguments") {
        Some(JsonField::Absent) => owned(call),
        Some(JsonField::Text(_)) => owned(call),
        None => owned(call),
        Some(_) => match json_value_at(call, "/function/arguments") {
            Some(a) => match set_json_member_at(call, "/function", "arguments", json_quote(a.as_str()).as_str()) {
                Some(t) => t,
                None => owned(call),
            },
            None => owned(call),
        },
    }
}

/// Writes an array of JSON texts.
fn array_text(items: &Vec<String>) -> (r: String)
    ensures
        r@ == json_array_of(items@.map_values(|t: String| t@)),
{
    let inner = join_strings(items, ",");
    concat3("[", inner.as_str(), "]")
}

/// Normalises the tool calls (JSON text) of an assistant message.
pub fn normalize_tool_calls(value: &str) -> (r: String)
    ensures
        r@ == normalized_tool_calls(value@),
{
    proof {
        reveal_strlit("");
        assert(""@ =~= Seq::<char>::empty());
    }
    let n = match json_array_len(value, "") {
        Some(n) => n,
        None => {
            return match json_canonical(value) {
                Some(t) => t,
                None => owned(value),
            };
        },
    };
    let mut items: Vec<String> = Vec::new();
    let mut i: usize = 0;
    while i < n
        invariant
            0 <= i <= n,
            json_array_length(value@, Seq::<char>::empty()) == Some(n),
            items@.map_values(|t: String| t@) == normalized_calls(value@, i as nat),
        decreases n - i,
    {
        let ptr = element_pointer_of("", i);
        proof {
            reveal_strlit("");
            assert(""@ =~= Seq::<char>::empty());
            assert(ptr@ == element_pointer(Seq::empty(), i as int));
        }
        match json_value_at(value, ptr.as_str()) {
            Some(c) => {
                let t = normalize_call(c.as_str());
                items.push(t);
                proof {
                    assert(items@.map_values(|t: String| t@) =~= normalized_calls(value@, i as nat).push(
                        normalized_call(c@),
                    ));
                }
            },
            None => {},
        }
        i = i + 1;
    }
    array_text(&items)
}


// ---------------------------------------------------------------------------
// Messages, tools and request bodies
// ---------------------------------------------------------------------------

/// The name of a role in the chat format.
pub open spec fn role_name(r: MessageRole) -> Seq<char> {
    match r {
        MessageRole::System => "system"@,
        MessageRole::User => "user"@,
        MessageRole::Assistant => "assistant"@,
        MessageRole::Tool => "tool"@,
    }
}

fn role_text(r: MessageRole) -> (t: &'static str)
    ensures
        t@ == role_name(r),
{
    proof {
        reveal_strlit("system");
        reveal_strlit("user");
        reveal_strlit("assistant");
        reveal_strlit("tool");
    }
    match r {
        MessageRole::System => "system",
        MessageRole::User => "user",
        MessageRole::Assistant => "assistant",
        MessageRole::Tool => "tool",
    }
}

/// The JSON of a message as sent: its role and content, the call it
/// answers when it has one, and its tool calls (normalised) when it carries
/// them.
pub open spec fn message_json(m: ChatMessage) -> Seq<char> {
    "{\"content\":"@ + json_quoted(m.content@) + ",\"role\":"@ + json_quoted(role_name(m.role))
        + match m.tool_call_id {
            Some(id) => ",\"tool_call_id\":"@ + json_quoted(id@),
            None => Seq::empty(),
        }
        + match extra_member(m.extra@, "tool_calls"@) {
            Some(t) => ",\"tool_calls\":"@ + normalized_tool_calls(t),
            None => Seq::empty(),
        }
        + "}"@
}

/// Writes the JSON of a message as sent.
pub fn message_to_json(m: &ChatMessage) -> (r: String)
    ensures
        r@ == message_json(*m),
{
    let c = json_quote(m.content.as_str());
    let role = json_quote(role_text(m.role));
    let head = concat3("{\"content\":", c.as_str(), ",\"role\":");
    let mut out = concat(head.as_str(), role.as_str());
    let ghost base = out@;
    proof {
        reveal_strlit("{\"content\":");
        reveal_strlit(",\"role\":");
        reveal_strlit(",\"tool_call_id\":");
        reveal_strlit(",\"tool_calls\":");
        reveal_strlit("tool_calls");
        reveal_strlit("}");
    }
    let id_part = match &m.tool_call_id {
        Some(id) => {
            let q = json_quote(id.as_str());
            concat(",\"tool_call_id\":", q.as_str())
        },
        None => String::new(),
    };
    let calls_part = match m.extra_value("tool_calls") {
        Some(t) => {
            let n = normalize_tool_calls(t.as_str());
            concat(",\"tool_calls\":", n.as_str())
        },
        None => String::new(),
    };
    out = concat(out.as_str(), id_part.as_str());
    out = concat(out.as_str(), calls_part.as_str());
    out = concat(out.as_str(), "}");
    assert(out@ =~= message_json(*m));
    out
}

/// The JSON of the messages of a dialogue, in order.
pub open spec fn messages_json(d: Seq<ChatMessage>) -> Seq<Seq<char>> {
    d.map_values(|m: ChatMessage| message_json(m))
}

/// Writes the messages of a dialogue as sent.
pub fn build_messages(dialogue: &[ChatMessage]) -> (r: Vec<String>)
    ensures
        r@.map_values(|t: String| t@) == messages_json(dialogue@),
{
    let mut out: Vec<String> = Vec::new();
    let mut i: usize = 0;
    while i < dialogue.len()
        invariant
            0 <= i <= dialogue.len(),
            out@.map_values(|t: String| t@) == messages_json(dialogue@.take(i as int)),
        decreases dialogue.len() - i,
    {
        let t = message_to_json(&dialogue[i]);
        let ghost prev = out@;
        out.push(t);
        proof {
            let want = messages_json(dialogue@.take(i + 1));
            let have = out@.map_values(|t: String| t@);
            assert(prev.map_values(|t: String| t@).len() == prev.len());
            assert(messages_json(dialogue@.take(i as int)).len() == i);
            assert(prev.len() == i);
            assert(out@.len() == i + 1);
            assert(want.len() == i + 1);
            assert(have.len() == want.len());
            assert forall|j: int| 0 <= j < have.len() implies have[j] == want[j] by {
                if j < i {
                    assert(have[j] == prev.map_values(|t: String| t@)[j]);
                    assert(dialogue@.take(i + 1)[j] == dialogue@.take(i as int)[j]);
                } else {
                    assert(have[j] == t@);
                    assert(dialogue@.take(i + 1)[j] == dialogue@[i as int]);
                }
            }
            assert(have =~= want);
        }
        i = i + 1;
    }
    proof {
        assert(dialogue@.take(dialogue.len() as int) =~= dialogue@);
    }
    out
}

/// The JSON of a tool as offered: a function with its name, description
/// and normalised argument schema.
pub open spec fn tool_json(t: ToolInfo) -> Seq<char> {
    "{\"function\":{\"description\":"@ + json_quoted(t.description@) + ",\"name\":"@ + json_quoted(t.name@)
        + ",\"parameters\":"@ + normalized_parameters(t.parameters@) + "},\"type\":\"function\"}"@
}

/// Writes the tools as offered, in order.
pub fn build_tools(tools: &[ToolInfo]) -> (r: Vec<String>)
    ensures
        r@.map_values(|t: String| t@) == tools@.map_values(|t: ToolInfo| tool_json(t)),
{
    let mut out: Vec<String> = Vec::new();
    let mut i: usize = 0;
    while i < tools.len()
        invariant
            0 <= i <= tools.len(),
            out@.map_values(|t: String| t@) == tools@.take(i as int).map_values(|t: ToolInfo| tool_json(t)),
        decreases tools.len() - i,
    {
        let t = &tools[i];
        let d = json_quote(t.description.as_str());
        let n = json_quote(t.name.as_str());
        let p = normalize_tool_parameters(t.parameters.as_str());
        let a = concat3("{\"function\":{\"description\":", d.as_str(), ",\"name\":");
        let b = concat3(a.as_str(), n.as_str(), ",\"parameters\":");
        let c = concat3(b.as_str(), p.as_str(), "},\"type\":\"function\"}");
        proof {
            reveal_strlit("{\"function\":{\"description\":");
            reveal_strlit(",\"name\":");
            reveal_strlit(",\"parameters\":");
            reveal_strlit("},\"type\":\"function\"}");
            assert(c@ =~= tool_json(*t));
        }
        let ghost prev = out@;
        out.push(c);
        proof {
            let want = tools@.take(i + 1).map_values(|t: ToolInfo| tool_json(t));
            let have = out@.map_values(|t: String| t@);
            assert(prev.map_values(|t: String| t@).len() == prev.len());
            assert(tools@.take(i as int).map_values(|t: ToolInfo| tool_json(t)).len() == i);
            assert(prev.len() == i);
            assert(out@.len() == i + 1);
            assert(want.len() == i + 1);
            assert(have.len() == want.len());
            assert forall|j: int| 0 <= j < have.len() implies have[j] == want[j] by {
                if j < i {
                    assert(have[j] == prev.map_values(|t: String| t@)[j]);
                    assert(tools@.take(i + 1)[j] == tools@.take(i as int)[j]);
                } else {
                    assert(have[j] == c@);
                    assert(tools@.take(i + 1)[j] == tools@[i as int]);
                }
            }
            assert(have =~= want);
        }
        i = i + 1;
    }
    proof {
        assert(tools@.take(tools.len() as int) =~= tools@);
    }
    out
}

/// The body of a chat completion request: the answer length limit, the
/// dialogue, the model, whether to stream, and the tools when there are
/// any.
pub open spec fn chat_body(
    settings: OpenAiLlmProvider,
    dialogue: Seq<ChatMessage>,
    tools: Seq<ToolInfo>,
    stream: bool,
) -> Seq<char> {
    "{\"max_tokens\":"@ + digits(settings.max_tokens as nat) + ",\"messages\":"@
        + json_array_of(messages_json(dialogue)) + ",\"model\":"@ + json_quoted(settings.model_name@)
        + ",\"stream\":"@ + (if stream { "true"@ } else { "false"@ })
        + (if tools.len() > 0 {
            ",\"tools\":"@ + json_array_of(tools.map_values(|t: ToolInfo| tool_json(t)))
        } else {
            Seq::empty()
        }) + "}"@
}

/// Writes the body of a chat completion request.
pub fn chat_request_body(
    settings: &OpenAiLlmProvider,
    dialogue: &[ChatMessage],
    tools: &[ToolInfo],
    stream: bool,
) -> (r: String)
    ensures
        r@ == chat_body(*settings, dialogue@, tools@, stream),
{
    let messages = build_messages(dialogue);
    let m = array_text(&messages);
    let n = u64_to_string(settings.max_tokens as u64);
    let model = json_quote(settings.model_name.as_str());
    let a = concat3("{\"max_tokens\":", n.as_str(), ",\"messages\":");
    let b = concat3(a.as_str(), m.as_str(), ",\"model\":");
    let c = concat3(b.as_str(), model.as_str(), ",\"stream\":");
    let d = concat(c.as_str(), if stream { "true" } else { "false" });
    let tail = if tools.len() > 0 {
        let ts = build_tools(tools);
        let t = array_text(&ts);
        concat(",\"tools\":", t.as_str())
    } else {
        String::new()
    };
    let e = concat3(d.as_str(), tail.as_str(), "}");
    proof {
        reveal_strlit("{\"max_tokens\":");
        reveal_strlit(",\"messages\":");
        reveal_strlit(",\"model\":");
        reveal_strlit(",\"stream\":");
        reveal_strlit("true");
        reveal_strlit("false");
        reveal_strlit(",\"tools\":");
        reveal_strlit("}");
        assert(e@ =~= chat_body(*settings, dialogue@, tools@, stream));
    }
    e
}

/// The body of a request to describe an image: one user message with the
/// question and the image as a `data:` address (base64), the model and the
/// answer length limit.
pub open spec fn vision_body(settings: OpenAiLlmProvider, image: Seq<u8>, question: Seq<char>, mime_type: Seq<char>) -> Seq<char> {
    "{\"max_tokens\":"@ + digits(settings.max_tokens as nat)
        + ",\"messages\":[{\"content\":[{\"text\":"@ + json_quoted(question)
        + ",\"type\":\"text\"},{\"image_url\":{\"url\":"@
        + json_quoted("data:"@ + mime_type + ";base64,"@ + base64_encoded(image))
        + "},\"type\":\"image_url\"}],\"role\":\"user\"}],\"model\":"@ + json_quoted(settings.model_name@) + "}"@
}

/// Writes the body of a request to describe an image.
pub fn vision_request_body(settings: &OpenAiLlmProvider, image: &[u8], question: &str, mime_type: &str) -> (r: String)
    ensures
        r@ == vision_body(*settings, image@, question@, mime_type@),
{
    let b64 = base64_encode(image);
    let head = concat3("data:", mime_type, ";base64,");
    let url = concat(head.as_str(), b64.as_str());
    let qurl = json_quote(url.as_str());
    let qq = json_quote(question);
    let n = u64_to_string(settings.max_tokens as u64);
    let model = json_quote(settings.model_name.as_str());
    let a = concat3("{\"max_tokens\":", n.as_str(), ",\"messages\":[{\"content\":[{\"text\":");
    let b = concat3(a.as_str(), qq.as_str(), ",\"type\":\"text\"},{\"image_url\":{\"url\":");
    let c = concat3(b.as_str(), qurl.as_str(), "},\"type\":\"image_url\"}],\"role\":\"user\"}],\"model\":");
    let d = concat3(c.as_str(), model.as_str(), "}");
    proof {
        reveal_strlit("data:");
        reveal_strlit(";base64,");
        reveal_strlit("{\"max_tokens\":");
        reveal_strlit(",\"messages\":[{\"content\":[{\"text\":");
        reveal_strlit(",\"type\":\"text\"},{\"image_url\":{\"url\":");
        reveal_strlit("},\"type\":\"image_url\"}],\"role\":\"user\"}],\"model\":");
        reveal_strlit("}");
        assert(d@ =~= vision_body(*settings, image@, question@, mime_type@));
    }
    d
}

// ---------------------------------------------------------------------------
// Replies
// ---------------------------------------------------------------------------

/// The arguments of a call in a reply, as JSON text: a string is read as
/// JSON (`{}` when it is not JSON); a missing one is `{}`; any other value
/// is kept.  `call` is the pointer of the call.
pub open spec fn reply_arguments(reply: Seq<char>, call: Seq<char>) -> Seq<char> {
    let at = call + "/function/arguments"@;
    match json_at(reply, at) {
        Some(JsonFieldView::Text(s)) => match canonical_json(s) {
            Some(t) => t,
            None => "{}"@,
        },
        Some(JsonFieldView::Absent) => "{}"@,
        None => "{}"@,
        Some(_) => match value_text_at(reply, at) {
            Some(t) => t,
            None => "{}"@,
        },
    }
}

/// The calls among the first `n` of the array at `calls` that have a
/// string id and a string function name, in order.
pub open spec fn reply_calls(reply: Seq<char>, calls: Seq<char>, n: nat) -> Seq<(Seq<char>, Seq<char>, Seq<char>)>
    decreases n,
{
    if n == 0 {
        Seq::empty()
    } else {
        let rest = reply_calls(reply, calls, (n - 1) as nat);
        let e = element_pointer(calls, n - 1);
        match (text_at(reply, e + "/id"@), text_at(reply, e + "/function/name"@)) {
            (Some(id), Some(name)) => rest.push((id, name, reply_arguments(reply, e))),
            _ => rest,
        }
    }
}

/// The tool calls of the message at pointer `message` of a reply.
pub open spec fn tool_calls_of(reply: Seq<char>, message: Seq<char>) -> Seq<(Seq<char>, Seq<char>, Seq<char>)> {
    match json_array_length(reply, message + "/tool_calls"@) {
        Some(n) => reply_calls(reply, message + "/tool_calls"@, n as nat),
        None => Seq::empty(),
    }
}

fn reply_call_arguments(reply: &str, call: &str) -> (r: String)
    ensures
        r@ == reply_arguments(reply@, call@),
{
    let at = concat(call, "/function/arguments");
    proof {
        reveal_strlit("/function/arguments");
        reveal_strlit("{}");
    }
    match read_json_pointer(reply, at.as_str()) {
        Some(JsonField::Text(s)) => match json_canonical(s.as_str()) {
            Some(t) => t,
            None => owned("{}"),
        },
        Some(JsonField::Absent) => owned("{}"),
        None => owned("{}"),
        Some(_) => match json_value_at(reply, at.as_str()) {
            Some(t) => t,
            None => owned("{}"),
        },
    }
}

/// Reads the tool calls of the message at pointer `message` of a reply.
pub fn parse_tool_calls(reply: &str, message: &str) -> (r: Vec<ToolCall>)
    ensures
        r@.map_values(|c: ToolCall| c@) == tool_calls_of(reply@, message@),
{
    let calls = concat(message, "/tool_calls");
    proof {
        reveal_strlit("/tool_calls");
    }
    let n = match json_array_len(reply, calls.as_str()) {
        Some(n) => n,
        None => return Vec::new(),
    };
    let mut out: Vec<ToolCall> = Vec::new();
    let mut i: usize = 0;
    while i < n
        invariant
            0 <= i <= n,
            calls@ == message@ + "/tool_calls"@,
            json_array_length(reply@, calls@) == Some(n),
            out@.map_values(|c: ToolCall| c@) == reply_calls(reply@, calls@, i as nat),
        decreases n - i,
    {
        let e = element_pointer_of(calls.as_str(), i);
        let id_at = concat(e.as_str(), "/id");
        let name_at = concat(e.as_str(), "/function/name");
        proof {
            reveal_strlit("/id");
            reveal_strlit("/function/name");
        }
        match (json_text_at(reply, id_at.as_str()), json_text_at(reply, name_at.as_str())) {
            (Some(id), Some(name)) => {
                let arguments = reply_call_arguments(reply, e.as_str());
                let c = ToolCall { id, name, arguments };
                out.push(c);
                proof {
                    assert(out@.map_values(|c: ToolCall| c@) =~= reply_calls(reply@, calls@, i as nat).push(c@));
                }
            },
            _ => {},
        }
        i = i + 1;
    }
    out
}

/// The answer of a chat completion reply: the first choice's message text
/// (empty when there is none) and its tool calls.
pub fn completion_from_reply(reply: &str) -> (r: LlmCompletion)
    ensures
        r.content@ == match text_at(reply@, "/choices/0/message/content"@) {
            Some(c) => c,
            None => Seq::empty(),
        },
        r.tool_calls@.map_values(|c: ToolCall| c@) == tool_calls_of(reply@, "/choices/0/message"@),
{
    let content = match json_text_at(reply, "/choices/0/message/content") {
        Some(c) => c,
        None => String::new(),
    };
    LlmCompletion { content, tool_calls: parse_tool_calls(reply, "/choices/0/message") }
}

/// The text of an image description reply: the first choice's message
/// text, empty when there is none.
pub fn vision_answer(reply: &str) -> (r: String)
    ensures
        r@ == match text_at(reply@, "/choices/0/message/content"@) {
            Some(c) => c,
            None => Seq::empty(),
        },
{
    match json_text_at(reply, "/choices/0/message/content") {
        Some(c) => c,
        None => String::new(),
    }
}


/// The JSON of a finished call as an assistant message lists it: its
/// arguments as the string of their JSON text (as `serde_json` writes it,
/// or as given when it is not JSON).
pub open spec fn listed_call_json(c: (Seq<char>, Seq<char>, Seq<char>)) -> Seq<char> {
    call_json((0, c.0, c.1, match canonical_json(c.2) {
        Some(t) => t,
        None => c.2,
    }))
}

impl LlmCompletion {
    /// The assistant message of the answer: its text, and its tool calls
    /// (see `listed_call_json`) when it asks for any.
    pub fn to_assistant_message(&self) -> (r: ChatMessage)
        ensures
            r.role == MessageRole::Assistant,
            r.content@ == self.content@,
            r.name is None,
            r.tool_call_id is None,
            self.tool_calls@.len() == 0 ==> r.extra@.len() == 0,
            self.tool_calls@.len() > 0 ==> extra_member(r.extra@, "tool_calls"@) == Some(
                json_array_of(self.tool_calls@.map_values(|c: ToolCall| listed_call_json(c@))),
            ),
    {
        let msg = ChatMessage::assistant(self.content.as_str());
        if self.tool_calls.len() == 0 {
            return msg;
        }
        let mut items: Vec<String> = Vec::new();
        let mut i: usize = 0;
        while i < self.tool_calls.len()
            invariant
                0 <= i <= self.tool_calls.len(),
                items@.map_values(|t: String| t@)
                    == self.tool_calls@.take(i as int).map_values(|c: ToolCall| listed_call_json(c@)),
            decreases self.tool_calls.len() - i,
        {
            let c = &self.tool_calls[i];
            let args = match json_canonical(c.arguments.as_str()) {
                Some(t) => t,
                None => owned(c.arguments.as_str()),
            };
            let a = json_quote(args.as_str());
            let n = json_quote(c.name.as_str());
            let d = json_quote(c.id.as_str());
            let head = concat3("{\"function\":{\"arguments\":", a.as_str(), ",\"name\":");
            let mid = concat3(head.as_str(), n.as_str(), "},\"id\":");
            let t = concat3(mid.as_str(), d.as_str(), ",\"type\":\"function\"}");
            proof {
                reveal_strlit("{\"function\":{\"arguments\":");
                reveal_strlit(",\"name\":");
                reveal_strlit("},\"id\":");
                reveal_strlit(",\"type\":\"function\"}");
                assert(t@ =~= listed_call_json(c@));
            }
            let ghost prev = items@;
            items.push(t);
            proof {
                let want = self.tool_calls@.take(i + 1).map_values(|c: ToolCall| listed_call_json(c@));
                let have = items@.map_values(|t: String| t@);
                assert(prev.map_values(|t: String| t@).len() == prev.len());
                assert(self.tool_calls@.take(i as int).map_values(|c: ToolCall| listed_call_json(c@)).len() == i);
                assert(want.len() == i + 1);
                assert forall|j: int| 0 <= j < have.len() implies have[j] == want[j] by {
                    if j < i {
                        assert(have[j] == prev.map_values(|t: String| t@)[j]);
                        assert(self.tool_calls@.take(i + 1)[j] == self.tool_calls@.take(i as int)[j]);
                    } else {
                        assert(self.tool_calls@.take(i + 1)[j] == self.tool_calls@[i as int]);
                    }
                }
                assert(have =~= want);
            }
            i = i + 1;
        }
        proof {
            assert(self.tool_calls@.take(self.tool_calls.len() as int) =~= self.tool_calls@);
        }
        let calls = array_text(&items);
        msg.with_tool_calls(calls)
    }
}

} // verus!
