//! Trying an agent's OpenClaw chat from the console: the request relayed to
//! the speech server, how each streamed answer is handled, and the error
//! shown for a failed one.
use vstd::prelude::*;
use crate::json_fields::{
    json_member_set_at, json_quote, json_quoted, json_top_field, read_json_field, set_json_member_at, JsonField,
    JsonFieldView,
};
use crate::text::{concat, decimal, digits, i64_to_string, owned, trim, trim_str, u64_to_string};

verus! {

broadcast use vstd::string::group_string_axioms;

/// The trimmed `message` of a request body, or empty when it has no string
/// `message`.
pub open spec fn chat_message_of(body: Seq<char>) -> Seq<char> {
    match json_top_field(body, "message"@) {
        Some(JsonFieldView::Text(s)) => trim(s),
        _ => Seq::empty(),
    }
}

/// The body relayed for a chat test: refused with `message 不能为空` when
/// the trimmed `message` is blank; else the body with `message` set to the
/// trimmed text and, when it names none, `agent_id` set to the agent's id
/// written as a JSON string.
pub open spec fn openclaw_request(body: Seq<char>, agent_id: i64) -> Result<Seq<char>, Seq<char>> {
    let m = chat_message_of(body);
    if m.len() == 0 {
        Err("message 不能为空"@)
    } else {
        match json_member_set_at(body, Seq::empty(), "message"@, json_quoted(m)) {
            None => Ok(body),
            Some(t) => if json_top_field(body, "agent_id"@) == Some(JsonFieldView::Absent) {
                match json_member_set_at(t, Seq::empty(), "agent_id"@, json_quoted(decimal(agent_id as int))) {
                    Some(t2) => Ok(t2),
                    None => Ok(t),
                }
            } else {
                Ok(t)
            },
        }
    }
}

/// Builds the body relayed for an agent's chat test from the request body
/// (JSON text).
pub fn openclaw_chat_request(body_json: &str, agent_id: i64) -> (r: Result<String, String>)
    ensures
        match (r, openclaw_request(body_json@, agent_id)) {
            (Ok(t), Ok(want)) => t@ == want,
            (Err(m), Err(want)) => m@ == want,
            _ => false,
        },
{
    proof {
        reveal_strlit("message");
        reveal_strlit("agent_id");
        reveal_strlit("");
        assert(""@ =~= Seq::<char>::empty());
    }
    let message = match read_json_field(body_json, "message") {
        Some(JsonField::Text(s)) => trim_str(s.as_str()),
        _ => String::new(),
    };
    if message.as_str().is_empty() {
        return Err(owned("message 不能为空"));
    }
    let quoted = json_quote(message.as_str());
    let with_message = match set_json_member_at(body_json, "", "message", quoted.as_str()) {
        Some(t) => t,
        None => return Ok(owned(body_json)),
    };
    match read_json_field(body_json, "agent_id") {
        Some(JsonField::Absent) => {
            let id = i64_to_string(agent_id);
            let quoted_id = json_quote(id.as_str());
            match set_json_member_at(with_message.as_str(), "", "agent_id", quoted_id.as_str()) {
                Some(t2) => Ok(t2),
                None => Ok(with_message),
            }
        },
        _ => Ok(with_message),
    }
}

/// How long to wait for the speech server's answers: the chat's own
/// timeout and five seconds more (saturating).
pub fn openclaw_wait_ms(timeout_ms: u64) -> (r: u64)
    ensures
        r == if timeout_ms as int + 5000 > u64::MAX { u64::MAX as int } else { timeout_ms as int + 5000 },
{
    timeout_ms.saturating_add(5000)
}

/// What a streamed chat test does with one answer of the speech server,
/// after passing it on.
#[derive(Debug, Clone, PartialEq, Eq)]
pub enum OpenClawStep {
    /// Status 200: the stream ends in success, with this answer's body.
    Succeeded,
    /// Status 400 or above: the stream ends in failure.
    Failed,
    /// Any other status: more answers are awaited.
    Forward,
}

/// Decides what a streamed chat test does after an answer with `status`.
pub fn openclaw_stream_step(status: u16) -> (r: OpenClawStep)
    ensures
        r == if status == 200 {
            OpenClawStep::Succeeded
        } else if status >= 400 {
            OpenClawStep::Failed
        } else {
            OpenClawStep::Forward
        },
{
    if status == 200 {
        OpenClawStep::Succeeded
    } else if status >= 400 {
        OpenClawStep::Failed
    } else {
        OpenClawStep::Forward
    }
}

/// The error shown for a chat test's answer: none below status 400, else
/// the answer's error text, or a message naming the status when that is
/// empty.
pub open spec fn openclaw_error(status: u16, error: Seq<char>) -> Option<Seq<char>> {
    if status < 400 {
        None
    } else if error.len() == 0 {
        Some("OpenClaw 对话测试失败: status="@ + digits(status as nat))
    } else {
        Some(error)
    }
}

/// Picks the error shown for a chat test's answer.
pub fn openclaw_reply(status: u16, error: &str) -> (r: Option<String>)
    ensures
        crate::text::opt_view(r) == openclaw_error(status, error@),
{
    if status < 400 {
        None
    } else if error.is_empty() {
        let n = u64_to_string(status as u64);
        Some(concat("OpenClaw 对话测试失败: status=", n.as_str()))
    } else {
        Some(owned(error))
    }
}

} // verus!
