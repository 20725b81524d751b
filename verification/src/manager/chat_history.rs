//! Chat messages the speech server reports to the console: how a report is
//! read, given an id, and tied to the device's owner and agent.
use vstd::prelude::*;
use crate::json_fields::{json_i64_at, json_signed_at, json_text_at, text_at};
use crate::manager::captcha::new_challenge_id;
use crate::manager::records::ChatMessageInput;
use crate::text::owned;

verus! {

broadcast use vstd::string::group_string_axioms;

/// A string member of a report, or `default`.
pub open spec fn text_or(body: Seq<char>, at: Seq<char>, default: Seq<char>) -> Seq<char> {
    match text_at(body, at) {
        Some(t) => t,
        None => default,
    }
}

fn read_text_or(body: &str, at: &str, default: &str) -> (r: String)
    ensures
        r@ == text_or(body@, at@, default@),
{
    match json_text_at(body, at) {
        Some(t) => t,
        None => owned(default),
    }
}

/// Reads a chat message reported in the older format (JSON text): its id,
/// device, agent, user, session, role (`user` when none) and content; no
/// tool call and no metadata.
pub fn legacy_chat_input(body: &str) -> (r: ChatMessageInput)
    ensures
        r.message_id@ == text_or(body@, "/message_id"@, Seq::empty()),
        r.device_id@ == text_or(body@, "/device_id"@, Seq::empty()),
        r.agent_id == json_signed_at(body@, "/agent_id"@),
        r.user_id == json_signed_at(body@, "/user_id"@),
        r.session_id@ == text_or(body@, "/session_id"@, Seq::empty()),
        r.role@ == text_or(body@, "/role"@, "user"@),
        r.content@ == text_or(body@, "/content"@, Seq::empty()),
        r.tool_call_id is None,
        r.tool_calls_json is None,
        r.metadata@.len() == 0,
{
    proof {
        reveal_strlit("");
        assert(""@ =~= Seq::<char>::empty());
    }
    ChatMessageInput {
        message_id: read_text_or(body, "/message_id", ""),
        device_id: read_text_or(body, "/device_id", ""),
        agent_id: json_i64_at(body, "/agent_id"),
        user_id: json_i64_at(body, "/user_id"),
        session_id: read_text_or(body, "/session_id", ""),
        role: read_text_or(body, "/role", "user"),
        content: read_text_or(body, "/content", ""),
        tool_call_id: None,
        tool_calls_json: None,
        metadata: String::new(),
    }
}

/// Gives a reported message a fresh random id (a hyphenated UUID) when it
/// has none; nothing else changes.
pub fn ensure_message_id(input: &mut ChatMessageInput)
    ensures
        old(input).message_id@.len() > 0 ==> final(input).message_id == old(input).message_id,
        old(input).message_id@.len() == 0 ==> crate::manager::captcha::is_hyphenated_uuid(final(input).message_id@),
        final(input).device_id == old(input).device_id,
        final(input).agent_id == old(input).agent_id,
        final(input).user_id == old(input).user_id,
        final(input).session_id == old(input).session_id,
        final(input).role == old(input).role,
        final(input).content == old(input).content,
        final(input).tool_call_id == old(input).tool_call_id,
        final(input).tool_calls_json == old(input).tool_calls_json,
        final(input).metadata == old(input).metadata,
{
    if input.message_id.as_str().is_empty() {
        input.message_id = new_challenge_id();
    }
}

/// Ties a reported message to the registered device it came from:
/// `device` is that device's owner and agent, when one is registered under
/// the message's device id (or the physical device behind it).  An owner
/// or agent the message names already is kept.
pub fn enrich_with_device(input: &mut ChatMessageInput, device: Option<(Option<i64>, Option<i64>)>)
    ensures
        final(input).user_id == match old(input).user_id {
            Some(u) => Some(u),
            None => match device {
                Some((u, _)) => u,
                None => None,
            },
        },
        final(input).agent_id == match old(input).agent_id {
            Some(a) => Some(a),
            None => match device {
                Some((_, a)) => a,
                None => None,
            },
        },
        final(input).message_id == old(input).message_id,
        final(input).device_id == old(input).device_id,
        final(input).session_id == old(input).session_id,
        final(input).role == old(input).role,
        final(input).content == old(input).content,
        final(input).tool_call_id == old(input).tool_call_id,
        final(input).tool_calls_json == old(input).tool_calls_json,
        final(input).metadata == old(input).metadata,
{
    if let Some((u, a)) = device {
        if input.user_id.is_none() {
            input.user_id = u;
        }
        if input.agent_id.is_none() {
            input.agent_id = a;
        }
    }
}

} // verus!
