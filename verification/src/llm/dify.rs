//! The Dify chat provider: its configuration, the request it sends, and how
//! its reply stream is read.
use vstd::prelude::*;
use crate::json_fields::{
    is_json_object, json_is_object, json_member_or, json_quote, json_quoted,
    json_string_or_absent_at, member_or, string_or_absent_at,
};
use crate::llm::llm_common::{
    build_provider_query, build_stable_user_id, conversation_lookup, get_conversation_id,
    provider_query, stable_user_id, ConversationMap,
};
use crate::llm::message::ChatMessage;
use crate::llm::provider::{steps_view, LlmError, StepView, StreamStep};
use crate::llm::sse_stream::{event_views, iter_sse_events, sse_events};
use crate::text::{
    concat, concat3, ends_with_ignore_ascii_case, ends_with_ignore_case_ascii, eq_str, owned,
    trim, trim_end_char, trim_end_char_str, trim_str,
};

verus! {

broadcast use vstd::string::group_string_axioms;

pub const DEFAULT_DIFY_BASE_URL: &'static str = "https://api.dify.ai/v1";
pub const DEFAULT_USER_PREFIX: &'static str = "xiaozhi";

/// A Dify application reached with an API key.  `conversation_ids` keeps
/// the conversation Dify assigned to each session.
pub struct DifyLlmProvider {
    pub api_key: String,
    pub base_url: String,
    pub user_prefix: String,
    pub conversation_ids: ConversationMap,
}

/// The API root of a configuration: the configured or default address,
/// trimmed, without trailing slashes, ending in `/v1` (any case).
pub open spec fn dify_api_root(config: Seq<char>) -> Seq<char> {
    let b = trim_end_char(trim(member_or(config, "base_url"@, DEFAULT_DIFY_BASE_URL@)), '/');
    if ends_with_ignore_ascii_case(b, "/v1"@) { b } else { b + "/v1"@ }
}

/// The provider a configuration (JSON text) describes, or why there is none.
pub open spec fn dify_from_config(config: Seq<char>) -> Result<(Seq<char>, Seq<char>, Seq<char>), Seq<char>> {
    let key = trim(member_or(config, "api_key"@, Seq::empty()));
    if key.len() == 0 {
        Err("dify api_key不能为空"@)
    } else {
        Ok((key, dify_api_root(config), trim(member_or(config, "user_prefix"@, DEFAULT_USER_PREFIX@))))
    }
}

/// The plain content of a built provider or its error.
pub open spec fn dify_result_view(r: Result<DifyLlmProvider, LlmError>) -> Result<(Seq<char>, Seq<char>, Seq<char>), Seq<char>> {
    match r {
        Ok(p) => Ok((p.api_key@, p.base_url@, p.user_prefix@)),
        Err(LlmError::Config(m)) => Err(m@),
        Err(_) => Err(Seq::empty()),
    }
}

/// A request to Dify's streaming chat endpoint.
pub struct DifyRequest {
    pub url: String,
    pub query: String,
    pub user: String,
    pub conversation_id: String,
}

/// The JSON body of a chat request, members in the order `serde_json`
/// prints them; the conversation is named only when there is one.
pub open spec fn dify_body(query: Seq<char>, user: Seq<char>, conversation_id: Seq<char>) -> Seq<char> {
    let head = if conversation_id.len() == 0 {
        "{"@
    } else {
        "{\"conversation_id\":"@ + json_quoted(conversation_id) + ","@
    };
    head + "\"inputs\":{},\"query\":"@ + json_quoted(query) + ",\"response_mode\":\"streaming\",\"user\":"@
        + json_quoted(user) + "}"@
}

/// One event of Dify's reply stream, decoded as a record with defaulted
/// string members `event`, `answer`, `message` and `conversation_id`:
/// `None` when the data is not such an object.
pub open spec fn dify_event(data: Seq<char>) -> Option<(Seq<char>, Seq<char>, Seq<char>, Seq<char>)> {
    let e = string_or_absent_at(data, "/event"@);
    let a = string_or_absent_at(data, "/answer"@);
    let m = string_or_absent_at(data, "/message"@);
    let c = string_or_absent_at(data, "/conversation_id"@);
    if is_json_object(data) && e is Some && a is Some && m is Some && c is Some {
        Some((e.unwrap(), a.unwrap(), m.unwrap(), c.unwrap()))
    } else {
        None
    }
}

/// The steps one event leads to, and whether the stream ends with it.
pub open spec fn dify_event_steps(data: Seq<char>) -> (Seq<StepView>, bool) {
    let d = trim(data);
    if d.len() == 0 || d == "[DONE]"@ {
        (Seq::empty(), false)
    } else {
        match dify_event(d) {
            None => (Seq::empty(), false),
            Some((event, answer, message, cid)) => {
                let conv = if cid.len() > 0 { seq![StepView::Conversation(cid)] } else { Seq::empty() };
                if event == "error"@ {
                    let msg = if message.len() == 0 { "dify返回错误"@ } else { message };
                    (conv.push(StepView::Failure(msg)), true)
                } else if event == "message_end"@ {
                    (conv, true)
                } else if answer.len() > 0 {
                    (conv.push(StepView::Answer(answer)), false)
                } else {
                    (conv, false)
                }
            },
        }
    }
}

/// The steps a sequence of events leads to, up to the one that ends it.
pub open spec fn dify_steps(events: Seq<(Seq<char>, Seq<char>)>) -> Seq<StepView>
    decreases events.len(),
{
    if events.len() == 0 {
        Seq::empty()
    } else {
        let (s, stop) = dify_event_steps(events[0].1);
        if stop { s } else { s + dify_steps(events.drop_first()) }
    }
}

impl DifyLlmProvider {
    /// Builds the provider from its JSON configuration (`api_key`,
    /// `base_url`, `user_prefix`).
    pub fn from_config(config_json: &str) -> (r: Result<DifyLlmProvider, LlmError>)
        ensures
            dify_result_view(r) == dify_from_config(config_json@),
            r matches Ok(p) ==> p.conversation_ids@.is_empty(),
    {
        let key_text = json_member_or(config_json, "api_key", "");
        let api_key = trim_str(key_text.as_str());
        proof {
            reveal_strlit("");
            assert(""@ =~= Seq::<char>::empty());
        }
        if api_key.as_str().is_empty() {
            return Err(LlmError::Config(owned("dify api_key不能为空")));
        }
        let base_text = json_member_or(config_json, "base_url", DEFAULT_DIFY_BASE_URL);
        let trimmed = trim_str(base_text.as_str());
        let base = trim_end_char_str(trimmed.as_str(), '/');
        let base_url = if ends_with_ignore_case_ascii(base.as_str(), "/v1") {
            base
        } else {
            concat(base.as_str(), "/v1")
        };
        let prefix_text = json_member_or(config_json, "user_prefix", DEFAULT_USER_PREFIX);
        let user_prefix = trim_str(prefix_text.as_str());
        Ok(DifyLlmProvider { api_key, base_url, user_prefix, conversation_ids: ConversationMap::new() })
    }

    /// The provider can be used: it has a key and an address.
    pub fn is_valid(&self) -> (r: bool)
        ensures
            r == (self.api_key@.len() > 0 && self.base_url@.len() > 0),
    {
        !self.api_key.as_str().is_empty() && !self.base_url.as_str().is_empty()
    }

    /// The request for a dialogue in a session: the latest user text as the
    /// query, a stable user id, and the session's conversation if Dify
    /// assigned one; an error when there is no text to ask.
    pub fn chat_request(&self, session_id: &str, dialogue: &[ChatMessage]) -> (r: Result<DifyRequest, String>)
        ensures
            provider_query(dialogue@).len() == 0 <==> r is Err,
            r matches Err(m) ==> m@ == "dify query不能为空"@,
            r matches Ok(q) ==> {
                &&& q.url@ == self.base_url@ + "/chat-messages"@
                &&& q.query@ == provider_query(dialogue@)
                &&& q.user@ == stable_user_id(self.user_prefix@, session_id@)
                &&& q.conversation_id@ == conversation_lookup(self.conversation_ids@, session_id@)
            },
    {
        let query = build_provider_query(dialogue);
        if query.as_str().is_empty() {
            return Err(owned("dify query不能为空"));
        }
        let user = build_stable_user_id(self.user_prefix.as_str(), session_id);
        let conversation_id = get_conversation_id(&self.conversation_ids, session_id);
        let url = concat(self.base_url.as_str(), "/chat-messages");
        Ok(DifyRequest { url, query, user, conversation_id })
    }
}

impl DifyRequest {
    /// The JSON body of the request.
    pub fn body_json(&self) -> (r: String)
        ensures
            r@ == dify_body(self.query@, self.user@, self.conversation_id@),
    {
        let q = json_quote(self.query.as_str());
        let u = json_quote(self.user.as_str());
        let head = if self.conversation_id.as_str().is_empty() {
            owned("{")
        } else {
            let c = json_quote(self.conversation_id.as_str());
            concat3("{\"conversation_id\":", c.as_str(), ",")
        };
        let a = concat3(head.as_str(), "\"inputs\":{},\"query\":", q.as_str());
        let b = concat3(a.as_str(), ",\"response_mode\":\"streaming\",\"user\":", u.as_str());
        let r = concat(b.as_str(), "}");
        proof {
            reveal_strlit("{");
            reveal_strlit("{\"conversation_id\":");
            reveal_strlit(",");
            reveal_strlit("\"inputs\":{},\"query\":");
            reveal_strlit(",\"response_mode\":\"streaming\",\"user\":");
            reveal_strlit("}");
        }
        assert(r@ =~= dify_body(self.query@, self.user@, self.conversation_id@));
        r
    }
}

/// Decodes one event of the reply stream.
fn decode_dify_event(data: &str) -> (r: Option<(String, String, String, String)>)
    ensures
        match r {
            Some((e, a, m, c)) => dify_event(data@) == Some((e@, a@, m@, c@)),
            None => dify_event(data@) is None,
        },
{
    if !json_is_object(data) {
        return None;
    }
    let e = json_string_or_absent_at(data, "/event");
    let a = json_string_or_absent_at(data, "/answer");
    let m = json_string_or_absent_at(data, "/message");
    let c = json_string_or_absent_at(data, "/conversation_id");
    match (e, a, m, c) {
        (Some(e), Some(a), Some(m), Some(c)) => Some((e, a, m, c)),
        _ => None,
    }
}

/// The steps one event's data leads to, and whether the stream ends.
fn dify_event_step(data: &str) -> (r: (Vec<StreamStep>, bool))
    ensures
        (steps_view(r.0@), r.1) == dify_event_steps(data@),
{
    let d = trim_str(data);
    let mut out: Vec<StreamStep> = Vec::new();
    proof {
        reveal_strlit("[DONE]");
    }
    if d.as_str().is_empty() || eq_str(d.as_str(), "[DONE]") {
        assert(steps_view(out@) =~= Seq::empty());
        return (out, false);
    }
    match decode_dify_event(d.as_str()) {
        None => {
            assert(steps_view(out@) =~= Seq::empty());
            (out, false)
        },
        Some((event, answer, message, cid)) => {
            if !cid.as_str().is_empty() {
                out.push(StreamStep::Conversation(cid));
            }
            let ghost conv = steps_view(out@);
            assert(conv =~= if cid@.len() > 0 { seq![StepView::Conversation(cid@)] } else { Seq::empty() });
            if eq_str(event.as_str(), "error") {
                let msg = if message.as_str().is_empty() { owned("dify返回错误") } else { message };
                out.push(StreamStep::Failure(msg));
                assert(steps_view(out@) =~= conv.push(StepView::Failure(msg@)));
                (out, true)
            } else if eq_str(event.as_str(), "message_end") {
                (out, true)
            } else if !answer.as_str().is_empty() {
                out.push(StreamStep::Answer(answer));
                assert(steps_view(out@) =~= conv.push(StepView::Answer(answer@)));
                (out, false)
            } else {
                (out, false)
            }
        },
    }
}

/// Reads a Dify reply stream (SSE text): the conversation ids it assigns,
/// the pieces of the answer, and an error event, up to `message_end`.
/// Events that are blank, `[DONE]` or not a decodable record are skipped.
pub fn dify_stream_steps(body: &str) -> (r: Vec<StreamStep>)
    ensures
        steps_view(r@) == dify_steps(sse_events(body@)),
{
    let events = iter_sse_events(body);
    let ghost evs = event_views(events@);
    let mut out: Vec<StreamStep> = Vec::new();
    let mut i: usize = 0;
    assert(evs.skip(0) =~= evs);
    assert(steps_view(out@) + dify_steps(evs) =~= dify_steps(evs));
    while i < events.len()
        invariant
            i <= events.len(),
            evs == event_views(events@),
            evs == sse_events(body@),
            dify_steps(evs) == steps_view(out@) + dify_steps(evs.skip(i as int)),
        decreases events.len() - i,
    {
        let (mut s, stop) = dify_event_step(events[i].data.as_str());
        assert(evs.skip(i as int)[0] == evs[i as int]);
        assert(evs.skip(i as int).drop_first() =~= evs.skip(i + 1));
        let ghost before = steps_view(out@);
        out.append(&mut s);
        assert(steps_view(out@) =~= before + dify_event_steps(evs[i as int].1).0);
        if stop {
            assert(dify_steps(evs) =~= steps_view(out@));
            return out;
        }
        i = i + 1;
    }
    assert(evs.skip(i as int) =~= Seq::empty());
    assert(steps_view(out@) + Seq::<StepView>::empty() =~= steps_view(out@));
    out
}

/// A failure ends the stream: no step follows it.
pub proof fn law_dify_failure_is_last(events: Seq<(Seq<char>, Seq<char>)>)
    ensures
        forall|i: int| 0 <= i < dify_steps(events).len() - 1 ==> !(dify_steps(events)[i] is Failure),
    decreases events.len(),
{
    if events.len() > 0 {
        law_dify_failure_is_last(events.drop_first());
        let (s, stop) = dify_event_steps(events[0].1);
        let rest = dify_steps(events.drop_first());
        if !stop {
            assert forall|i: int| 0 <= i < dify_steps(events).len() - 1 implies !(dify_steps(events)[i] is Failure) by {
                if i < s.len() {
                    assert(dify_steps(events)[i] == s[i]);
                } else {
                    assert(dify_steps(events)[i] == rest[i - s.len()]);
                }
            }
        }
    }
}

} // verus!
