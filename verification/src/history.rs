//! The chat-history client of the device server: what it reports to the
//! management console and how it reads a session's dialogue back.
use vstd::prelude::*;
use crate::json_fields::{
    element_pointer, element_pointer_of, json_array_len, json_array_length, json_at, json_quote,
    json_quoted, json_text_at, read_json_pointer, text_at, JsonField, JsonFieldView,
};
use crate::text::{concat, concat3, decimal, i64_to_string, owned, trim, trim_end_char, trim_end_char_str, trim_str};

verus! {

broadcast use vstd::string::group_string_axioms;

/// A chat message to record.
#[derive(Debug, Clone)]
pub struct HistoryMessageInput {
    pub device_id: String,
    pub session_id: String,
    pub role: String,
    pub content: String,
    pub agent_id: Option<i64>,
    pub user_id: Option<i64>,
}

/// A message of a stored dialogue.
#[derive(Debug, Clone)]
pub struct DialogueMessage {
    pub role: String,
    pub content: String,
}

/// A request to the console: address and JSON body.
#[derive(Debug, Clone)]
pub struct HistoryRequest {
    pub url: String,
    pub body: String,
}

/// The console address with the given path, trailing slashes of the base
/// removed.
pub open spec fn endpoint(base: Seq<char>, path: Seq<char>) -> Seq<char> {
    trim_end_char(base, '/') + path
}

/// A positive id as a JSON member, or nothing.
pub open spec fn id_member(key: Seq<char>, id: Option<i64>) -> Seq<char> {
    match id {
        Some(v) => if v > 0 { "\""@ + key + "\":"@ + decimal(v as int) + ","@ } else { Seq::empty() },
        None => Seq::empty(),
    }
}

/// The JSON body of a message report, members in the order `serde_json`
/// prints them; the agent and user only when positive.
pub open spec fn report_body(msg: HistoryMessageInput, message_id: Seq<char>) -> Seq<char> {
    let tail = match msg.user_id {
        Some(v) => if v > 0 { ",\"user_id\":"@ + decimal(v as int) } else { Seq::empty() },
        None => Seq::empty(),
    };
    "{"@ + id_member("agent_id"@, msg.agent_id) + "\"content\":"@ + json_quoted(trim(msg.content@))
        + ",\"device_id\":"@ + json_quoted(msg.device_id@) + ",\"message_id\":"@ + json_quoted(message_id)
        + ",\"role\":"@ + json_quoted(msg.role@) + ",\"session_id\":"@ + json_quoted(msg.session_id@) + tail + "}"@
}

fn optional_id_member(key: &str, id: Option<i64>) -> (r: String)
    ensures
        r@ == id_member(key@, id),
{
    match id {
        Some(v) => {
            if v > 0 {
                let d = i64_to_string(v);
                let head = concat3("\"", key, "\":");
                let r = concat3(head.as_str(), d.as_str(), ",");
                proof {
                    reveal_strlit("\"");
                    reveal_strlit("\":");
                    reveal_strlit(",");
                }
                assert(r@ =~= id_member(key@, id));
                r
            } else {
                String::new()
            }
        },
        None => String::new(),
    }
}

/// The report of a message to the console: nothing when reporting is off
/// or the message is blank; else the address and body (content trimmed).
pub fn save_message_request(enabled: bool, base_url: &str, msg: &HistoryMessageInput, message_id: &str) -> (r: Option<HistoryRequest>)
    ensures
        !enabled || trim(msg.content@).len() == 0 <==> r is None,
        r matches Some(q) ==> {
            &&& q.url@ == endpoint(base_url@, "/api/internal/history/messages"@)
            &&& q.body@ == report_body(*msg, message_id@)
        },
{
    if !enabled {
        return None;
    }
    let content = trim_str(msg.content.as_str());
    if content.as_str().is_empty() {
        return None;
    }
    let base = trim_end_char_str(base_url, '/');
    let url = concat(base.as_str(), "/api/internal/history/messages");
    let agent = optional_id_member("agent_id", msg.agent_id);
    let c = json_quote(content.as_str());
    let d = json_quote(msg.device_id.as_str());
    let m = json_quote(message_id);
    let ro = json_quote(msg.role.as_str());
    let s = json_quote(msg.session_id.as_str());
    let tail = match msg.user_id {
        Some(v) => {
            if v > 0 {
                let n = i64_to_string(v);
                concat(",\"user_id\":", n.as_str())
            } else {
                String::new()
            }
        },
        None => String::new(),
    };
    let b1 = concat3("{", agent.as_str(), "\"content\":");
    let b2 = concat3(b1.as_str(), c.as_str(), ",\"device_id\":");
    let b3 = concat3(b2.as_str(), d.as_str(), ",\"message_id\":");
    let b4 = concat3(b3.as_str(), m.as_str(), ",\"role\":");
    let b5 = concat3(b4.as_str(), ro.as_str(), ",\"session_id\":");
    let b6 = concat3(b5.as_str(), s.as_str(), tail.as_str());
    let body = concat(b6.as_str(), "}");
    proof {
        reveal_strlit("{");
        reveal_strlit("\"content\":");
        reveal_strlit(",\"device_id\":");
        reveal_strlit(",\"message_id\":");
        reveal_strlit(",\"role\":");
        reveal_strlit(",\"session_id\":");
        reveal_strlit(",\"user_id\":");
        reveal_strlit("}");
    }
    assert(tail@ =~= match msg.user_id {
        Some(v) => if v > 0 { ",\"user_id\":"@ + decimal(v as int) } else { Seq::<char>::empty() },
        None => Seq::<char>::empty(),
    });
    assert(body@ =~= report_body(*msg, message_id@));
    Some(HistoryRequest { url, body })
}

/// The address a session's dialogue is read from: nothing when reporting
/// is off or the session id is blank.
pub fn dialogue_url(enabled: bool, base_url: &str, session_id: &str) -> (r: Option<String>)
    ensures
        !enabled || trim(session_id@).len() == 0 <==> r is None,
        r matches Some(u) ==> u@ == endpoint(base_url@, "/api/internal/history/sessions/"@) + trim(session_id@) + "/dialogue"@,
{
    if !enabled {
        return None;
    }
    let s = trim_str(session_id);
    if s.as_str().is_empty() {
        return None;
    }
    let base = trim_end_char_str(base_url, '/');
    let head = concat(base.as_str(), "/api/internal/history/sessions/");
    Some(concat3(head.as_str(), s.as_str(), "/dialogue"))
}

/// The address pool statistics are reported to, when reporting is on.
pub fn pool_stats_url(enabled: bool, base_url: &str) -> (r: Option<String>)
    ensures
        enabled <==> r is Some,
        r matches Some(u) ==> u@ == endpoint(base_url@, "/api/internal/pool/stats"@),
{
    if !enabled {
        return None;
    }
    let base = trim_end_char_str(base_url, '/');
    Some(concat(base.as_str(), "/api/internal/pool/stats"))
}

/// The `Authorization` header value for the console's shared token.
pub fn authorization_header(auth_token: &str) -> (r: String)
    ensures
        r@ == "Bearer "@ + auth_token@,
{
    concat("Bearer ", auth_token)
}

/// Where the message list of a dialogue reply is: `messages` when that
/// member exists, else `data.messages`.
pub open spec fn messages_pointer(body: Seq<char>) -> Seq<char> {
    match json_at(body, "/messages"@) {
        Some(JsonFieldView::Absent) => "/data/messages"@,
        None => "/data/messages"@,
        _ => "/messages"@,
    }
}

/// The messages with a text role and content among the first `n` items.
pub open spec fn dialogue_items(body: Seq<char>, base: Seq<char>, n: nat) -> Seq<(Seq<char>, Seq<char>)>
    decreases n,
{
    if n == 0 {
        Seq::empty()
    } else {
        let rest = dialogue_items(body, base, (n - 1) as nat);
        let p = element_pointer(base, n - 1);
        match (text_at(body, p + "/role"@), text_at(body, p + "/content"@)) {
            (Some(r), Some(c)) => rest.push((r, c)),
            _ => rest,
        }
    }
}

/// The dialogue a reply (JSON text) holds.
pub open spec fn dialogue_of(body: Seq<char>) -> Seq<(Seq<char>, Seq<char>)> {
    let base = messages_pointer(body);
    match json_array_length(body, base) {
        Some(n) => dialogue_items(body, base, n as nat),
        None => Seq::empty(),
    }
}

/// Reads the dialogue out of the console's reply.
pub fn parse_dialogue(body: &str) -> (r: Vec<DialogueMessage>)
    ensures
        r@.map_values(|m: DialogueMessage| (m.role@, m.content@)) == dialogue_of(body@),
{
    proof {
        reveal_strlit("/messages");
        reveal_strlit("/data/messages");
    }
    let base = match read_json_pointer(body, "/messages") {
        Some(JsonField::Absent) => "/data/messages",
        None => "/data/messages",
        _ => "/messages",
    };
    let mut out: Vec<DialogueMessage> = Vec::new();
    let n = match json_array_len(body, base) {
        Some(n) => n,
        None => {
            assert(out@.map_values(|m: DialogueMessage| (m.role@, m.content@)) =~= Seq::empty());
            return out;
        },
    };
    let mut i: usize = 0;
    while i < n
        invariant
            i <= n,
            base@ == messages_pointer(body@),
            json_array_length(body@, base@) == Some(n),
            out@.map_values(|m: DialogueMessage| (m.role@, m.content@)) == dialogue_items(body@, base@, i as nat),
        decreases n - i,
    {
        let p = element_pointer_of(base, i);
        let role = json_text_at(body, concat(p.as_str(), "/role").as_str());
        let content = json_text_at(body, concat(p.as_str(), "/content").as_str());
        match (role, content) {
            (Some(r), Some(c)) => {
                let ghost before = out@.map_values(|m: DialogueMessage| (m.role@, m.content@));
                let m = DialogueMessage { role: r, content: c };
                let ghost mv = (m.role@, m.content@);
                out.push(m);
                assert(out@.map_values(|m: DialogueMessage| (m.role@, m.content@)) =~= before.push(mv));
            },
            _ => {},
        }
        i = i + 1;
    }
    out
}

/// The message a chat report is made of.
pub fn report_chat_message(device_id: &str, session_id: &str, role: &str, content: &str) -> (r: HistoryMessageInput)
    ensures
        r.device_id@ == device_id@,
        r.session_id@ == session_id@,
        r.role@ == role@,
        r.content@ == content@,
        r.agent_id is None,
        r.user_id is None,
{
    HistoryMessageInput {
        device_id: owned(device_id),
        session_id: owned(session_id),
        role: owned(role),
        content: owned(content),
        agent_id: None,
        user_id: None,
    }
}

/// A plug-in of the chat lifecycle that logs each event.
pub struct StatisticPlugin;

impl StatisticPlugin {
    /// The plug-in's name.
    pub fn name(&self) -> (r: &'static str)
        ensures
            r@ == "statistic_plugin"@,
    {
        "statistic_plugin"
    }

    /// The plug-in's priority among the lifecycle plug-ins.
    pub fn priority(&self) -> (r: i32)
        ensures
            r == 100,
    {
        100
    }

    /// The line logged for an event.
    pub fn log_line(&self, event_type: &str, device_id: &str) -> (r: String)
        ensures
            r@ == "[statistic] "@ + event_type@ + " device="@ + device_id@,
    {
        let head = concat3("[statistic] ", event_type, " device=");
        concat(head.as_str(), device_id)
    }
}

} // verus!
