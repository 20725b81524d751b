//! The Coze chat provider: its configuration, the request bodies it tries,
//! and how its reply stream is read.
use vstd::prelude::*;
use crate::json_fields::{is_json_object, json_at, json_is_object, json_member_or, json_quote, json_quoted, json_string_literal, json_string_or_absent_at, json_string_value, json_text_at, member_or, read_json_pointer, string_or_absent_at, text_at, JsonField, JsonFieldView};
use crate::llm::llm_common::{build_stable_user_id, conversation_lookup, get_conversation_id, normalize_api_token, normalized_api_token, stable_user_id, ConversationMap};
use crate::llm::provider::{steps_view, LlmError, StepView, StreamStep};
use crate::llm::sse_stream::{event_views, iter_sse_events, sse_events};
use crate::text::{concat, concat3, eq_ignore_ascii_case, eq_ignore_case_ascii, eq_str, owned, trim, trim_end_char, trim_end_char_str, trim_str};

verus! {

broadcast use vstd::string::group_string_axioms;

pub const DEFAULT_COZE_BASE_URL: &'static str = "https://api.coze.com";
pub const DEFAULT_CONNECTOR_ID: &'static str = "1024";
pub const DEFAULT_USER_PREFIX: &'static str = "xiaozhi";
pub const STREAM_CREATE_PATH: &'static str = "/v3/chat";

/// A Coze bot reached with an API token.  `conversation_ids` keeps the
/// conversation Coze assigned to each session.
pub struct CozeLlmProvider {
    pub api_key: String,
    pub base_url: String,
    pub bot_id: String,
    pub user_prefix: String,
    pub connector_id: String,
    pub conversation_ids: ConversationMap,
}

/// The settings a configuration (JSON text) gives: token, address, bot,
/// user prefix and connector; or why there are none.
pub open spec fn coze_from_config(config: Seq<char>) -> Result<(Seq<char>, Seq<char>, Seq<char>, Seq<char>, Seq<char>), Seq<char>> {
    let key = normalized_api_token(member_or(config, "api_key"@, Seq::empty()));
    let bot = trim(member_or(config, "bot_id"@, Seq::empty()));
    if key.len() == 0 {
        Err("coze api_key不能为空"@)
    } else if bot.len() == 0 {
        Err("coze bot_id不能为空"@)
    } else {
        Ok((
            key,
            trim_end_char(trim(member_or(config, "base_url"@, DEFAULT_COZE_BASE_URL@)), '/'),
            bot,
            trim(member_or(config, "user_prefix"@, DEFAULT_USER_PREFIX@)),
            trim(member_or(config, "connector_id"@, DEFAULT_CONNECTOR_ID@)),
        ))
    }
}

/// The plain content of a built provider or its error.
pub open spec fn coze_result_view(r: Result<CozeLlmProvider, LlmError>) -> Result<(Seq<char>, Seq<char>, Seq<char>, Seq<char>, Seq<char>), Seq<char>> {
    match r {
        Ok(p) => Ok((p.api_key@, p.base_url@, p.bot_id@, p.user_prefix@, p.connector_id@)),
        Err(LlmError::Config(m)) => Err(m@),
        Err(_) => Err(Seq::empty()),
    }
}

/// One request body for Coze's streaming chat: the bot, the user, the
/// connector (left out when `None`), the conversation (empty for a new
/// one) and the question.
#[derive(Debug, Clone)]
pub struct CozeRequestBody {
    pub bot_id: String,
    pub user_id: String,
    pub connector_id: Option<String>,
    pub conversation_id: String,
    pub query: String,
}

/// The plain content of a request body.
pub type BodyView = (Seq<char>, Seq<char>, Option<Seq<char>>, Seq<char>, Seq<char>);

impl View for CozeRequestBody {
    type V = BodyView;

    open spec fn view(&self) -> BodyView {
        (self.bot_id@, self.user_id@, crate::text::opt_view(self.connector_id), self.conversation_id@, self.query@)
    }
}

/// The bodies to try, in order: the full one; without the connector; with
/// a fresh conversation; with neither.  The later ones only where they
/// differ from the full one.
pub open spec fn coze_bodies(bot: Seq<char>, user: Seq<char>, connector: Seq<char>, conv: Seq<char>, query: Seq<char>) -> Seq<BodyView> {
    let base: BodyView = (bot, user, Some(connector), conv, query);
    let s1 = seq![base];
    let s2 = if connector.len() > 0 { s1.push((bot, user, None, conv, query)) } else { s1 };
    let s3 = if conv.len() > 0 { s2.push((bot, user, Some(connector), Seq::empty(), query)) } else { s2 };
    if conv.len() > 0 && connector.len() > 0 { s3.push((bot, user, None, Seq::empty(), query)) } else { s3 }
}

/// The JSON text of a body, members in the order `serde_json` prints them.
pub open spec fn coze_body_json(b: BodyView) -> Seq<char> {
    let conn = match b.2 {
        Some(c) => "\"connector_id\":"@ + json_quoted(c) + ","@,
        None => Seq::empty(),
    };
    "{\"additional_messages\":[{\"content\":"@ + json_quoted(b.4)
        + ",\"content_type\":\"text\",\"role\":\"user\",\"type\":\"question\"}],\"bot_id\":"@
        + json_quoted(b.0) + ","@ + conn + "\"conversation_id\":"@ + json_quoted(b.3)
        + ",\"stream\":true,\"user_id\":"@ + json_quoted(b.1) + "}"@
}

impl CozeRequestBody {
    /// The JSON text of the body.
    pub fn to_json(&self) -> (r: String)
        ensures
            r@ == coze_body_json(self@),
    {
        let q = json_quote(self.query.as_str());
        let b = json_quote(self.bot_id.as_str());
        let c = json_quote(self.conversation_id.as_str());
        let u = json_quote(self.user_id.as_str());
        let s1 = concat3(
            "{\"additional_messages\":[{\"content\":",
            q.as_str(),
            ",\"content_type\":\"text\",\"role\":\"user\",\"type\":\"question\"}],\"bot_id\":",
        );
        let s2 = concat3(s1.as_str(), b.as_str(), ",");
        let s3 = match &self.connector_id {
            Some(conn) => {
                let cq = json_quote(conn.as_str());
                let t = concat3(s2.as_str(), "\"connector_id\":", cq.as_str());
                concat(t.as_str(), ",")
            },
            None => s2,
        };
        let s4 = concat3(s3.as_str(), "\"conversation_id\":", c.as_str());
        let s5 = concat3(s4.as_str(), ",\"stream\":true,\"user_id\":", u.as_str());
        let r = concat(s5.as_str(), "}");
        proof {
            reveal_strlit("{\"additional_messages\":[{\"content\":");
            reveal_strlit(",\"content_type\":\"text\",\"role\":\"user\",\"type\":\"question\"}],\"bot_id\":");
            reveal_strlit(",");
            reveal_strlit("\"connector_id\":");
            reveal_strlit("\"conversation_id\":");
            reveal_strlit(",\"stream\":true,\"user_id\":");
            reveal_strlit("}");
        }
        assert(r@ =~= coze_body_json(self@));
        r
    }
}

impl CozeLlmProvider {
    /// Builds the provider from its JSON configuration (`api_key`,
    /// `bot_id`, `base_url`, `user_prefix`, `connector_id`).
    pub fn from_config(config_json: &str) -> (r: Result<CozeLlmProvider, LlmError>)
        ensures
            coze_result_view(r) == coze_from_config(config_json@),
            r matches Ok(p) ==> p.conversation_ids@.is_empty(),
    {
        proof {
            reveal_strlit("");
            assert(""@ =~= Seq::<char>::empty());
        }
        let key_text = json_member_or(config_json, "api_key", "");
        let api_key = normalize_api_token(key_text.as_str());
        if api_key.as_str().is_empty() {
            return Err(LlmError::Config(owned("coze api_key不能为空")));
        }
        let bot_text = json_member_or(config_json, "bot_id", "");
        let bot_id = trim_str(bot_text.as_str());
        if bot_id.as_str().is_empty() {
            return Err(LlmError::Config(owned("coze bot_id不能为空")));
        }
        let base_text = json_member_or(config_json, "base_url", DEFAULT_COZE_BASE_URL);
        let base_trimmed = trim_str(base_text.as_str());
        let base_url = trim_end_char_str(base_trimmed.as_str(), '/');
        let prefix_text = json_member_or(config_json, "user_prefix", DEFAULT_USER_PREFIX);
        let user_prefix = trim_str(prefix_text.as_str());
        let connector_text = json_member_or(config_json, "connector_id", DEFAULT_CONNECTOR_ID);
        let connector_id = trim_str(connector_text.as_str());
        Ok(CozeLlmProvider {
            api_key,
            base_url,
            bot_id,
            user_prefix,
            connector_id,
            conversation_ids: ConversationMap::new(),
        })
    }

    /// The provider can be used: it has a token and a bot.
    pub fn is_valid(&self) -> (r: bool)
        ensures
            r == (self.api_key@.len() > 0 && self.bot_id@.len() > 0),
    {
        !self.api_key.as_str().is_empty() && !self.bot_id.as_str().is_empty()
    }

    /// The address streaming chats are opened at.
    pub fn stream_url(&self) -> (r: String)
        ensures
            r@ == self.base_url@ + STREAM_CREATE_PATH@,
    {
        concat(self.base_url.as_str(), STREAM_CREATE_PATH)
    }

    /// The request bodies to try for a question in a session, in order;
    /// no two of them are alike.
    pub fn build_request_bodies(&self, session_id: &str, query: &str) -> (r: Vec<CozeRequestBody>)
        ensures
            r@.map_values(|b: CozeRequestBody| b@) == coze_bodies(
                self.bot_id@,
                stable_user_id(self.user_prefix@, session_id@),
                self.connector_id@,
                conversation_lookup(self.conversation_ids@, session_id@),
                query@,
            ),
            forall|i: int, j: int| 0 <= i < j < r@.len() ==> r@[i]@ != r@[j]@,
    {
        let conversation_id = get_conversation_id(&self.conversation_ids, session_id);
        let user_id = build_stable_user_id(self.user_prefix.as_str(), session_id);
        let base = CozeRequestBody {
            bot_id: self.bot_id.clone(),
            user_id: user_id.clone(),
            connector_id: Some(self.connector_id.clone()),
            conversation_id: conversation_id.clone(),
            query: owned(query),
        };
        let mut bodies: Vec<CozeRequestBody> = Vec::new();
        bodies.push(base);
        if !self.connector_id.as_str().is_empty() {
            bodies.push(CozeRequestBody {
                bot_id: self.bot_id.clone(),
                user_id: user_id.clone(),
                connector_id: None,
                conversation_id: conversation_id.clone(),
                query: owned(query),
            });
        }
        if !conversation_id.as_str().is_empty() {
            bodies.push(CozeRequestBody {
                bot_id: self.bot_id.clone(),
                user_id: user_id.clone(),
                connector_id: Some(self.connector_id.clone()),
                conversation_id: String::new(),
                query: owned(query),
            });
            if !self.connector_id.as_str().is_empty() {
                bodies.push(CozeRequestBody {
                    bot_id: self.bot_id.clone(),
                    user_id: user_id.clone(),
                    connector_id: None,
                    conversation_id: String::new(),
                    query: owned(query),
                });
            }
        }
        assert(bodies@.map_values(|b: CozeRequestBody| b@) =~= coze_bodies(
            self.bot_id@,
            user_id@,
            self.connector_id@,
            conversation_id@,
            query@,
        ));
        bodies
    }
}

/// Whether a response's content type announces an event stream.
pub open spec fn is_event_stream_type(content_type: Seq<char>) -> bool {
    exists|i: int| 0 <= i && i + 17 <= content_type.len()
        && eq_ignore_ascii_case(#[trigger] content_type.subrange(i, i + 17), "text/event-stream"@)
}

/// Whether a response's content type announces an event stream.
pub fn is_event_stream(content_type: &str) -> (r: bool)
    ensures
        r == is_event_stream_type(content_type@),
{
    proof {
        reveal_strlit("text/event-stream");
    }
    let v = crate::text::chars_of(content_type);
    let mut i: usize = 0;
    while i < v.len() && v.len() - i >= 17
        invariant
            i <= v.len(),
            v@ == content_type@,
            forall|j: int| 0 <= j < i && j + 17 <= v@.len() ==> !eq_ignore_ascii_case(#[trigger] v@.subrange(j, j + 17), "text/event-stream"@),
        decreases v.len() - i,
    {
        let w = crate::text::string_from_range(&v, i, i + 17);
        if eq_ignore_case_ascii(w.as_str(), "text/event-stream") {
            return true;
        }
        i = i + 1;
    }
    assert forall|j: int| 0 <= j && j + 17 <= content_type@.len() implies !eq_ignore_ascii_case(#[trigger] content_type@.subrange(j, j + 17), "text/event-stream"@) by {
        assert(j < i);
    }
    false
}

// ---------------------------------------------------------------------------
// Reading the reply stream
// ---------------------------------------------------------------------------

/// The data of an event with at most two layers of JSON string quoting
/// removed, trimmed.
pub open spec fn normalized_coze_data(data: Seq<char>) -> Seq<char> {
    let d0 = trim(data);
    match json_string_value(d0) {
        None => d0,
        Some(x) => {
            let d1 = trim(x);
            match json_string_value(d1) {
                None => d1,
                Some(y) => trim(y),
            }
        },
    }
}

fn normalize_coze_stream_data(data: &str) -> (r: String)
    ensures
        r@ == normalized_coze_data(data@),
{
    let d0 = trim_str(data);
    match json_string_literal(d0.as_str()) {
        None => d0,
        Some(x) => {
            let d1 = trim_str(x.as_str());
            match json_string_literal(d1.as_str()) {
                None => d1,
                Some(y) => trim_str(y.as_str()),
            }
        },
    }
}

/// `[DONE]` or `done`, in any case, around white space.
pub open spec fn coze_done_marker(data: Seq<char>) -> bool {
    eq_ignore_ascii_case(trim(data), "[DONE]"@) || eq_ignore_ascii_case(trim(data), "done"@)
}

/// Whether event data marks the end of the stream.
pub fn is_coze_done_marker(data: &str) -> (r: bool)
    ensures
        r == coze_done_marker(data@),
{
    let d = trim_str(data);
    eq_ignore_case_ascii(d.as_str(), "[DONE]") || eq_ignore_case_ascii(d.as_str(), "done")
}

/// An event record of the stream: `event`, `msg`, `conversation_id`, the
/// content of `message` (when present) and, of `chat` (when present), its
/// `conversation_id` and the `msg` of its `last_error` (when present).
pub struct CozeEventView {
    pub event: Seq<char>,
    pub msg: Seq<char>,
    pub conversation_id: Seq<char>,
    pub message: Option<Seq<char>>,
    pub chat: Option<(Seq<char>, Option<Seq<char>>)>,
}

/// Whether an optional nested record is there: `Some(false)` for a
/// missing or `null` member, `Some(true)` for an object, `None` otherwise.
pub open spec fn optional_record(data: Seq<char>, pointer: Seq<char>) -> Option<bool> {
    match json_at(data, pointer) {
        Some(JsonFieldView::Absent) => Some(false),
        Some(JsonFieldView::Null) => Some(false),
        Some(JsonFieldView::Object) => Some(true),
        _ => None,
    }
}

/// The event record the data decodes to, with every string member
/// defaulted to empty; `None` when a member has another type.
pub open spec fn coze_event(data: Seq<char>) -> Option<CozeEventView> {
    let ev = string_or_absent_at(data, "/event"@);
    let msg = string_or_absent_at(data, "/msg"@);
    let cid = string_or_absent_at(data, "/conversation_id"@);
    let m = optional_record(data, "/message"@);
    let mc = string_or_absent_at(data, "/message/content"@);
    let c = optional_record(data, "/chat"@);
    let cc = string_or_absent_at(data, "/chat/conversation_id"@);
    let le = optional_record(data, "/chat/last_error"@);
    let lm = string_or_absent_at(data, "/chat/last_error/msg"@);
    let message_ok = m is Some && (m == Some(true) ==> mc is Some);
    let last_error_ok = le is Some && (le == Some(true) ==> lm is Some);
    let chat_ok = c is Some && (c == Some(true) ==> cc is Some && last_error_ok);
    if is_json_object(data) && ev is Some && msg is Some && cid is Some && message_ok && chat_ok {
        Some(CozeEventView {
            event: ev.unwrap(),
            msg: msg.unwrap(),
            conversation_id: cid.unwrap(),
            message: if m == Some(true) { Some(mc.unwrap()) } else { None },
            chat: if c == Some(true) {
                Some((cc.unwrap(), if le == Some(true) { Some(lm.unwrap()) } else { None }))
            } else {
                None
            },
        })
    } else {
        None
    }
}

/// The decoded form of an event record.
pub struct CozeEvent {
    pub event: String,
    pub msg: String,
    pub conversation_id: String,
    pub message: Option<String>,
    pub chat: Option<(String, Option<String>)>,
}

impl View for CozeEvent {
    type V = CozeEventView;

    open spec fn view(&self) -> CozeEventView {
        CozeEventView {
            event: self.event@,
            msg: self.msg@,
            conversation_id: self.conversation_id@,
            message: crate::text::opt_view(self.message),
            chat: match self.chat {
                Some((a, b)) => Some((a@, crate::text::opt_view(b))),
                None => None,
            },
        }
    }
}

fn read_optional_record(data: &str, pointer: &str) -> (r: Option<bool>)
    ensures
        r == optional_record(data@, pointer@),
{
    match read_json_pointer(data, pointer) {
        Some(JsonField::Absent) => Some(false),
        Some(JsonField::Null) => Some(false),
        Some(JsonField::Object) => Some(true),
        _ => None,
    }
}

fn decode_coze_event(data: &str) -> (r: Option<CozeEvent>)
    ensures
        match r {
            Some(e) => coze_event(data@) == Some(e@),
            None => coze_event(data@) is None,
        },
{
    if !json_is_object(data) {
        return None;
    }
    let ev = json_string_or_absent_at(data, "/event");
    let msg = json_string_or_absent_at(data, "/msg");
    let cid = json_string_or_absent_at(data, "/conversation_id");
    let (event, msg, conversation_id) = match (ev, msg, cid) {
        (Some(a), Some(b), Some(c)) => (a, b, c),
        _ => return None,
    };
    let message = match read_optional_record(data, "/message") {
        None => return None,
        Some(false) => None,
        Some(true) => match json_string_or_absent_at(data, "/message/content") {
            None => return None,
            Some(c) => Some(c),
        },
    };
    let chat = match read_optional_record(data, "/chat") {
        None => return None,
        Some(false) => None,
        Some(true) => {
            let cc = match json_string_or_absent_at(data, "/chat/conversation_id") {
                None => return None,
                Some(c) => c,
            };
            let last = match read_optional_record(data, "/chat/last_error") {
                None => return None,
                Some(false) => None,
                Some(true) => match json_string_or_absent_at(data, "/chat/last_error/msg") {
                    None => return None,
                    Some(m) => Some(m),
                },
            };
            Some((cc, last))
        },
    };
    Some(CozeEvent { event, msg, conversation_id, message, chat })
}

/// The first candidate that is not blank, trimmed.
pub open spec fn first_nonblank(c: Seq<Option<Seq<char>>>, fallback: Seq<char>) -> Seq<char>
    decreases c.len(),
{
    if c.len() == 0 {
        fallback
    } else if c[0] is Some && trim(c[0].unwrap()).len() > 0 {
        trim(c[0].unwrap())
    } else {
        first_nonblank(c.drop_first(), fallback)
    }
}

/// The answer text an event carries: the record's message content, else
/// the data's `content`, `message.content` or `delta.content`.
pub open spec fn coze_content(data: Seq<char>, ev: CozeEventView) -> Seq<char> {
    first_nonblank(
        seq![ev.message, text_at(data, "/content"@), text_at(data, "/message/content"@), text_at(data, "/delta/content"@)],
        Seq::empty(),
    )
}

/// The conversation id of an event's chat, if it has one.
pub open spec fn chat_conversation(ev: CozeEventView) -> Option<Seq<char>> {
    match ev.chat {
        Some((c, _)) => Some(c),
        None => None,
    }
}

/// The message of an event's chat's last error, if there is one.
pub open spec fn chat_error(ev: CozeEventView) -> Option<Seq<char>> {
    match ev.chat {
        Some((_, e)) => e,
        None => None,
    }
}

/// The conversation an event names: the record's, else its chat's, else
/// the data's `conversation_id`.
pub open spec fn coze_conversation(data: Seq<char>, ev: CozeEventView) -> Seq<char> {
    first_nonblank(
        seq![
            Some(ev.conversation_id),
            chat_conversation(ev),
            text_at(data, "/conversation_id"@),
        ],
        Seq::empty(),
    )
}

/// The failure an event reports: the chat's last error, else the record's
/// `msg`, else the data's `msg`, else a generic message.
pub open spec fn coze_error(data: Seq<char>, ev: CozeEventView) -> Seq<char> {
    first_nonblank(
        seq![
            chat_error(ev),
            Some(ev.msg),
            text_at(data, "/msg"@),
        ],
        "coze返回错误"@,
    )
}

fn pick_first_nonblank(c: Vec<Option<String>>, fallback: &str) -> (r: String)
    ensures
        r@ == first_nonblank(c@.map_values(|o: Option<String>| crate::text::opt_view(o)), fallback@),
{
    let ghost cv = c@.map_values(|o: Option<String>| crate::text::opt_view(o));
    let mut i: usize = 0;
    assert(cv.skip(0) =~= cv);
    while i < c.len()
        invariant
            i <= c.len(),
            cv == c@.map_values(|o: Option<String>| crate::text::opt_view(o)),
            first_nonblank(cv, fallback@) == first_nonblank(cv.skip(i as int), fallback@),
        decreases c.len() - i,
    {
        assert(cv.skip(i as int)[0] == cv[i as int]);
        assert(cv.skip(i as int).drop_first() =~= cv.skip(i + 1));
        match &c[i] {
            Some(t) => {
                let tt = trim_str(t.as_str());
                if !tt.as_str().is_empty() {
                    return tt;
                }
            },
            None => {},
        }
        i = i + 1;
    }
    assert(cv.skip(i as int) =~= Seq::empty());
    owned(fallback)
}

fn extract_coze_message_content(data: &str, ev: &CozeEvent) -> (r: String)
    ensures
        r@ == coze_content(data@, ev@),
{
    let c = vec![
        ev.message.clone(),
        json_text_at(data, "/content"),
        json_text_at(data, "/message/content"),
        json_text_at(data, "/delta/content"),
    ];
    proof {
        reveal_strlit("");
    }
    let r = pick_first_nonblank(c, "");
    assert(c@.map_values(|o: Option<String>| crate::text::opt_view(o)) =~= seq![
        ev@.message,
        text_at(data@, "/content"@),
        text_at(data@, "/message/content"@),
        text_at(data@, "/delta/content"@),
    ]);
    assert(""@ =~= Seq::<char>::empty());
    r
}

fn extract_coze_conversation_id(ev: &CozeEvent, data: &str) -> (r: String)
    ensures
        r@ == coze_conversation(data@, ev@),
{
    let from_chat = match &ev.chat {
        Some((c, _)) => Some(c.clone()),
        None => None,
    };
    assert(crate::text::opt_view(from_chat) == chat_conversation(ev@));
    let c = vec![Some(ev.conversation_id.clone()), from_chat, json_text_at(data, "/conversation_id")];
    proof {
        reveal_strlit("");
    }
    let r = pick_first_nonblank(c, "");
    let ghost want = seq![
        Some(ev@.conversation_id),
        chat_conversation(ev@),
        text_at(data@, "/conversation_id"@),
    ];
    assert(c@.map_values(|o: Option<String>| crate::text::opt_view(o)) =~= want);
    assert(""@ =~= Seq::<char>::empty());
    r
}

fn extract_coze_error(ev: &CozeEvent, data: &str) -> (r: String)
    ensures
        r@ == coze_error(data@, ev@),
{
    let from_chat = match &ev.chat {
        Some((_, e)) => e.clone(),
        None => None,
    };
    assert(crate::text::opt_view(from_chat) == chat_error(ev@));
    let c = vec![from_chat, Some(ev.msg.clone()), json_text_at(data, "/msg")];
    let r = pick_first_nonblank(c, "coze返回错误");
    assert(c@.map_values(|o: Option<String>| crate::text::opt_view(o)) =~= seq![
        chat_error(ev@),
        Some(ev@.msg),
        text_at(data@, "/msg"@),
    ]);
    r
}

/// What one event leads to given whether an answer piece was already
/// passed on: the steps, whether the stream ends, and the new flag.
pub open spec fn coze_event_steps(event_type: Seq<char>, raw: Seq<char>, seen: bool) -> (Seq<StepView>, bool, bool) {
    let et0 = trim(event_type);
    let data = normalized_coze_data(raw);
    if eq_ignore_ascii_case(et0, "done"@) {
        (Seq::empty(), true, seen)
    } else if data.len() == 0 || coze_done_marker(data) {
        (Seq::empty(), true, seen)
    } else {
        match coze_event(data) {
            None => (Seq::empty(), false, seen),
            Some(ev) => {
                let cid = coze_conversation(data, ev);
                let conv = if cid.len() > 0 { seq![StepView::Conversation(cid)] } else { Seq::empty() };
                let et = if et0.len() == 0 { trim(ev.event) } else { et0 };
                let content = coze_content(data, ev);
                if et == "conversation.message.delta"@ {
                    if content.len() > 0 { (conv.push(StepView::Answer(content)), false, true) } else { (conv, false, seen) }
                } else if et == "conversation.message.completed"@ {
                    if content.len() > 0 {
                        (if seen { conv } else { conv.push(StepView::Answer(content)) }, false, true)
                    } else {
                        (conv, false, seen)
                    }
                } else if et == "conversation.chat.completed"@ || et == "done"@ {
                    (conv, true, seen)
                } else if et == "conversation.chat.failed"@ || et == "error"@ {
                    (conv.push(StepView::Failure(coze_error(data, ev))), true, seen)
                } else if content.len() > 0 {
                    (conv.push(StepView::Answer(content)), false, true)
                } else {
                    (conv, false, seen)
                }
            },
        }
    }
}

/// The steps a sequence of events leads to, up to the one that ends it.
pub open spec fn coze_steps(events: Seq<(Seq<char>, Seq<char>)>, seen: bool) -> Seq<StepView>
    decreases events.len(),
{
    if events.len() == 0 {
        Seq::empty()
    } else {
        let (s, stop, seen2) = coze_event_steps(events[0].0, events[0].1, seen);
        if stop { s } else { s + coze_steps(events.drop_first(), seen2) }
    }
}

fn coze_event_step(event_type: &str, raw: &str, seen: bool) -> (r: (Vec<StreamStep>, bool, bool))
    ensures
        (steps_view(r.0@), r.1, r.2) == coze_event_steps(event_type@, raw@, seen),
{
    let mut out: Vec<StreamStep> = Vec::new();
    assert(steps_view(out@) =~= Seq::empty());
    let et0 = trim_str(event_type);
    if eq_ignore_case_ascii(et0.as_str(), "done") {
        return (out, true, seen);
    }
    let data = normalize_coze_stream_data(raw);
    if data.as_str().is_empty() || is_coze_done_marker(data.as_str()) {
        return (out, true, seen);
    }
    let ev = match decode_coze_event(data.as_str()) {
        None => return (out, false, seen),
        Some(ev) => ev,
    };
    let cid = extract_coze_conversation_id(&ev, data.as_str());
    if !cid.as_str().is_empty() {
        out.push(StreamStep::Conversation(cid));
    }
    let ghost conv = steps_view(out@);
    assert(conv =~= if cid@.len() > 0 { seq![StepView::Conversation(cid@)] } else { Seq::empty() });
    let et = if et0.as_str().is_empty() { trim_str(ev.event.as_str()) } else { et0 };
    let content = extract_coze_message_content(data.as_str(), &ev);
    let has_content = !content.as_str().is_empty();
    if eq_str(et.as_str(), "conversation.message.delta") {
        if has_content {
            out.push(StreamStep::Answer(content));
            assert(steps_view(out@) =~= conv.push(StepView::Answer(content@)));
            return (out, false, true);
        }
        return (out, false, seen);
    }
    if eq_str(et.as_str(), "conversation.message.completed") {
        if has_content {
            if !seen {
                out.push(StreamStep::Answer(content));
                assert(steps_view(out@) =~= conv.push(StepView::Answer(content@)));
            }
            return (out, false, true);
        }
        return (out, false, seen);
    }
    if eq_str(et.as_str(), "conversation.chat.completed") || eq_str(et.as_str(), "done") {
        return (out, true, seen);
    }
    if eq_str(et.as_str(), "conversation.chat.failed") || eq_str(et.as_str(), "error") {
        let e = extract_coze_error(&ev, data.as_str());
        out.push(StreamStep::Failure(e));
        assert(steps_view(out@) =~= conv.push(StepView::Failure(e@)));
        return (out, true, seen);
    }
    if has_content {
        out.push(StreamStep::Answer(content));
        assert(steps_view(out@) =~= conv.push(StepView::Answer(content@)));
        return (out, false, true);
    }
    (out, false, seen)
}

/// Reads a Coze reply stream (SSE text): the conversation ids it assigns,
/// the pieces of the answer (a completed message only when no piece came
/// before it), and a failure, up to the event that ends the chat.
pub fn coze_stream_steps(body: &str) -> (r: Vec<StreamStep>)
    ensures
        steps_view(r@) == coze_steps(sse_events(body@), false),
{
    let events = iter_sse_events(body);
    let ghost evs = event_views(events@);
    let mut out: Vec<StreamStep> = Vec::new();
    let mut seen = false;
    let mut i: usize = 0;
    assert(evs.skip(0) =~= evs);
    assert(steps_view(out@) + coze_steps(evs, false) =~= coze_steps(evs, false));
    while i < events.len()
        invariant
            i <= events.len(),
            evs == event_views(events@),
            evs == sse_events(body@),
            coze_steps(evs, false) == steps_view(out@) + coze_steps(evs.skip(i as int), seen),
        decreases events.len() - i,
    {
        let (mut s, stop, seen2) = coze_event_step(events[i].event_type.as_str(), events[i].data.as_str(), seen);
        assert(evs.skip(i as int)[0] == evs[i as int]);
        assert(evs.skip(i as int).drop_first() =~= evs.skip(i + 1));
        let ghost before = steps_view(out@);
        out.append(&mut s);
        assert(steps_view(out@) =~= before + coze_event_steps(evs[i as int].0, evs[i as int].1, seen).0);
        if stop {
            assert(coze_steps(evs, false) =~= steps_view(out@));
            return out;
        }
        seen = seen2;
        i = i + 1;
    }
    assert(evs.skip(i as int) =~= Seq::empty());
    assert(steps_view(out@) + Seq::<StepView>::empty() =~= steps_view(out@));
    out
}

/// A failure ends the stream: no step follows it.
pub proof fn law_coze_failure_is_last(events: Seq<(Seq<char>, Seq<char>)>, seen: bool)
    ensures
        forall|i: int| 0 <= i < coze_steps(events, seen).len() - 1 ==> !(coze_steps(events, seen)[i] is Failure),
    decreases events.len(),
{
    if events.len() > 0 {
        let (s, stop, seen2) = coze_event_steps(events[0].0, events[0].1, seen);
        law_coze_failure_is_last(events.drop_first(), seen2);
        let rest = coze_steps(events.drop_first(), seen2);
        if !stop {
            assert forall|i: int| 0 <= i < coze_steps(events, seen).len() - 1 implies !(coze_steps(events, seen)[i] is Failure) by {
                if i < s.len() {
                    assert(coze_steps(events, seen)[i] == s[i]);
                } else {
                    assert(coze_steps(events, seen)[i] == rest[i - s.len()]);
                }
            }
        }
    }
}

/// An event that passes on a piece of the answer leaves the stream marked
/// as having passed one on.
pub proof fn law_answer_marks_stream(event_type: Seq<char>, raw: Seq<char>, seen: bool, i: int)
    requires
        0 <= i < coze_event_steps(event_type, raw, seen).0.len(),
        coze_event_steps(event_type, raw, seen).0[i] is Answer,
    ensures
        coze_event_steps(event_type, raw, seen).2,
{
}

/// Once a piece of the answer has been passed on, the stream stays marked.
pub proof fn law_stream_stays_marked(event_type: Seq<char>, raw: Seq<char>)
    ensures
        coze_event_steps(event_type, raw, true).2,
{
}

/// A completed message that arrives after a piece of the answer was passed
/// on adds no answer text (its content repeats what was streamed).
pub proof fn law_completed_after_answer_adds_nothing(event_type: Seq<char>, raw: Seq<char>, i: int)
    requires
        trim(event_type) == "conversation.message.completed"@,
        0 <= i < coze_event_steps(event_type, raw, true).0.len(),
    ensures
        !(coze_event_steps(event_type, raw, true).0[i] is Answer),
{
    reveal_strlit("conversation.message.completed");
    reveal_strlit("conversation.message.delta");
    reveal_strlit("done");
    assert(!eq_ignore_ascii_case(trim(event_type), "done"@));
    assert("conversation.message.completed"@ != "conversation.message.delta"@) by {
        assert("conversation.message.completed"@[21] != "conversation.message.delta"@[21]);
    }
}

} // verus!
