//! The records the management console stores and queries: users, agents,
//! devices, provider configurations, roles, knowledge bases, chat history,
//! speaker groups, voice clones and API tokens; with the normalisation
//! rules applied before they are stored.
use vstd::prelude::*;
use crate::json_fields::{canonical_json, json_canonical, json_quote, json_quoted};
use crate::text::{
    concat, concat3, decimal, i64_to_string, join, join_strings, lowercase, owned, replace_char, replace_char_str,
    to_lowercase, trim, trim_str,
};

verus! {

broadcast use vstd::string::group_string_axioms;

/// A stored user account.
#[derive(Debug, Clone)]
pub struct UserRow {
    pub id: i64,
    pub username: String,
    pub password_hash: String,
    pub email: String,
    pub role: String,
}

/// A stored agent: its prompt and the providers it uses.
#[derive(Debug, Clone)]
pub struct AgentRow {
    pub id: i64,
    pub user_id: i64,
    pub name: String,
    pub system_prompt: String,
    pub llm_provider: String,
    pub llm_config: String,
    pub tts_provider: String,
    pub tts_config: String,
    pub asr_provider: String,
    pub asr_config: String,
    pub vad_provider: String,
    pub created_at: String,
    pub extra_json: String,
}

/// A registered device.
#[derive(Debug, Clone)]
pub struct DeviceRow {
    pub id: i64,
    pub user_id: Option<i64>,
    pub device_id: String,
    pub client_id: String,
    pub name: String,
    pub activated: bool,
    pub activation_code: String,
    pub agent_id: Option<i64>,
    pub role_name: String,
    pub online: bool,
    pub created_at: String,
    pub last_active_at: String,
}

/// The fields a device is created or updated from.
#[derive(Debug, Clone)]
pub struct DeviceInput {
    pub device_id: String,
    pub client_id: String,
    pub name: String,
    pub agent_id: Option<i64>,
    pub user_id: Option<i64>,
}

/// A stored provider configuration.
#[derive(Debug, Clone)]
pub struct ConfigRow {
    pub id: i64,
    /// The configuration's `type` (asr, tts, llm, ...).
    pub kind: String,
    pub name: String,
    pub config_id: String,
    pub provider: String,
    pub json_data: String,
    pub enabled: bool,
    pub is_default: bool,
    pub created_at: String,
    pub updated_at: String,
}

/// The fields a provider configuration is saved from.
#[derive(Debug, Clone)]
pub struct ConfigInput {
    /// The configuration's `type` (asr, tts, llm, ...).
    pub kind: String,
    pub name: String,
    pub config_id: String,
    pub provider: String,
    pub json_data: String,
    pub enabled: bool,
    pub is_default: bool,
}

/// A user as listed (without the password hash).
#[derive(Debug, Clone)]
pub struct UserListRow {
    pub id: i64,
    pub username: String,
    pub email: String,
    pub role: String,
    pub created_at: String,
}

/// A stored role (persona) an agent can take.
#[derive(Debug, Clone)]
pub struct RoleRow {
    pub id: i64,
    pub user_id: Option<i64>,
    pub name: String,
    pub description: String,
    pub prompt: String,
    pub llm_config_id: Option<String>,
    pub tts_config_id: Option<String>,
    pub voice: Option<String>,
    pub role_type: String,
    pub status: String,
    pub sort_order: i64,
    pub is_default: bool,
    pub created_at: String,
    pub updated_at: String,
}

/// The fields a role is saved from.
#[derive(Debug, Clone)]
pub struct RoleInput {
    pub user_id: Option<i64>,
    pub name: String,
    pub description: String,
    pub prompt: String,
    pub llm_config_id: Option<String>,
    pub tts_config_id: Option<String>,
    pub voice: Option<String>,
    pub role_type: String,
    pub status: String,
    pub sort_order: i64,
    pub is_default: bool,
}

/// The parts of a knowledge base a search needs.
#[derive(Debug, Clone)]
pub struct KnowledgeBaseDetail {
    pub id: i64,
    pub name: String,
    pub description: String,
    pub provider: String,
    pub status: String,
    pub config_json: String,
}

/// A stored knowledge base.
#[derive(Debug, Clone)]
pub struct KnowledgeBaseRow {
    pub id: i64,
    pub user_id: i64,
    pub name: String,
    pub description: String,
    pub provider: String,
    pub status: String,
    pub config_json: String,
    pub created_at: String,
    pub updated_at: String,
}

/// A knowledge base as listed, with its document count.
#[derive(Debug, Clone)]
pub struct KnowledgeBaseListItem {
    pub base: KnowledgeBaseRow,
    pub doc_count: i64,
}

/// One chat session, summarised.
#[derive(Debug, Clone)]
pub struct ChatSessionSummaryRow {
    pub session_id: String,
    pub device_id: String,
    pub agent_id: Option<i64>,
    pub user_id: Option<i64>,
    pub message_count: i64,
    pub user_message_count: i64,
    pub preview: String,
    pub last_preview: String,
    pub started_at: String,
    pub updated_at: String,
}

/// A user's filter over chat sessions.
#[derive(Debug, Clone)]
pub struct ChatSessionQuery {
    pub user_id: i64,
    pub agent_id: Option<i64>,
    pub device_id: Option<String>,
    pub start_date: Option<String>,
    pub end_date: Option<String>,
    pub page: Option<i64>,
    pub page_size: Option<i64>,
}

/// An administrator's filter over chat sessions.
#[derive(Debug, Clone)]
pub struct AdminChatSessionQuery {
    pub user_id: Option<i64>,
    pub agent_id: Option<i64>,
    pub device_id: Option<String>,
    pub start_date: Option<String>,
    pub end_date: Option<String>,
    pub page: Option<i64>,
    pub page_size: Option<i64>,
}

/// A user's filter over chat messages.
#[derive(Debug, Clone)]
pub struct ChatMessageQuery {
    pub user_id: i64,
    pub agent_id: Option<i64>,
    pub device_id: Option<String>,
    pub session_id: Option<String>,
    pub role: Option<String>,
    pub start_date: Option<String>,
    pub end_date: Option<String>,
    pub page: Option<i64>,
    pub page_size: Option<i64>,
}

/// An administrator's filter over chat messages.
#[derive(Debug, Clone)]
pub struct AdminChatMessageQuery {
    pub user_id: Option<i64>,
    pub agent_id: Option<i64>,
    pub device_id: Option<String>,
    pub session_id: Option<String>,
    pub role: Option<String>,
    pub start_date: Option<String>,
    pub end_date: Option<String>,
    pub page: Option<i64>,
    pub page_size: Option<i64>,
}

/// A chat message to store.
#[derive(Debug, Clone)]
pub struct ChatMessageInput {
    pub message_id: String,
    pub device_id: String,
    pub agent_id: Option<i64>,
    pub user_id: Option<i64>,
    pub session_id: String,
    pub role: String,
    pub content: String,
    pub tool_call_id: Option<String>,
    pub tool_calls_json: Option<String>,
    pub metadata: String,
}

/// A stored speaker group (voiceprint) of an agent.
#[derive(Debug, Clone)]
pub struct SpeakerGroupRow {
    pub id: i64,
    pub user_id: i64,
    pub agent_id: i64,
    pub name: String,
    pub prompt: String,
    pub description: String,
    pub tts_config_id: Option<String>,
    pub voice: Option<String>,
    pub status: String,
    pub sample_count: i64,
    pub created_at: String,
    pub updated_at: String,
}

/// The fields a speaker group is saved from.
#[derive(Debug, Clone)]
pub struct SpeakerGroupInput {
    pub agent_id: i64,
    pub name: String,
    pub prompt: String,
    pub description: String,
    pub tts_config_id: Option<String>,
    pub voice: Option<String>,
}

/// A queued or finished voice-cloning job.
#[derive(Debug, Clone)]
pub struct VoiceCloneTaskRow {
    pub id: i64,
    pub task_id: String,
    pub user_id: i64,
    pub voice_clone_id: i64,
    pub provider: String,
    pub status: String,
    pub attempts: i64,
    pub last_error: String,
    pub started_at: Option<String>,
    pub finished_at: Option<String>,
    pub meta_json: String,
    pub created_at: String,
    pub updated_at: String,
}

/// A stored cloned voice.
#[derive(Debug, Clone)]
pub struct VoiceCloneRow {
    pub id: i64,
    pub user_id: i64,
    pub tts_config_id: String,
    pub name: String,
    pub provider: String,
    pub status: String,
    pub voice_id: Option<String>,
    pub shared_to_all: bool,
    pub transcript: String,
    pub error_message: Option<String>,
    pub created_at: String,
    pub updated_at: String,
}

/// The fields a voice clone is requested with.
#[derive(Debug, Clone)]
pub struct VoiceCloneInput {
    pub tts_config_id: String,
    pub name: String,
    pub provider: String,
    pub transcript: String,
}

/// A user's voice-cloning allowance for one TTS configuration.
#[derive(Debug, Clone)]
pub struct VoiceCloneQuotaRow {
    pub id: i64,
    pub user_id: i64,
    pub tts_config_id: String,
    pub max_count: i64,
    pub used_count: i64,
    pub created_at: String,
    pub updated_at: String,
}

/// A reference recording of a voice clone.
#[derive(Debug, Clone)]
pub struct VoiceCloneAudioRow {
    pub id: i64,
    pub clone_id: i64,
    pub file_path: String,
    pub file_name: String,
    pub transcript_lang: String,
    pub created_at: String,
}

/// A stored knowledge-base document.
#[derive(Debug, Clone)]
pub struct KbDocumentRow {
    pub id: i64,
    pub knowledge_base_id: i64,
    pub title: String,
    pub content: String,
    pub source_type: String,
    pub status: String,
    pub external_doc_id: String,
    pub sync_error: String,
    pub created_at: String,
    pub updated_at: String,
}

/// An API token as listed (only its prefix).
#[derive(Debug, Clone)]
pub struct ApiTokenRow {
    pub id: i64,
    pub user_id: i64,
    pub name: String,
    pub token_prefix: String,
    pub expires_at: Option<String>,
    pub created_at: String,
}

/// The fields an agent is created or updated from.  `openclaw` is the
/// JSON text of the agent's OpenClaw routing settings.
#[derive(Debug, Clone)]
pub struct AgentInput {
    pub name: String,
    pub system_prompt: String,
    pub llm_provider: String,
    pub llm_config: String,
    pub tts_provider: String,
    pub tts_config: String,
    pub asr_provider: String,
    pub asr_config: String,
    pub vad_provider: String,
    pub nickname: String,
    pub user_id: Option<i64>,
    pub voice: Option<String>,
    pub asr_speed: String,
    pub memory_mode: String,
    pub speaker_chat_mode: String,
    pub mcp_service_names: String,
    pub openclaw: Option<String>,
    pub knowledge_base_ids: Vec<i64>,
}

/// The JSON of a list of numbers.
pub open spec fn ids_text(ids: Seq<i64>) -> Seq<char> {
    "["@ + join(ids.map_values(|i: i64| decimal(i as int)), ","@) + "]"@
}

fn ids_json(ids: &Vec<i64>) -> (r: String)
    ensures
        r@ == ids_text(ids@),
{
    let mut parts: Vec<String> = Vec::new();
    let mut i: usize = 0;
    while i < ids.len()
        invariant
            0 <= i <= ids.len(),
            parts@.map_values(|p: String| p@) == ids@.take(i as int).map_values(|i: i64| decimal(i as int)),
        decreases ids.len() - i,
    {
        let d = i64_to_string(ids[i]);
        let ghost prev = parts@;
        parts.push(d);
        proof {
            let want = ids@.take(i + 1).map_values(|i: i64| decimal(i as int));
            let have = parts@.map_values(|p: String| p@);
            assert(prev.map_values(|p: String| p@).len() == i);
            assert(want.len() == i + 1);
            assert forall|j: int| 0 <= j < have.len() implies have[j] == want[j] by {
                if j < i {
                    assert(have[j] == prev.map_values(|p: String| p@)[j]);
                    assert(ids@.take(i + 1)[j] == ids@.take(i as int)[j]);
                } else {
                    assert(ids@.take(i + 1)[j] == ids@[i as int]);
                }
            }
            assert(have =~= want);
        }
        i = i + 1;
    }
    proof {
        assert(ids@.take(ids.len() as int) =~= ids@);
    }
    let inner = join_strings(&parts, ",");
    concat3("[", inner.as_str(), "]")
}

/// The JSON an agent's extra settings are stored as.
pub open spec fn agent_extra_json(a: AgentInput) -> Seq<char> {
    "{\"asr_speed\":"@ + json_quoted(a.asr_speed@) + ",\"knowledge_base_ids\":"@ + ids_text(a.knowledge_base_ids@)
        + ",\"mcp_service_names\":"@ + json_quoted(a.mcp_service_names@) + ",\"memory_mode\":"@
        + json_quoted(a.memory_mode@) + ",\"nickname\":"@ + json_quoted(a.nickname@) + ",\"openclaw\":"@
        + match a.openclaw {
            Some(t) => match canonical_json(t@) {
                Some(c) => c,
                None => t@,
            },
            None => "{}"@,
        } + ",\"speaker_chat_mode\":"@ + json_quoted(a.speaker_chat_mode@) + ",\"voice\":"@ + match a.voice {
            Some(v) => json_quoted(v@),
            None => "null"@,
        } + "}"@
}

impl AgentInput {
    /// The name an agent is shown under: its nickname when one is given,
    /// else its name; trimmed.
    pub fn resolved_name(&self) -> (r: String)
        ensures
            r@ == if trim(self.nickname@).len() > 0 { trim(self.nickname@) } else { trim(self.name@) },
    {
        let nickname = trim_str(self.nickname.as_str());
        if !nickname.as_str().is_empty() {
            nickname
        } else {
            trim_str(self.name.as_str())
        }
    }
    /// The JSON an agent's extra settings are stored as (members in key
    /// order): its nickname, voice (or `null`), recognition speed, memory
    /// mode, speaker chat mode, MCP services, OpenClaw settings (`{}` when
    /// none; as `serde_json` writes them, or as given when not JSON) and
    /// knowledge bases.
    pub fn extra_json(&self) -> (r: String)
        ensures
            r@ == agent_extra_json(*self),
    {
        let openclaw = match &self.openclaw {
            Some(t) => match json_canonical(t.as_str()) {
                Some(c) => c,
                None => owned(t.as_str()),
            },
            None => owned("{}"),
        };
        let voice = match &self.voice {
            Some(v) => json_quote(v.as_str()),
            None => owned("null"),
        };
        let ids = ids_json(&self.knowledge_base_ids);
        let a = concat3("{\"asr_speed\":", json_quote(self.asr_speed.as_str()).as_str(), ",\"knowledge_base_ids\":");
        let b = concat3(a.as_str(), ids.as_str(), ",\"mcp_service_names\":");
        let c = concat3(b.as_str(), json_quote(self.mcp_service_names.as_str()).as_str(), ",\"memory_mode\":");
        let d = concat3(c.as_str(), json_quote(self.memory_mode.as_str()).as_str(), ",\"nickname\":");
        let e = concat3(d.as_str(), json_quote(self.nickname.as_str()).as_str(), ",\"openclaw\":");
        let f = concat3(e.as_str(), openclaw.as_str(), ",\"speaker_chat_mode\":");
        let g = concat3(f.as_str(), json_quote(self.speaker_chat_mode.as_str()).as_str(), ",\"voice\":");
        let r = concat3(g.as_str(), voice.as_str(), "}");
        proof {
            reveal_strlit("{}");
            reveal_strlit("null");
            reveal_strlit("{\"asr_speed\":");
            reveal_strlit(",\"knowledge_base_ids\":");
            reveal_strlit(",\"mcp_service_names\":");
            reveal_strlit(",\"memory_mode\":");
            reveal_strlit(",\"nickname\":");
            reveal_strlit(",\"openclaw\":");
            reveal_strlit(",\"speaker_chat_mode\":");
            reveal_strlit(",\"voice\":");
            reveal_strlit("}");
            assert(r@ =~= agent_extra_json(*self));
        }
        r
    }
}

impl DeviceInput {
    /// The device id as given.
    pub fn resolved_device_id(&self) -> (r: String)
        ensures
            r@ == self.device_id@,
    {
        self.device_id.clone()
    }

    /// The device name as given.
    pub fn resolved_name(&self) -> (r: String)
        ensures
            r@ == self.name@,
    {
        self.name.clone()
    }
}

/// A MAC address as stored: trimmed, lower-cased, `-` separators as `:`.
pub open spec fn normalized_mac(mac: Seq<char>) -> Seq<char> {
    replace_char(lowercase(trim(mac)), '-', ':')
}

/// Normalises a device MAC address.
pub fn normalize_device_mac(mac: &str) -> (r: String)
    ensures
        r@ == normalized_mac(mac@),
{
    let t = trim_str(mac);
    let l = to_lowercase(t.as_str());
    replace_char_str(l.as_str(), '-', ':')
}

/// An agent id of zero or less means "no agent" and is stored as `NULL`.
pub fn normalize_agent_id(agent_id: Option<i64>) -> (r: Option<i64>)
    ensures
        r == match agent_id {
            Some(id) => if id > 0 { Some(id) } else { None },
            None => None,
        },
{
    match agent_id {
        Some(id) => if id > 0 { Some(id) } else { None },
        None => None,
    }
}

/// The prompt that asks the user to bind a device with its code.
pub fn activation_bind_message(code: &str) -> (r: String)
    ensures
        r@ == "请在控制台输入验证码绑定设备，激活码: "@ + code@,
{
    concat("请在控制台输入验证码绑定设备，激活码: ", code)
}

/// The default ASR speed of an agent.
pub fn default_asr_speed() -> (r: String)
    ensures
        r@ == "normal"@,
{
    owned("normal")
}

/// The default memory mode of an agent.
pub fn default_memory_mode() -> (r: String)
    ensures
        r@ == "short"@,
{
    owned("short")
}

/// The default speaker-aware chat mode of an agent.
pub fn default_speaker_chat_mode() -> (r: String)
    ensures
        r@ == "off"@,
{
    owned("off")
}

/// The default type of a role.
pub fn default_role_type() -> (r: String)
    ensures
        r@ == "user"@,
{
    owned("user")
}

/// The default status of a role.
pub fn default_active_status() -> (r: String)
    ensures
        r@ == "active"@,
{
    owned("active")
}

/// The default language of a voice-clone transcript.
pub fn default_transcript_lang() -> (r: String)
    ensures
        r@ == "zh-CN"@,
{
    owned("zh-CN")
}

/// Configurations are enabled unless said otherwise.
pub fn default_true() -> (r: bool)
    ensures
        r,
{
    true
}

/// An empty JSON object, the default of JSON-valued fields.
pub fn empty_json() -> (r: String)
    ensures
        r@ == "{}"@,
{
    owned("{}")
}

} // verus!
