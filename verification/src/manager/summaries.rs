//! How agents and devices are presented by the console: the fields each
//! listing shows and the defaults it falls back on.
use vstd::prelude::*;
use crate::json_fields::{json_text_at, json_value_at, text_at, value_text_at};
use crate::manager::records::{AgentRow, ConfigRow, DeviceRow};
use crate::text::{concat, decimal, i64_to_string, opt_view, owned};

verus! {

broadcast use vstd::string::group_string_axioms;

/// A device as listed.
#[derive(Debug, Clone)]
pub struct DeviceSummary {
    pub id: i64,
    pub user_id: Option<i64>,
    /// Whether the device still waits for an owner.
    pub bind_pending: bool,
    /// The agent the device talks to (0 when none).
    pub agent_id: i64,
    pub agent_name: Option<String>,
    pub nick_name: String,
    pub device_code: String,
    pub device_name: String,
    pub activated: bool,
    pub online: bool,
    pub last_active_at: String,
    pub created_at: String,
    pub updated_at: String,
}

/// When a device was last active as listed: its record, else its creation
/// when it is online now, else nothing.
pub open spec fn last_active_shown(d: DeviceRow) -> Seq<char> {
    if d.last_active_at@.len() == 0 {
        if d.online { d.created_at@ } else { Seq::empty() }
    } else {
        d.last_active_at@
    }
}

/// Presents a device; `agent_name` is the name of its agent, when it has
/// one that exists.
pub fn device_summary(d: &DeviceRow, agent_name: Option<String>) -> (r: DeviceSummary)
    ensures
        r.id == d.id,
        r.user_id == d.user_id,
        r.bind_pending == (d.user_id is None),
        r.agent_id == match d.agent_id { Some(a) => a, None => 0 },
        opt_view(r.agent_name) == opt_view(agent_name),
        r.nick_name@ == d.name@,
        r.device_code@ == d.activation_code@,
        r.device_name@ == d.device_id@,
        r.activated == d.activated,
        r.online == d.online,
        r.last_active_at@ == last_active_shown(*d),
        r.created_at@ == d.created_at@,
        r.updated_at@ == d.created_at@,
{
    let last = if d.last_active_at.as_str().is_empty() {
        if d.online {
            owned(d.created_at.as_str())
        } else {
            String::new()
        }
    } else {
        owned(d.last_active_at.as_str())
    };
    DeviceSummary {
        id: d.id,
        user_id: d.user_id,
        bind_pending: d.user_id.is_none(),
        agent_id: match d.agent_id {
            Some(a) => a,
            None => 0,
        },
        agent_name,
        nick_name: owned(d.name.as_str()),
        device_code: owned(d.activation_code.as_str()),
        device_name: owned(d.device_id.as_str()),
        activated: d.activated,
        online: d.online,
        last_active_at: last,
        created_at: owned(d.created_at.as_str()),
        updated_at: owned(d.created_at.as_str()),
    }
}

/// A configuration an agent uses, as listed with the agent.
#[derive(Debug, Clone)]
pub struct ConfigBrief {
    /// The row id, when the configuration exists.
    pub id: Option<i64>,
    pub name: String,
    pub config_id: String,
    pub provider: String,
}

/// Presents the configuration an agent names: nothing when it names none;
/// the stored row when it exists (`found`); else the id standing for name
/// and provider too.
pub fn config_brief(config_id: &str, found: Option<&ConfigRow>) -> (r: Option<ConfigBrief>)
    ensures
        config_id@.len() == 0 ==> r is None,
        config_id@.len() > 0 ==> (r matches Some(b) && match found {
            Some(row) => b.id == Some(row.id) && b.name@ == row.name@ && b.config_id@ == row.config_id@
                && b.provider@ == row.provider@,
            None => b.id is None && b.name@ == config_id@ && b.config_id@ == config_id@
                && b.provider@ == config_id@,
        }),
{
    if config_id.is_empty() {
        return None;
    }
    match found {
        Some(row) => Some(ConfigBrief {
            id: Some(row.id),
            name: owned(row.name.as_str()),
            config_id: owned(row.config_id.as_str()),
            provider: owned(row.provider.as_str()),
        }),
        None => Some(ConfigBrief {
            id: None,
            name: owned(config_id),
            config_id: owned(config_id),
            provider: owned(config_id),
        }),
    }
}

/// An agent as listed.  The settings kept in the agent's extra JSON are
/// shown with their defaults; `voice`, `openclaw` and
/// `knowledge_base_ids` are JSON texts.
#[derive(Debug, Clone)]
pub struct AgentSummary {
    pub id: i64,
    pub user_id: i64,
    pub username: String,
    pub name: String,
    pub nickname: String,
    pub custom_prompt: String,
    pub llm_config_id: Option<String>,
    pub tts_config_id: Option<String>,
    pub llm_config: Option<ConfigBrief>,
    pub tts_config: Option<ConfigBrief>,
    pub voice: String,
    pub asr_speed: String,
    pub memory_mode: String,
    pub speaker_chat_mode: String,
    pub mcp_service_names: String,
    pub openclaw: String,
    pub created_at: String,
    pub updated_at: String,
    pub device_count: i64,
    pub knowledge_base_ids: String,
}

/// A string setting of an agent's extra JSON, or its default.
pub open spec fn extra_text_or(extra: Seq<char>, key: Seq<char>, default: Seq<char>) -> Seq<char> {
    match text_at(extra, key) {
        Some(s) => s,
        None => default,
    }
}

/// A JSON setting of an agent's extra JSON, or its default.
pub open spec fn extra_value_or(extra: Seq<char>, key: Seq<char>, default: Seq<char>) -> Seq<char> {
    match value_text_at(extra, key) {
        Some(s) => s,
        None => default,
    }
}

fn text_or(extra: &str, key: &str, default: &str) -> (r: String)
    ensures
        r@ == extra_text_or(extra@, key@, default@),
{
    match json_text_at(extra, key) {
        Some(s) => s,
        None => owned(default),
    }
}

fn value_or(extra: &str, key: &str, default: &str) -> (r: String)
    ensures
        r@ == extra_value_or(extra@, key@, default@),
{
    match json_value_at(extra, key) {
        Some(s) => s,
        None => owned(default),
    }
}

/// A configuration id as listed: none when empty.
pub open spec fn id_shown(id: Seq<char>) -> Option<Seq<char>> {
    if id.len() == 0 { None } else { Some(id) }
}

fn shown_id(id: &str) -> (r: Option<String>)
    ensures
        opt_view(r) == id_shown(id@),
{
    if id.is_empty() {
        None
    } else {
        Some(owned(id))
    }
}

/// Presents an agent.  `username` is its owner's name (empty when the
/// owner is gone), `device_count` the number of its devices, `llm_config`
/// and `tts_config` the configurations it names (see `config_brief`).
pub fn agent_summary(
    a: &AgentRow,
    username: String,
    device_count: i64,
    llm_config: Option<ConfigBrief>,
    tts_config: Option<ConfigBrief>,
) -> (r: AgentSummary)
    ensures
        r.id == a.id,
        r.user_id == a.user_id,
        r.username@ == username@,
        r.name@ == a.name@,
        r.nickname@ == extra_text_or(a.extra_json@, "/nickname"@, a.name@),
        r.custom_prompt@ == a.system_prompt@,
        opt_view(r.llm_config_id) == id_shown(a.llm_provider@),
        opt_view(r.tts_config_id) == id_shown(a.tts_provider@),
        r.llm_config == llm_config,
        r.tts_config == tts_config,
        r.voice@ == extra_value_or(a.extra_json@, "/voice"@, "null"@),
        r.asr_speed@ == extra_text_or(a.extra_json@, "/asr_speed"@, "normal"@),
        r.memory_mode@ == extra_text_or(a.extra_json@, "/memory_mode"@, "short"@),
        r.speaker_chat_mode@ == extra_text_or(a.extra_json@, "/speaker_chat_mode"@, "off"@),
        r.mcp_service_names@ == extra_text_or(a.extra_json@, "/mcp_service_names"@, ""@),
        r.openclaw@ == extra_value_or(a.extra_json@, "/openclaw"@, "{}"@),
        r.created_at@ == a.created_at@,
        r.updated_at@ == a.created_at@,
        r.device_count == device_count,
        r.knowledge_base_ids@ == extra_value_or(a.extra_json@, "/knowledge_base_ids"@, "[]"@),
{
    let extra = a.extra_json.as_str();
    AgentSummary {
        id: a.id,
        user_id: a.user_id,
        username,
        name: owned(a.name.as_str()),
        nickname: text_or(extra, "/nickname", a.name.as_str()),
        custom_prompt: owned(a.system_prompt.as_str()),
        llm_config_id: shown_id(a.llm_provider.as_str()),
        tts_config_id: shown_id(a.tts_provider.as_str()),
        llm_config,
        tts_config,
        voice: value_or(extra, "/voice", "null"),
        asr_speed: text_or(extra, "/asr_speed", "normal"),
        memory_mode: text_or(extra, "/memory_mode", "short"),
        speaker_chat_mode: text_or(extra, "/speaker_chat_mode", "off"),
        mcp_service_names: text_or(extra, "/mcp_service_names", ""),
        openclaw: value_or(extra, "/openclaw", "{}"),
        created_at: owned(a.created_at.as_str()),
        updated_at: owned(a.created_at.as_str()),
        device_count,
        knowledge_base_ids: value_or(extra, "/knowledge_base_ids", "[]"),
    }
}

/// The agent name shown with a chat message: the agent's name, or
/// `智能体 #<id>` when the agent is gone.
pub fn agent_label(agent_id: i64, found: Option<String>) -> (r: String)
    ensures
        r@ == match found {
            Some(n) => n@,
            None => "智能体 #"@ + decimal(agent_id as int),
        },
{
    match found {
        Some(n) => n,
        None => {
            let d = i64_to_string(agent_id);
            concat("智能体 #", d.as_str())
        },
    }
}

} // verus!
