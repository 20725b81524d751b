//! Request bodies and query strings of the management console API, with
//! the defaults they take and the conversions the handlers apply to them.
use vstd::prelude::*;
use crate::manager::records::{
    normalize_agent_id, ChatMessageQuery, ChatSessionQuery, AdminChatMessageQuery,
    AdminChatSessionQuery, DeviceInput, DeviceRow, RoleRow,
};
use crate::text::{owned, trim, trim_str, eq_str};

verus! {

broadcast use vstd::string::group_string_axioms;


/// Binding a device to an agent, by id, name, code or MAC address.
#[derive(Debug, Clone)]
pub struct BindDeviceRequest {
    pub id: Option<i64>,
    pub device_name: String,
    pub code: String,
    pub device_mac: String,
    pub nick_name: String,
}

/// Creating an API token.
#[derive(Debug, Clone)]
pub struct CreateTokenRequest {
    pub name: String,
    pub expires_at: Option<String>,
}

/// Logging in, with the answer to a captcha challenge.
#[derive(Debug, Clone)]
pub struct LoginRequest {
    pub username: String,
    pub password: String,
    pub captcha_id: String,
    pub captcha_answer: String,
}

/// Registering an account, with the answer to a captcha challenge.
#[derive(Debug, Clone)]
pub struct RegisterRequest {
    pub username: String,
    pub password: String,
    pub email: String,
    pub captcha_id: String,
    pub captcha_answer: String,
}

/// Opening a simulated device connection.
#[derive(Debug, Clone)]
pub struct SimulatorWsQuery {
    pub device_id: String,
    pub protocol_version: u8,
    /// Overrides the WebSocket address of the OTA configuration.
    pub ws_url: Option<String>,
    /// A login token, for browsers that cannot send an `Authorization` header.
    pub token: Option<String>,
}

/// Reading a simulated device's signal log.
#[derive(Debug, Clone)]
pub struct SimulatorSignalsQuery {
    pub device_id: String,
    pub after_id: u64,
    pub clear: bool,
}

/// Claiming a device with its activation code.
#[derive(Debug, Clone)]
pub struct ClaimDeviceBody {
    pub code: String,
    pub agent_id: Option<i64>,
    pub nick_name: String,
}

/// Updating a device.
#[derive(Debug, Clone)]
pub struct DeviceUpdateBody {
    pub nick_name: String,
    pub device_name: String,
    pub client_id: String,
    pub agent_id: Option<i64>,
    pub user_id: Option<i64>,
}

/// Making a device speak.
#[derive(Debug, Clone)]
pub struct DeviceSpeakBody {
    pub text: String,
    pub message: String,
    pub target: String,
    pub auto_listen: bool,
}

/// Reading a device's signal log.
#[derive(Debug, Clone)]
pub struct DeviceSignalsQuery {
    pub after_id: u64,
    pub clear: bool,
}

/// Asking for the live status of devices.
#[derive(Debug, Clone)]
pub struct DeviceLiveStatusBody {
    pub device_ids: Vec<String>,
}

/// A user's chat-history query.
#[derive(Debug, Clone)]
pub struct HistoryQuery {
    pub page: i64,
    pub page_size: i64,
    pub agent_id: Option<i64>,
    pub device_id: Option<String>,
    pub session_id: Option<String>,
    pub role: Option<String>,
    pub start_date: Option<String>,
    pub end_date: Option<String>,
}

/// An administrator's chat-history query.
#[derive(Debug, Clone)]
pub struct AdminHistoryQuery {
    pub page: i64,
    pub page_size: i64,
    pub user_id: Option<i64>,
    pub agent_id: Option<i64>,
    pub device_id: Option<String>,
    pub session_id: Option<String>,
    pub role: Option<String>,
    pub start_date: Option<String>,
    pub end_date: Option<String>,
}

/// Attaching audio (base64) to a stored message.
#[derive(Debug, Clone)]
pub struct AudioUpdateBody {
    pub audio_data: String,
    pub audio_format: String,
}

/// Looking a device up for the device server.
#[derive(Debug, Clone)]
pub struct DeviceQuery {
    pub device_id: String,
    pub client_id: Option<String>,
}

/// A chat message reported by the device server.
#[derive(Debug, Clone)]
pub struct ChatHistoryBody {
    pub device_id: String,
    pub session_id: String,
    pub role: String,
    pub content: String,
}

/// A device going on- or offline.
#[derive(Debug, Clone)]
pub struct DevicePresenceBody {
    pub device_id: String,
    pub online: bool,
}

/// A device showing activity.
#[derive(Debug, Clone)]
pub struct DeviceTouchBody {
    pub device_id: String,
}

/// Switching the role a device plays.
#[derive(Debug, Clone)]
pub struct SwitchRoleBody {
    pub role_name: String,
}

/// Trying a knowledge-base search.
#[derive(Debug, Clone)]
pub struct TestSearchBody {
    pub query: String,
    pub top_k: i64,
}

/// A text document for a knowledge base.
#[derive(Debug, Clone)]
pub struct DocumentInput {
    pub title: String,
    pub content: String,
}

/// Chatting through OpenClaw.
#[derive(Debug, Clone)]
pub struct OpenClawChatQuery {
    pub stream: Option<String>,
}

/// How an MCP market is authenticated against.
#[derive(Debug, Clone)]
pub struct McpMarketAuthBody {
    /// The `type` of authentication.
    pub kind: String,
    pub token: String,
    pub header_name: String,
}

/// Saving an MCP market.
#[derive(Debug, Clone)]
pub struct McpMarketSaveBody {
    pub name: String,
    pub provider_id: String,
    pub catalog_url: String,
    pub detail_url_template: String,
    pub enabled: bool,
    pub auth: McpMarketAuthBody,
}

/// Searching the services of an MCP market.
#[derive(Debug, Clone)]
pub struct MarketServiceQuery {
    pub q: Option<String>,
    pub page: Option<i64>,
    pub page_size: Option<i64>,
}

/// Importing a service from an MCP market.
#[derive(Debug, Clone)]
pub struct ImportServiceBody {
    pub market_id: i64,
    pub service_id: String,
    pub name_override: String,
    /// The endpoint to import; needed when the service has several.
    pub endpoint_url: String,
}

/// Querying resource-pool statistics.
#[derive(Debug, Clone)]
pub struct StatsQuery {
    /// The `type` of statistics.
    pub kind: String,
    pub start: Option<String>,
    pub end: Option<String>,
}

/// Applying a role.
#[derive(Debug, Clone)]
pub struct ApplyRoleRequest {
    pub role_id: Option<i64>,
}

/// The first-run set-up: the administrator account.
#[derive(Debug, Clone)]
pub struct SetupRequest {
    pub admin_username: String,
    pub admin_password: String,
    pub admin_email: String,
}

/// Listing speaker groups.
#[derive(Debug, Clone)]
pub struct GroupQuery {
    pub agent_id: Option<i64>,
    pub page: Option<i64>,
    pub page_size: Option<i64>,
}

/// Creating a user (administrators only).
#[derive(Debug, Clone)]
pub struct CreateUserRequest {
    pub username: String,
    pub password: String,
    pub email: String,
    pub role: String,
}

/// Changing a user's e-mail and role.
#[derive(Debug, Clone)]
pub struct UpdateUserRequest {
    pub email: String,
    pub role: String,
}

/// Resetting a user's password.
#[derive(Debug, Clone)]
pub struct ResetPasswordRequest {
    pub new_password: String,
}

/// A voice-cloning allowance for one TTS configuration.
#[derive(Debug, Clone)]
pub struct VoiceCloneQuotaItem {
    pub tts_config_id: String,
    pub max_count: i64,
}

/// Setting a user's voice-cloning allowances.
#[derive(Debug, Clone)]
pub struct UpdateVoiceCloneQuotasRequest {
    pub items: Vec<VoiceCloneQuotaItem>,
}

/// Listing the voices a TTS provider offers.
#[derive(Debug, Clone)]
pub struct VoiceOptionsQuery {
    pub provider: String,
    pub config_id: Option<String>,
    pub api_url: Option<String>,
    pub api_key: Option<String>,
}

/// The parameters the voice listing is resolved with.
#[derive(Debug, Clone)]
pub struct VoiceOptionsParams {
    pub provider: String,
    pub config_id: Option<String>,
    pub api_url: Option<String>,
    pub api_key: Option<String>,
}

/// Renaming or sharing a cloned voice.
#[derive(Debug, Clone)]
pub struct UpdateCloneBody {
    pub name: Option<String>,
    pub shared_to_all: Option<bool>,
}
/// Where a spoken message goes by default.
pub fn default_speak_target() -> (r: String)
    ensures
        r@ == "hardware_first"@,
{
    owned("hardware_first")
}

/// The text a device is asked to speak: `text`, or `message` when `text`
/// is blank; trimmed.
pub fn resolved_speak_text(body: &DeviceSpeakBody) -> (r: String)
    ensures
        r@ == if trim(body.text@).len() > 0 { trim(body.text@) } else { trim(body.message@) },
{
    let t = trim_str(body.text.as_str());
    if !t.as_str().is_empty() {
        t
    } else {
        trim_str(body.message.as_str())
    }
}

/// The non-empty device ids of some devices, in order.
pub open spec fn device_ids_of(devices: Seq<DeviceRow>) -> Seq<Seq<char>>
    decreases devices.len(),
{
    if devices.len() == 0 {
        Seq::empty()
    } else {
        let rest = device_ids_of(devices.drop_last());
        let id = devices.last().device_id@;
        if id.len() > 0 { rest.push(id) } else { rest }
    }
}

/// Collects the device ids to ask the device server about.
pub fn collect_device_ids(devices: &[DeviceRow]) -> (r: Vec<String>)
    ensures
        r@.map_values(|s: String| s@) == device_ids_of(devices@),
{
    let mut out: Vec<String> = Vec::new();
    let mut i: usize = 0;
    while i < devices.len()
        invariant
            i <= devices.len(),
            out@.map_values(|s: String| s@) == device_ids_of(devices@.take(i as int)),
        decreases devices.len() - i,
    {
        assert(devices@.take(i + 1).drop_last() =~= devices@.take(i as int));
        let id = devices[i].device_id.clone();
        if !id.as_str().is_empty() {
            out.push(id);
        }
        assert(out@.map_values(|s: String| s@) =~= device_ids_of(devices@.take(i + 1)));
        i = i + 1;
    }
    assert(devices@.take(devices.len() as int) =~= devices@);
    out
}

/// `ids` with each repeat after the first left out.
pub open spec fn distinct_ids(ids: Seq<Seq<char>>) -> Seq<Seq<char>>
    decreases ids.len(),
{
    if ids.len() == 0 {
        Seq::empty()
    } else {
        let rest = distinct_ids(ids.drop_last());
        if rest.contains(ids.last()) { rest } else { rest.push(ids.last()) }
    }
}

/// The requested ids, trimmed, that are not blank and (for a user) are
/// among `allowed`, in the order asked.
pub open spec fn requested_ids(requested: Seq<Seq<char>>, allowed: Option<Seq<Seq<char>>>) -> Seq<Seq<char>>
    decreases requested.len(),
{
    if requested.len() == 0 {
        Seq::empty()
    } else {
        let rest = requested_ids(requested.drop_last(), allowed);
        let id = trim(requested.last());
        let keep = id.len() > 0 && match allowed {
            Some(a) => a.contains(id),
            None => true,
        };
        if keep { rest.push(id) } else { rest }
    }
}

/// The devices whose live status a request asks for.  For a user
/// (`own_devices` is `Some`, the user's devices) only those devices count:
/// with no ids requested, all of them (each id once; the order is that of
/// the devices), else the requested ones among them.  For an
/// administrator, with no ids requested, the ids of `all_devices`, else
/// the requested ones.
pub open spec fn live_status_ids(
    requested: Seq<Seq<char>>,
    own_devices: Option<Seq<DeviceRow>>,
    all_devices: Seq<DeviceRow>,
) -> Seq<Seq<char>> {
    match own_devices {
        Some(own) => if requested.len() == 0 {
            distinct_ids(device_ids_of(own))
        } else {
            requested_ids(requested, Some(device_ids_of(own)))
        },
        None => if requested.len() == 0 { device_ids_of(all_devices) } else { requested_ids(requested, None) },
    }
}

fn has_id(ids: &Vec<String>, id: &str) -> (r: bool)
    ensures
        r == ids@.map_values(|s: String| s@).contains(id@),
{
    let mut i: usize = 0;
    while i < ids.len()
        invariant
            i <= ids.len(),
            forall|j: int| 0 <= j < i ==> ids@[j]@ != id@,
        decreases ids.len() - i,
    {
        if eq_str(ids[i].as_str(), id) {
            assert(ids@.map_values(|s: String| s@)[i as int] == id@);
            return true;
        }
        i = i + 1;
    }
    proof {
        let m = ids@.map_values(|s: String| s@);
        if m.contains(id@) {
            let j = choose|j: int| 0 <= j < m.len() && m[j] == id@;
            assert(ids@[j]@ == id@);
        }
    }
    false
}

/// Picks the device ids a live-status request is answered for (see
/// `live_status_ids`).
pub fn live_status_device_ids(
    requested: &Vec<String>,
    own_devices: Option<&[DeviceRow]>,
    all_devices: &[DeviceRow],
) -> (r: Vec<String>)
    ensures
        r@.map_values(|s: String| s@) == live_status_ids(
            requested@.map_values(|s: String| s@),
            match own_devices { Some(d) => Some(d@), None => None },
            all_devices@,
        ),
{
    let ghost req = requested@.map_values(|s: String| s@);
    let allowed: Option<Vec<String>> = match own_devices {
        Some(d) => Some(collect_device_ids(d)),
        None => None,
    };
    let ghost allowed_view: Option<Seq<Seq<char>>> = match &allowed {
        Some(a) => Some(a@.map_values(|s: String| s@)),
        None => None,
    };
    if requested.len() == 0 {
        match allowed {
            Some(a) => {
                let mut out: Vec<String> = Vec::new();
                let mut i: usize = 0;
                while i < a.len()
                    invariant
                        i <= a@.len(),
                        out@.map_values(|s: String| s@) == distinct_ids(a@.map_values(|s: String| s@).take(i as int)),
                    decreases a.len() - i,
                {
                    let ghost av = a@.map_values(|s: String| s@);
                    assert(av.take(i + 1).drop_last() =~= av.take(i as int));
                    let ghost before = out@.map_values(|s: String| s@);
                    if !has_id(&out, a[i].as_str()) {
                        out.push(a[i].clone());
                        assert(out@.map_values(|s: String| s@) =~= before.push(av[i as int]));
                    }
                    i = i + 1;
                }
                assert(a@.map_values(|s: String| s@).take(a@.len() as int) =~= a@.map_values(|s: String| s@));
                return out;
            },
            None => return collect_device_ids(all_devices),
        }
    }
    let mut out: Vec<String> = Vec::new();
    let mut i: usize = 0;
    while i < requested.len()
        invariant
            i <= requested@.len(),
            req == requested@.map_values(|s: String| s@),
            allowed_view == match &allowed { Some(a) => Some(a@.map_values(|s: String| s@)), None => None },
            out@.map_values(|s: String| s@) == requested_ids(req.take(i as int), allowed_view),
        decreases requested.len() - i,
    {
        assert(req.take(i + 1).drop_last() =~= req.take(i as int));
        assert(req.take(i + 1).last() == requested@[i as int]@);
        let id = trim_str(requested[i].as_str());
        let keep = !id.as_str().is_empty() && match &allowed {
            Some(a) => has_id(a, id.as_str()),
            None => true,
        };
        let ghost before = out@.map_values(|s: String| s@);
        if keep {
            out.push(id);
            assert(out@.map_values(|s: String| s@) =~= before.push(trim(requested@[i as int]@)));
        }
        i = i + 1;
    }
    assert(req.take(req.len() as int) =~= req);
    out
}

/// The device fields an update body sets: the device name as id, the
/// client id, the nickname as name, the agent (none for ids of zero or
/// less) and the owner.
pub fn device_body_to_input(body: &DeviceUpdateBody) -> (r: DeviceInput)
    ensures
        r.device_id@ == body.device_name@,
        r.client_id@ == body.client_id@,
        r.name@ == body.nick_name@,
        r.agent_id == match body.agent_id {
            Some(id) => if id > 0 { Some(id) } else { None },
            None => None,
        },
        r.user_id == body.user_id,
{
    DeviceInput {
        device_id: if body.device_name.as_str().is_empty() { String::new() } else { body.device_name.clone() },
        client_id: body.client_id.clone(),
        name: body.nick_name.clone(),
        agent_id: normalize_agent_id(body.agent_id),
        user_id: body.user_id,
    }
}

/// The first page.
pub fn default_page() -> (r: i64)
    ensures
        r == 1,
{
    1
}

/// The default page size of history listings.
pub fn default_page_size() -> (r: i64)
    ensures
        r == 20,
{
    20
}

/// A user's message filter from a history query.
pub fn query_from_history(q: &HistoryQuery, user_id: i64) -> (r: ChatMessageQuery)
    ensures
        r.user_id == user_id,
        r.agent_id == q.agent_id,
        r.device_id == q.device_id,
        r.session_id == q.session_id,
        r.role == q.role,
        r.start_date == q.start_date,
        r.end_date == q.end_date,
        r.page == Some(q.page),
        r.page_size == Some(q.page_size),
{
    ChatMessageQuery {
        user_id,
        agent_id: q.agent_id,
        device_id: q.device_id.clone(),
        session_id: q.session_id.clone(),
        role: q.role.clone(),
        start_date: q.start_date.clone(),
        end_date: q.end_date.clone(),
        page: Some(q.page),
        page_size: Some(q.page_size),
    }
}

/// A user's session filter from a history query.
pub fn session_query_from_history(q: &HistoryQuery, user_id: i64) -> (r: ChatSessionQuery)
    ensures
        r.user_id == user_id,
        r.agent_id == q.agent_id,
        r.device_id == q.device_id,
        r.start_date == q.start_date,
        r.end_date == q.end_date,
        r.page == Some(q.page),
        r.page_size == Some(q.page_size),
{
    ChatSessionQuery {
        user_id,
        agent_id: q.agent_id,
        device_id: q.device_id.clone(),
        start_date: q.start_date.clone(),
        end_date: q.end_date.clone(),
        page: Some(q.page),
        page_size: Some(q.page_size),
    }
}

/// An administrator's message filter from a history query; a session id,
/// when given, replaces the query's.
pub fn admin_message_query(q: &AdminHistoryQuery, session_id: Option<String>) -> (r: AdminChatMessageQuery)
    ensures
        r.user_id == q.user_id,
        r.agent_id == q.agent_id,
        r.device_id == q.device_id,
        r.session_id == match session_id {
            Some(s) => Some(s),
            None => q.session_id,
        },
        r.role == q.role,
        r.start_date == q.start_date,
        r.end_date == q.end_date,
        r.page == Some(q.page),
        r.page_size == Some(q.page_size),
{
    AdminChatMessageQuery {
        user_id: q.user_id,
        agent_id: q.agent_id,
        device_id: q.device_id.clone(),
        session_id: match session_id {
            Some(s) => Some(s),
            None => q.session_id.clone(),
        },
        role: q.role.clone(),
        start_date: q.start_date.clone(),
        end_date: q.end_date.clone(),
        page: Some(q.page),
        page_size: Some(q.page_size),
    }
}

/// An administrator's session filter from a history query.
pub fn admin_session_query(q: &AdminHistoryQuery) -> (r: AdminChatSessionQuery)
    ensures
        r.user_id == q.user_id,
        r.agent_id == q.agent_id,
        r.device_id == q.device_id,
        r.start_date == q.start_date,
        r.end_date == q.end_date,
        r.page == Some(q.page),
        r.page_size == Some(q.page_size),
{
    AdminChatSessionQuery {
        user_id: q.user_id,
        agent_id: q.agent_id,
        device_id: q.device_id.clone(),
        start_date: q.start_date.clone(),
        end_date: q.end_date.clone(),
        page: Some(q.page),
        page_size: Some(q.page_size),
    }
}

/// The default audio format of message audio.
pub fn default_wav() -> (r: String)
    ensures
        r@ == "wav"@,
{
    owned("wav")
}

/// The default number of hits of a knowledge search by the device server.
pub fn search_default_top_k() -> (r: i64)
    ensures
        r == 3,
{
    3
}

/// The default number of hits of a trial knowledge search.
pub fn default_top_k() -> (r: i64)
    ensures
        r == 3,
{
    3
}

/// The default period of pool statistics.
pub fn default_latest() -> (r: String)
    ensures
        r@ == "latest"@,
{
    owned("latest")
}

/// The default role of a created user.
pub fn default_user_role() -> (r: String)
    ensures
        r@ == "user"@,
{
    owned("user")
}

/// The default protocol version of a simulated device.
pub fn default_protocol_version() -> (r: u8)
    ensures
        r == 1,
{
    1
}

/// A role's status as stored: `inactive` stays, anything else is `active`.
pub fn normalize_status(status: &str) -> (r: String)
    ensures
        r@ == if status@ == "inactive"@ { "inactive"@ } else { "active"@ },
{
    if eq_str(status, "inactive") {
        owned("inactive")
    } else {
        owned("active")
    }
}

/// Administrators see every role; others global roles and their own.
pub open spec fn role_visible(role: RoleRow, user_id: i64, is_admin: bool) -> bool {
    is_admin || role.role_type@ == "global"@ || role.user_id == Some(user_id)
}

/// Global roles are changed by administrators only; other roles by
/// administrators and their owner.
pub open spec fn role_modifiable(role: RoleRow, user_id: i64, is_admin: bool) -> bool {
    if role.role_type@ == "global"@ { is_admin } else { is_admin || role.user_id == Some(user_id) }
}

/// Whether a user may see a role.
pub fn can_access_role(role: &RoleRow, user_id: i64, is_admin: bool) -> (r: bool)
    ensures
        r == role_visible(*role, user_id, is_admin),
{
    if is_admin {
        return true;
    }
    eq_str(role.role_type.as_str(), "global") || role.user_id == Some(user_id)
}

/// Whether a user may change or delete a role.
pub fn can_modify_role(role: &RoleRow, user_id: i64, is_admin: bool) -> (r: bool)
    ensures
        r == role_modifiable(*role, user_id, is_admin),
{
    if eq_str(role.role_type.as_str(), "global") {
        return is_admin;
    }
    is_admin || role.user_id == Some(user_id)
}

/// The parameters of a voice listing, as queried.
pub fn to_voice_params(q: &VoiceOptionsQuery) -> (r: VoiceOptionsParams)
    ensures
        r.provider == q.provider,
        r.config_id == q.config_id,
        r.api_url == q.api_url,
        r.api_key == q.api_key,
{
    VoiceOptionsParams {
        provider: q.provider.clone(),
        config_id: q.config_id.clone(),
        api_url: q.api_url.clone(),
        api_key: q.api_key.clone(),
    }
}

/// The UTF-8 length of a text.
pub open spec fn byte_len(s: Seq<char>) -> nat {
    vstd::utf8::encode_utf8(s).len()
}

/// Why new credentials are refused: a user name of fewer than 3 bytes, or
/// a password of fewer than 6.
pub open spec fn credentials_verdict(username: Seq<char>, password: Seq<char>) -> Result<(), Seq<char>> {
    if byte_len(username) < 3 {
        Err("用户名至少 3 个字符"@)
    } else if byte_len(password) < 6 {
        Err("密码至少 6 个字符"@)
    } else {
        Ok(())
    }
}

/// Checks the user name and password of a new account.  (A string's byte
/// length always fits a `usize`.)
pub fn check_new_credentials(username: &str, password: &str) -> (r: Result<(), String>)
    requires
        byte_len(username@) <= usize::MAX,
        byte_len(password@) <= usize::MAX,
    ensures
        match r {
            Ok(()) => credentials_verdict(username@, password@) == Ok::<(), Seq<char>>(()),
            Err(m) => credentials_verdict(username@, password@) == Err::<(), Seq<char>>(m@),
        },
{
    if username.len() < 3 {
        return Err(owned("用户名至少 3 个字符"));
    }
    check_new_password(password)
}

/// Checks a new password: at least 6 bytes.
pub fn check_new_password(password: &str) -> (r: Result<(), String>)
    requires
        byte_len(password@) <= usize::MAX,
    ensures
        match r {
            Ok(()) => byte_len(password@) >= 6,
            Err(m) => byte_len(password@) < 6 && m@ == "密码至少 6 个字符"@,
        },
{
    if password.len() < 6 {
        return Err(owned("密码至少 6 个字符"));
    }
    Ok(())
}

} // verus!
