//! Binding a device to a user's agent: which device a request names, which
//! codes are well formed, whether the user may take the device, and the
//! name it is shown under.
use vstd::prelude::*;
use crate::manager::records::{normalize_agent_id, DeviceInput, DeviceRow};
use crate::manager::requests::BindDeviceRequest;
use crate::text::{chars_of, owned, trim, trim_str};

verus! {

broadcast use vstd::string::group_string_axioms;

/// How a bind request names its device.
#[derive(Debug, Clone)]
pub enum BindPlan {
    /// By activation code or MAC address (either may be empty, not both).
    ByIdentifier { code: String, device_mac: String, nick_name: String },
    /// By the device's row id.
    ById(i64),
    /// By the device name given.
    ByName(String),
    /// The request names no device.
    Missing(String),
}

/// The plain content of a bind plan.
pub enum BindPlanView {
    ByIdentifier(Seq<char>, Seq<char>, Seq<char>),
    ById(i64),
    ByName(Seq<char>),
    Missing(Seq<char>),
}

impl View for BindPlan {
    type V = BindPlanView;

    open spec fn view(&self) -> BindPlanView {
        match self {
            BindPlan::ByIdentifier { code, device_mac, nick_name } => BindPlanView::ByIdentifier(code@, device_mac@, nick_name@),
            BindPlan::ById(id) => BindPlanView::ById(*id),
            BindPlan::ByName(n) => BindPlanView::ByName(n@),
            BindPlan::Missing(m) => BindPlanView::Missing(m@),
        }
    }
}

/// What a request names: a code or MAC (the MAC, else the device name;
/// all trimmed) first, then the row id, then the device name.
pub open spec fn bind_plan(b: BindDeviceRequest) -> BindPlanView {
    let code = trim(b.code@);
    let mac = if trim(b.device_mac@).len() == 0 { trim(b.device_name@) } else { trim(b.device_mac@) };
    if code.len() > 0 || mac.len() > 0 {
        BindPlanView::ByIdentifier(code, mac, trim(b.nick_name@))
    } else if b.id is Some {
        BindPlanView::ById(b.id.unwrap())
    } else if b.device_name@.len() > 0 {
        BindPlanView::ByName(b.device_name@)
    } else {
        BindPlanView::Missing("请填写设备验证码或设备 MAC"@)
    }
}

/// Reads which device a bind request names.
pub fn bind_device_plan(body: &BindDeviceRequest) -> (r: BindPlan)
    ensures
        r@ == bind_plan(*body),
{
    let code = trim_str(body.code.as_str());
    let mac_given = trim_str(body.device_mac.as_str());
    let mac = if mac_given.as_str().is_empty() { trim_str(body.device_name.as_str()) } else { mac_given };
    if !code.as_str().is_empty() || !mac.as_str().is_empty() {
        return BindPlan::ByIdentifier { code, device_mac: mac, nick_name: trim_str(body.nick_name.as_str()) };
    }
    match body.id {
        Some(id) => BindPlan::ById(id),
        None => {
            if !body.device_name.as_str().is_empty() {
                BindPlan::ByName(body.device_name.clone())
            } else {
                BindPlan::Missing(owned("请填写设备验证码或设备 MAC"))
            }
        },
    }
}

/// An activation code is six ASCII digits.
pub open spec fn well_formed_code(code: Seq<char>) -> bool {
    code.len() == 6 && forall|i: int| 0 <= i < 6 ==> '0' <= #[trigger] code[i] <= '9'
}

/// Checks the identifiers of a bind request: one of them must be given,
/// and a code must be six digits.
pub fn check_bind_identifiers(code: &str, device_mac: &str) -> (r: Result<(), String>)
    ensures
        match r {
            Ok(()) => (trim(code@).len() > 0 || trim(device_mac@).len() > 0)
                && (trim(code@).len() > 0 ==> well_formed_code(trim(code@))),
            Err(m) => if trim(code@).len() == 0 && trim(device_mac@).len() == 0 {
                m@ == "请填写设备验证码或设备 MAC"@
            } else {
                trim(code@).len() > 0 && !well_formed_code(trim(code@)) && m@ == "验证码格式错误"@
            },
        },
{
    let c = trim_str(code);
    let m = trim_str(device_mac);
    if c.as_str().is_empty() && m.as_str().is_empty() {
        return Err(owned("请填写设备验证码或设备 MAC"));
    }
    if c.as_str().is_empty() {
        return Ok(());
    }
    let v = chars_of(c.as_str());
    if v.len() != 6 {
        return Err(owned("验证码格式错误"));
    }
    let mut i: usize = 0;
    while i < 6
        invariant
            i <= 6,
            v@ == c@,
            c@ == trim(code@),
            c@.len() > 0,
            v@.len() == 6,
            forall|j: int| 0 <= j < i ==> '0' <= #[trigger] v@[j] <= '9',
        decreases 6 - i,
    {
        if !('0' <= v[i] && v[i] <= '9') {
            return Err(owned("验证码格式错误"));
        }
        i = i + 1;
    }
    Ok(())
}

/// What binding does with a device given who holds it.
#[derive(Debug, Clone, Copy, PartialEq, Eq, Structural)]
pub enum Claim {
    /// Nobody holds it: it is given to the user.
    Assign,
    /// The user holds it already: it moves to the agent.
    Rebind,
    /// Another user holds it: refused.
    Foreign,
}

/// Decides what binding does with a device held by `holder`.
pub fn claim_for(holder: Option<i64>, user_id: i64) -> (r: Claim)
    ensures
        r == match holder {
            None => Claim::Assign,
            Some(u) => if u == user_id { Claim::Rebind } else { Claim::Foreign },
        },
{
    match holder {
        None => Claim::Assign,
        Some(u) => if u == user_id { Claim::Rebind } else { Claim::Foreign },
    }
}

/// The refusal for a device another user holds, by how it was named.
pub fn foreign_device_error(by_code: bool) -> (r: String)
    ensures
        r@ == if by_code { "验证码无效或设备已被其他用户绑定"@ } else { "设备 MAC 无效或设备已被其他用户绑定"@ },
{
    if by_code {
        owned("验证码无效或设备已被其他用户绑定")
    } else {
        owned("设备 MAC 无效或设备已被其他用户绑定")
    }
}

/// The name a bound device is shown under: the nickname given, else its
/// stored name, else its device id.
pub open spec fn display_name(nick_name: Seq<char>, name: Seq<char>, device_id: Seq<char>) -> Seq<char> {
    if trim(nick_name).len() > 0 { trim(nick_name) } else if trim(name).len() > 0 { name } else { device_id }
}

/// Chooses the name a bound device is shown under.
pub fn bound_display_name(nick_name: &str, name: &str, device_id: &str) -> (r: String)
    ensures
        r@ == display_name(nick_name@, name@, device_id@),
{
    let n = trim_str(nick_name);
    if !n.as_str().is_empty() {
        return n;
    }
    if !trim_str(name).as_str().is_empty() {
        owned(name)
    } else {
        owned(device_id)
    }
}

/// What registering a device by MAC does, given the device already filed
/// under that MAC.
#[derive(Debug, Clone, Copy, PartialEq, Eq, Structural)]
pub enum Registration {
    /// No MAC given, or none filed under it: a new device is created.
    Create,
    /// The filed device has no owner: it is given to the user.
    Adopt(i64),
    /// The user owns the filed device already: it is kept as it is.
    Keep(i64),
}

/// Decides what registering a device does.  `device_id` is the MAC the
/// request resolves to; `existing` is the row id and owner of the device
/// filed under it, when there is one.  A device another user owns is
/// refused.
pub fn device_registration(device_id: &str, existing: Option<(i64, Option<i64>)>, user_id: i64) -> (r: Result<Registration, String>)
    ensures
        device_id@.len() == 0 ==> r == Ok::<Registration, String>(Registration::Create),
        device_id@.len() > 0 ==> match existing {
            None => r == Ok::<Registration, String>(Registration::Create),
            Some((id, None)) => r == Ok::<Registration, String>(Registration::Adopt(id)),
            Some((id, Some(u))) => if u == user_id {
                r == Ok::<Registration, String>(Registration::Keep(id))
            } else {
                r matches Err(m) && m@ == "该设备 MAC 已在系统中注册"@
            },
        },
{
    if device_id.is_empty() {
        return Ok(Registration::Create);
    }
    match existing {
        None => Ok(Registration::Create),
        Some((id, holder)) => match claim_for(holder, user_id) {
            Claim::Assign => Ok(Registration::Adopt(id)),
            Claim::Rebind => Ok(Registration::Keep(id)),
            Claim::Foreign => Err(owned("该设备 MAC 已在系统中注册")),
        },
    }
}

/// The fields a device that waits for an owner is saved with when an
/// administrator edits it.
#[derive(Debug, Clone)]
pub struct PendingDeviceEdit {
    pub device_id: String,
    pub client_id: String,
    pub name: String,
    pub agent_id: Option<i64>,
    /// The user the device is given to, when the edit names one.
    pub owner: Option<i64>,
}

/// How an administrator's edit of a device is carried out.
#[derive(Debug, Clone)]
pub enum AdminDeviceEdit {
    /// The device waits for an owner: its fields are replaced (each by the
    /// edit's, when given) and it may be given to a user.
    Pending(PendingDeviceEdit),
    /// The device has an owner: it is updated as that user's device (the
    /// user the edit names, else its owner).
    Owned(i64),
}

/// A text field of an edit, trimmed, or the stored value when the edit
/// leaves it blank.
pub open spec fn edited_text(given: Seq<char>, stored: Seq<char>) -> Seq<char> {
    if trim(given).len() == 0 { stored } else { trim(given) }
}

/// A positive user id, if the edit names one.
pub open spec fn positive_user(u: Option<i64>) -> Option<i64> {
    match u {
        Some(x) => if x > 0 { Some(x) } else { None },
        None => None,
    }
}

/// Decides how an administrator's edit of a device is carried out.
pub fn admin_device_edit(device: &DeviceRow, req: &DeviceInput) -> (r: AdminDeviceEdit)
    ensures
        device.user_id is None ==> (r matches AdminDeviceEdit::Pending(e) && {
            &&& e.device_id@ == if req.device_id@.len() == 0 { device.device_id@ } else { req.device_id@ }
            &&& e.client_id@ == edited_text(req.client_id@, device.client_id@)
            &&& e.name@ == edited_text(req.name@, device.name@)
            &&& e.agent_id == positive_user(match req.agent_id { Some(a) => Some(a), None => device.agent_id })
            &&& e.owner == positive_user(req.user_id)
        }),
        device.user_id matches Some(holder) ==> r matches AdminDeviceEdit::Owned(u) && u == match positive_user(req.user_id) {
            Some(x) => x,
            None => holder,
        },
{
    let owner = match req.user_id {
        Some(u) => if u > 0 { Some(u) } else { None },
        None => None,
    };
    match device.user_id {
        Some(holder) => AdminDeviceEdit::Owned(match owner {
            Some(u) => u,
            None => holder,
        }),
        None => {
            let given = req.resolved_device_id();
            let device_id = if given.as_str().is_empty() { owned(device.device_id.as_str()) } else { given };
            let n = trim_str(req.name.as_str());
            let name = if n.as_str().is_empty() { owned(device.name.as_str()) } else { n };
            let c = trim_str(req.client_id.as_str());
            let client_id = if c.as_str().is_empty() { owned(device.client_id.as_str()) } else { c };
            let agent_id = normalize_agent_id(match req.agent_id {
                Some(a) => Some(a),
                None => device.agent_id,
            });
            AdminDeviceEdit::Pending(PendingDeviceEdit { device_id, client_id, name, agent_id, owner })
        },
    }
}

} // verus!
