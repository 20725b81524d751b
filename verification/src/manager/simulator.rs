//! The device-chat simulator of the console: which token a WebSocket
//! request is authenticated with, who is let through to which device, and
//! which upstream server address the conversation is relayed to.
use vstd::prelude::*;
use crate::manager::access::{after_prefix, strip_prefix_or_empty};
use crate::text::{concat3, digits, eq_str, starts_with, starts_with_str, trim, trim_str, u64_to_string};

verus! {

broadcast use vstd::string::group_string_axioms;

/// An `Authorization` header's token: the text after `Bearer `, or the
/// whole text when it lacks that prefix, trimmed.
pub open spec fn header_token(header: Seq<char>) -> Seq<char> {
    if starts_with(header, "Bearer "@) {
        trim(after_prefix(header, "Bearer "@))
    } else {
        trim(header)
    }
}

/// The token a simulator connection is authenticated with: the header's
/// token when it is not blank, else the `token` query parameter trimmed,
/// when that is not blank.
pub open spec fn simulator_token_of(header: Option<Seq<char>>, query: Option<Seq<char>>) -> Option<Seq<char>> {
    let from_header = match header {
        Some(h) => if header_token(h).len() > 0 { Some(header_token(h)) } else { None },
        None => None,
    };
    match from_header {
        Some(t) => Some(t),
        None => match query {
            Some(q) => if trim(q).len() > 0 { Some(trim(q)) } else { None },
            None => None,
        },
    }
}

/// Picks the token of a simulator connection from the text of its
/// `Authorization` header (none when that header is absent or not text)
/// and its `token` query parameter.
pub fn simulator_token(header: Option<&str>, query: Option<&str>) -> (r: Option<String>)
    ensures
        match r {
            Some(t) => simulator_token_of(
                match header { Some(h) => Some(h@), None => None },
                match query { Some(q) => Some(q@), None => None },
            ) == Some(t@),
            None => simulator_token_of(
                match header { Some(h) => Some(h@), None => None },
                match query { Some(q) => Some(q@), None => None },
            ) is None,
        },
{
    proof {
        reveal_strlit("Bearer ");
    }
    if let Some(h) = header {
        let t = if starts_with_str(h, "Bearer ") {
            let rest = strip_prefix_or_empty(h, "Bearer ");
            trim_str(rest.as_str())
        } else {
            trim_str(h)
        };
        if !t.as_str().is_empty() {
            return Some(t);
        }
    }
    match query {
        Some(q) => {
            let t = trim_str(q);
            if t.as_str().is_empty() {
                None
            } else {
                Some(t)
            }
        },
        None => None,
    }
}

/// The WebSocket address of the speech server on this machine.
pub open spec fn local_ws_url(port: u16) -> Seq<char> {
    "ws://127.0.0.1:"@ + digits(port as nat) + "/xiaozhi/v1/"@
}

/// Writes the WebSocket address of the speech server listening on `port`
/// on this machine.
pub fn local_server_ws_url(port: u16) -> (r: String)
    ensures
        r@ == local_ws_url(port),
{
    let p = u64_to_string(port as u64);
    concat3("ws://127.0.0.1:", p.as_str(), "/xiaozhi/v1/")
}

/// The address a conversation is relayed to: the requested one, trimmed,
/// when it is not blank, else the local speech server.
pub open spec fn upstream_url_of(requested: Option<Seq<char>>, port: u16) -> Seq<char> {
    match requested {
        Some(u) => if trim(u).len() > 0 { trim(u) } else { local_ws_url(port) },
        None => local_ws_url(port),
    }
}

/// Picks the address a simulator conversation is relayed to.
pub fn simulator_upstream_url(requested: Option<&str>, port: u16) -> (r: String)
    ensures
        r@ == upstream_url_of(match requested { Some(u) => Some(u@), None => None }, port),
{
    if let Some(u) = requested {
        let t = trim_str(u);
        if !t.as_str().is_empty() {
            return t;
        }
    }
    local_server_ws_url(port)
}

/// Why a simulator connection is refused.
#[derive(Debug, Clone, Copy, PartialEq, Eq, Structural)]
pub enum SimulatorRefusal {
    /// No valid token (401).
    Unauthorized,
    /// The caller may not talk to this device (403).
    Forbidden,
    /// No device named (400).
    BadRequest,
}

impl SimulatorRefusal {
    /// The HTTP status of the refusal.
    pub fn status(&self) -> (r: u16)
        ensures
            r == match *self {
                SimulatorRefusal::Unauthorized => 401u16,
                SimulatorRefusal::Forbidden => 403u16,
                SimulatorRefusal::BadRequest => 400u16,
            },
    {
        match self {
            SimulatorRefusal::Unauthorized => 401,
            SimulatorRefusal::Forbidden => 403,
            SimulatorRefusal::BadRequest => 400,
        }
    }
}

/// Who is let through, and to which device.  `role` is the role of the
/// caller's valid token (none without one).  On the administrators'
/// simulator a caller must be an administrator and name a device; on the
/// users' one a caller names a device and must be an administrator or own
/// it (`owns`, what the device table says of the named device).  The
/// device is the requested one, trimmed.
pub open spec fn admission_of(
    role: Option<Seq<char>>,
    device_id: Seq<char>,
    admin_only: bool,
    owns: bool,
) -> Result<Seq<char>, SimulatorRefusal> {
    match role {
        None => Err(SimulatorRefusal::Unauthorized),
        Some(r) => if admin_only {
            if r != "admin"@ {
                Err(SimulatorRefusal::Forbidden)
            } else if trim(device_id).len() == 0 {
                Err(SimulatorRefusal::BadRequest)
            } else {
                Ok(trim(device_id))
            }
        } else if trim(device_id).len() == 0 {
            Err(SimulatorRefusal::BadRequest)
        } else if r != "admin"@ && !owns {
            Err(SimulatorRefusal::Forbidden)
        } else {
            Ok(trim(device_id))
        },
    }
}

/// Decides whether a simulator connection is let through, and to which
/// device.
pub fn simulator_admission(
    role: Option<&str>,
    device_id: &str,
    admin_only: bool,
    owns: bool,
) -> (r: Result<String, SimulatorRefusal>)
    ensures
        match r {
            Ok(d) => admission_of(match role { Some(x) => Some(x@), None => None }, device_id@, admin_only, owns)
                == Ok::<Seq<char>, SimulatorRefusal>(d@),
            Err(e) => admission_of(match role { Some(x) => Some(x@), None => None }, device_id@, admin_only, owns)
                == Err::<Seq<char>, SimulatorRefusal>(e),
        },
{
    proof {
        reveal_strlit("admin");
    }
    let r = match role {
        None => return Err(SimulatorRefusal::Unauthorized),
        Some(r) => r,
    };
    let is_admin = eq_str(r, "admin");
    if admin_only && !is_admin {
        return Err(SimulatorRefusal::Forbidden);
    }
    let d = trim_str(device_id);
    if d.as_str().is_empty() {
        return Err(SimulatorRefusal::BadRequest);
    }
    if !admin_only && !is_admin && !owns {
        return Err(SimulatorRefusal::Forbidden);
    }
    Ok(d)
}


/// The administrators' simulator lets only administrators through, and a
/// user's conversation only reaches a device the user owns (unless the
/// user is an administrator); every admitted connection has a token and
/// names a device.
pub proof fn law_simulator_admits_owners_and_admins(
    role: Option<Seq<char>>,
    device_id: Seq<char>,
    admin_only: bool,
    owns: bool,
)
    ensures
        admission_of(role, device_id, admin_only, owns) is Ok ==> {
            &&& role is Some
            &&& trim(device_id).len() > 0
            &&& admin_only ==> role == Some("admin"@)
            &&& !admin_only ==> (owns || role == Some("admin"@))
        },
{
}

} // verus!
