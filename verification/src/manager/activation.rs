//! Activating a device: what a device's activation request is answered,
//! given what the console knows of the device.
use vstd::prelude::*;
use crate::json_fields::{read_json_field, JsonField, JsonFieldView, json_top_field};
use crate::manager::records::DeviceRow;
use crate::text::{eq_str, owned};

verus! {

broadcast use vstd::string::group_string_axioms;

/// What an activation request is answered.
#[derive(Debug, Clone, PartialEq, Eq)]
pub enum Activation {
    /// The device is not registered (answered with success and a note).
    NotRegistered,
    /// The device is active already; its client id is brought up to date.
    AlreadyActive,
    /// The device has no owner yet (202).
    Unbound,
    /// The device is activated now.
    Activate,
    /// The activation code given is wrong (400).
    WrongCode,
    /// The answer to the challenge must be checked against the stored
    /// challenge (see `challenge_verdict`): this challenge was given.
    CheckChallenge(String),
    /// Nothing to go on yet: the owner must bind the device (202).
    Waiting,
}

/// A string member of the request payload, or empty.
pub open spec fn payload_text(payload: Seq<char>, key: Seq<char>) -> Seq<char> {
    match json_top_field(payload, key) {
        Some(JsonFieldView::Text(s)) => s,
        _ => Seq::empty(),
    }
}

/// The activation code a payload gives: `code` when that member is there
/// (as a string, else none), else `activation_code`.
pub open spec fn payload_code(payload: Seq<char>) -> Seq<char> {
    match json_top_field(payload, "code"@) {
        Some(JsonFieldView::Absent) => payload_text(payload, "activation_code"@),
        None => Seq::empty(),
        Some(JsonFieldView::Text(s)) => s,
        Some(_) => Seq::empty(),
    }
}

fn read_text(payload: &str, key: &str) -> (r: String)
    ensures
        r@ == payload_text(payload@, key@),
{
    match read_json_field(payload, key) {
        Some(JsonField::Text(s)) => s,
        _ => String::new(),
    }
}

/// Decides the answer to an activation request whose payload (JSON text)
/// carries a code, or a challenge and its answer (`hmac`); `device` is the
/// device registered under the request's id, if any.
pub fn activation_decision(payload: &str, device: Option<&DeviceRow>) -> (r: Activation)
    ensures
        ({
            let code = payload_code(payload@);
            let challenge = payload_text(payload@, "challenge"@);
            let hmac = payload_text(payload@, "hmac"@);
            match device {
                None => r == Activation::NotRegistered,
                Some(d) => if d.activated {
                    r == Activation::AlreadyActive
                } else if d.user_id is None {
                    r == Activation::Unbound
                } else if code.len() > 0 {
                    if d.activation_code@ == code { r == Activation::Activate } else { r == Activation::WrongCode }
                } else if hmac.len() > 0 && challenge.len() > 0 {
                    r matches Activation::CheckChallenge(c) && c@ == challenge
                } else {
                    r == Activation::Waiting
                },
            }
        }),
{
    proof {
        reveal_strlit("code");
        reveal_strlit("activation_code");
        reveal_strlit("challenge");
        reveal_strlit("hmac");
    }
    let code = match read_json_field(payload, "code") {
        Some(JsonField::Absent) => read_text(payload, "activation_code"),
        Some(JsonField::Text(s)) => s,
        _ => String::new(),
    };
    let challenge = read_text(payload, "challenge");
    let hmac = read_text(payload, "hmac");
    let d = match device {
        None => return Activation::NotRegistered,
        Some(d) => d,
    };
    if d.activated {
        return Activation::AlreadyActive;
    }
    if d.user_id.is_none() {
        return Activation::Unbound;
    }
    if !code.as_str().is_empty() {
        return if eq_str(d.activation_code.as_str(), code.as_str()) {
            Activation::Activate
        } else {
            Activation::WrongCode
        };
    }
    if !hmac.as_str().is_empty() && !challenge.as_str().is_empty() {
        return Activation::CheckChallenge(challenge);
    }
    Activation::Waiting
}

/// Checks the challenge of an activation against the stored one: a
/// different stored challenge refuses it; none stored lets it pass.
pub fn challenge_verdict(challenge: &str, stored: Option<&str>) -> (r: Result<(), String>)
    ensures
        match stored {
            Some(s) => if s@ == challenge@ { r is Ok } else { r matches Err(m) && m@ == "挑战码错误"@ },
            None => r is Ok,
        },
{
    match stored {
        Some(s) => if eq_str(s, challenge) { Ok(()) } else { Err(owned("挑战码错误")) },
        None => Ok(()),
    }
}

} // verus!
