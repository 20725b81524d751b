//! Rules around stored credentials and allowances: activation codes,
//! API tokens and voice-cloning quotas.
use vstd::prelude::*;
use crate::text::{
    concat, digits, eq_ignore_ascii_case, eq_ignore_case_ascii, owned, take_chars, take_chars_str,
    trim, trim_str, u64_to_string,
};

verus! {

broadcast use vstd::string::group_string_axioms;

// ---------------------------------------------------------------------------
// Activation codes
// ---------------------------------------------------------------------------

/// `n` written with at least six digits, zeros in front.
pub open spec fn six_digits(n: nat) -> Seq<char> {
    let d = digits(n);
    if d.len() < 6 { Seq::new((6 - d.len()) as nat, |i: int| '0') + d } else { d }
}

/// The activation code a random number gives: its last six decimal
/// digits, zeros in front.
pub fn activation_code_from(n: u128) -> (r: String)
    ensures
        r@ == six_digits((n % 1000000) as nat),
{
    let m = (n % 1000000) as u64;
    let d = u64_to_string(m);
    let mut pad = String::new();
    let dv = crate::text::chars_of(d.as_str());
    let mut k: usize = dv.len();
    while k < 6
        invariant
            dv.len() <= k <= 6 || (dv.len() > 6 && k == dv.len()),
            pad@ == Seq::new((k - dv.len()) as nat, |i: int| '0'),
        decreases 6 - k,
    {
        crate::text::push_char(&mut pad, '0');
        assert(pad@ =~= Seq::new((k + 1 - dv.len()) as nat, |i: int| '0'));
        k = k + 1;
    }
    let r = concat(pad.as_str(), d.as_str());
    proof {
        if dv.len() >= 6 {
            assert(pad@ =~= Seq::<char>::empty());
            assert(r@ =~= d@);
        }
    }
    r
}

/// A random number for an activation code (`uuid::Uuid::new_v4`, as a
/// `u128`).  Nothing is promised of it.
#[verifier::external_body]
fn random_u128() -> (r: u128) {
    uuid::Uuid::new_v4().as_u128()
}

/// A fresh random activation code (six digits); whether it is free is
/// checked against the stored devices.
pub fn random_activation_code() -> (r: String)
    ensures
        exists|n: nat| n < 1000000 && r@ == #[trigger] six_digits(n),
{
    let x = random_u128();
    let r = activation_code_from(x);
    assert(r@ == six_digits((x % 1000000) as nat));
    r
}

/// How many random codes are tried before giving up.
pub const ACTIVATION_CODE_ATTEMPTS: u32 = 32;

// ---------------------------------------------------------------------------
// API tokens
// ---------------------------------------------------------------------------

/// The prefix under which a token is looked up: its first eight
/// characters.
pub fn token_prefix(raw_token: &str) -> (r: String)
    ensures
        r@ == take_chars(raw_token@, 8),
{
    take_chars_str(raw_token, 8)
}

/// The text of a new API token around a random id.
pub fn api_token_text(uuid: &str) -> (r: String)
    ensures
        r@ == "xz_"@ + uuid@,
{
    concat("xz_", uuid)
}

/// Checks the name of a new API token.
pub fn check_token_name(name: &str) -> (r: Result<(), String>)
    ensures
        match r {
            Ok(()) => trim(name@).len() > 0,
            Err(m) => trim(name@).len() == 0 && m@ == "Token 名称不能为空"@,
        },
{
    if trim_str(name).as_str().is_empty() {
        return Err(owned("Token 名称不能为空"));
    }
    Ok(())
}

/// The instant an RFC 3339 time stands for, in milliseconds since the
/// epoch, when it is one.
pub uninterp spec fn rfc3339_instant(s: Seq<char>) -> Option<i64>;

/// `chrono::DateTime::parse_from_rfc3339(s)` as milliseconds since the
/// epoch; the contract names the result.
#[verifier::external_body]
fn parse_rfc3339_millis(s: &str) -> (r: Option<i64>)
    ensures
        r == rfc3339_instant(s@),
{
    chrono::DateTime::parse_from_rfc3339(s).ok().map(|t| t.timestamp_millis())
}

/// A stored token has expired at `now`: it has a readable expiry before
/// `now`.  A token without one, or with one that is not a time, does not
/// expire.
pub open spec fn token_expired(expires_at: Option<Seq<char>>, now: i64) -> bool {
    match expires_at {
        Some(e) => e.len() > 0 && (rfc3339_instant(e) matches Some(t) && t < now),
        None => false,
    }
}

/// Whether a stored token has expired at `now` (milliseconds).
pub fn is_token_expired(expires_at: Option<&str>, now: i64) -> (r: bool)
    ensures
        r == token_expired(match expires_at { Some(e) => Some(e@), None => None }, now),
{
    match expires_at {
        None => false,
        Some(e) => {
            if e.is_empty() {
                return false;
            }
            match parse_rfc3339_millis(e) {
                Some(t) => t < now,
                None => false,
            }
        },
    }
}

/// A stored token filed under the prefix of a presented token, with its
/// owner.
#[derive(Debug, Clone)]
pub struct TokenCandidate {
    pub token_hash: String,
    pub expires_at: Option<String>,
    pub user_id: i64,
    pub username: String,
    pub role: String,
}

/// A candidate accepts a presented token: it has not expired and its hash
/// matches the token.
pub open spec fn accepts(c: TokenCandidate, raw: Seq<char>, now: i64) -> bool {
    !token_expired(match c.expires_at { Some(e) => Some(e@), None => None }, now)
        && crate::manager::auth::bcrypt_accepts(raw, c.token_hash@)
}

/// The first candidate, in the order given, that accepts the token.
pub open spec fn first_accepting(cs: Seq<TokenCandidate>, raw: Seq<char>, now: i64) -> Option<TokenCandidate>
    decreases cs.len(),
{
    if cs.len() == 0 {
        None
    } else if accepts(cs[0], raw, now) {
        Some(cs[0])
    } else {
        first_accepting(cs.drop_first(), raw, now)
    }
}

/// Authenticates a presented API token against the stored tokens filed
/// under its prefix: the owner (id, name, role) of the first one that
/// accepts it at `now` (milliseconds); none for an empty token.
pub fn verify_api_token(raw_token: &str, candidates: &Vec<TokenCandidate>, now: i64) -> (r: Option<(i64, String, String)>)
    ensures
        raw_token@.len() == 0 ==> r is None,
        raw_token@.len() > 0 ==> match first_accepting(candidates@, raw_token@, now) {
            Some(c) => r matches Some(o) && o.0 == c.user_id && o.1@ == c.username@ && o.2@ == c.role@,
            None => r is None,
        },
{
    if raw_token.is_empty() {
        return None;
    }
    let mut i: usize = 0;
    proof {
        assert(candidates@.skip(0) =~= candidates@);
    }
    while i < candidates.len()
        invariant
            0 <= i <= candidates.len(),
            raw_token@.len() > 0,
            first_accepting(candidates@, raw_token@, now)
                == first_accepting(candidates@.skip(i as int), raw_token@, now),
        decreases candidates.len() - i,
    {
        let c = &candidates[i];
        proof {
            let rest = candidates@.skip(i as int);
            assert(rest[0] == candidates@[i as int]);
            assert(rest.drop_first() =~= candidates@.skip(i as int + 1));
        }
        let expired = is_token_expired(
            match &c.expires_at {
                Some(e) => Some(e.as_str()),
                None => None,
            },
            now,
        );
        if !expired && crate::manager::auth::verify_password(raw_token, c.token_hash.as_str()) {
            return Some((c.user_id, owned(c.username.as_str()), owned(c.role.as_str())));
        }
        i = i + 1;
    }
    None
}

// ---------------------------------------------------------------------------
// Voice-cloning quotas
// ---------------------------------------------------------------------------

/// What starting a voice clone does to the user's allowance.
#[derive(Debug, Clone, PartialEq, Eq)]
pub enum QuotaUse {
    /// No TTS configuration is named, or the user is an administrator:
    /// nothing is counted.
    Free,
    /// The allowance is unlimited.
    Unlimited,
    /// One use of allowance `id` is counted: some is left.
    Count(i64),
    /// No allowance, or none left: refused.
    Refused(String),
}

/// The message for an exhausted allowance.
pub open spec fn quota_refusal() -> Seq<char> {
    "声音复刻额度不足，请联系管理员分配额度"@
}

/// Decides how a clone counts against the allowance, given the user's role
/// (if the user exists) and the allowance row `(id, max, used)` (if any):
/// an allowance with a limit (`max` not negative) whose uses have reached
/// it is refused.  The count is then raised by an update guarded by the
/// same condition, so a row changed in between is refused there too.
pub fn quota_use(tts_config_id: &str, user_role: Option<&str>, quota: Option<(i64, i64, i64)>) -> (r: QuotaUse)
    ensures
        r == if trim(tts_config_id@).len() == 0 {
            QuotaUse::Free
        } else if (user_role matches Some(role) && eq_ignore_ascii_case(role@, "admin"@)) {
            QuotaUse::Free
        } else {
            match quota {
                None => QuotaUse::Refused(r->Refused_0),
                Some((id, max, used)) => if max < 0 {
                    QuotaUse::Unlimited
                } else if used >= max {
                    QuotaUse::Refused(r->Refused_0)
                } else {
                    QuotaUse::Count(id)
                },
            }
        },
        r matches QuotaUse::Refused(m) ==> m@ == quota_refusal(),
{
    if trim_str(tts_config_id).as_str().is_empty() {
        return QuotaUse::Free;
    }
    if let Some(role) = user_role {
        if eq_ignore_case_ascii(role, "admin") {
            return QuotaUse::Free;
        }
    }
    match quota {
        None => QuotaUse::Refused(owned("声音复刻额度不足，请联系管理员分配额度")),
        Some((id, max, used)) => if max < 0 {
            QuotaUse::Unlimited
        } else if used >= max {
            QuotaUse::Refused(owned("声音复刻额度不足，请联系管理员分配额度"))
        } else {
            QuotaUse::Count(id)
        },
    }
}

/// Starts a voice clone against the allowance row `(id, max, used)` read
/// for the user and TTS configuration: the outcome and the row after it.
/// Nothing is counted for a blank configuration, an administrator or an
/// unlimited allowance; a counted use raises `used` by one, never past
/// `max`; a refusal leaves the row as it was.
pub fn consume_quota(tts_config_id: &str, user_role: Option<&str>, quota: Option<(i64, i64, i64)>)
    -> (r: (Result<(), String>, Option<(i64, i64, i64)>))
    ensures
        match quota_use_spec(tts_config_id@, match user_role { Some(x) => Some(x@), None => None }, quota) {
            QuotaUseView::Counted => r.0 is Ok && (quota matches Some(q) && (r.1 matches Some(n)
                && n.0 == q.0 && n.1 == q.1 && n.2 == q.2 + 1 && n.2 <= n.1)),
            QuotaUseView::Uncounted => r.0 is Ok && r.1 == quota,
            QuotaUseView::Refused => (r.0 matches Err(m) && m@ == quota_refusal()) && r.1 == quota,
        },
{
    match quota_use(tts_config_id, user_role, quota) {
        QuotaUse::Free => (Ok(()), quota),
        QuotaUse::Unlimited => (Ok(()), quota),
        QuotaUse::Count(_) => {
            let (id, max, used) = quota.unwrap();
            (Ok(()), Some((id, max, used + 1)))
        },
        QuotaUse::Refused(m) => (Err(m), quota),
    }
}

/// How a clone counts against the allowance.
pub enum QuotaUseView {
    Uncounted,
    Counted,
    Refused,
}

/// How `quota_use` decides (see there): nothing is counted for a blank
/// configuration, an administrator or an unlimited allowance; an
/// allowance with uses left is counted; otherwise the clone is refused.
pub open spec fn quota_use_spec(tts_config_id: Seq<char>, user_role: Option<Seq<char>>, quota: Option<(i64, i64, i64)>) -> QuotaUseView {
    if trim(tts_config_id).len() == 0 {
        QuotaUseView::Uncounted
    } else if (user_role matches Some(role) && eq_ignore_ascii_case(role, "admin"@)) {
        QuotaUseView::Uncounted
    } else {
        match quota {
            None => QuotaUseView::Refused,
            Some((_id, max, used)) => if max < 0 {
                QuotaUseView::Uncounted
            } else if used >= max {
                QuotaUseView::Refused
            } else {
                QuotaUseView::Counted
            },
        }
    }
}

} // verus!
