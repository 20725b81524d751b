//! Accounts and sessions of the management console: password hashing, the
//! claims a login token carries, and who may reach which endpoint.
use vstd::prelude::*;
use crate::json_fields::{json_i64_at, json_quote, json_quoted, json_signed_at, json_text_at, json_u64_at, json_unsigned_at, text_at};
use crate::manager::records::UserRow;
use crate::text::{concat3, decimal, digits, eq_str, i64_to_string, owned, u64_to_string};

verus! {

broadcast use vstd::string::group_string_axioms;

/// What a console login token says: the user id, name and role, and when
/// it expires (seconds since the epoch).
#[derive(Debug, Clone)]
pub struct Claims {
    pub sub: i64,
    pub username: String,
    pub role: String,
    pub exp: usize,
}

/// What a device-server WebSocket token says.
#[derive(Debug, Clone)]
pub struct WsClaims {
    pub purpose: String,
    pub uuid: String,
    pub exp: usize,
}

/// How long a login token is valid, in seconds (seven days).
pub const TOKEN_LIFETIME_SECS: i64 = 604800;

/// `bcrypt::hash` with the default cost.  The salt is random, so the hash
/// itself is left open; what is stated is that `bcrypt::verify` accepts the
/// password for it (it recomputes the hash with the salt and cost the text
/// records).
#[verifier::external_body]
pub fn hash_password(password: &str) -> (r: Result<String, String>)
    ensures
        r matches Ok(h) ==> bcrypt_accepts(password@, h@),
{
    bcrypt::hash(password, bcrypt::DEFAULT_COST).map_err(|e| e.to_string())
}

/// Whether `bcrypt::verify` accepts a password for a stored hash (a
/// malformed hash counts as a refusal).
pub uninterp spec fn bcrypt_accepts(password: Seq<char>, hash: Seq<char>) -> bool;

/// `bcrypt::verify(password, hash).unwrap_or(false)`; the contract names
/// the result.
#[verifier::external_body]
pub fn verify_password(password: &str, hash: &str) -> (r: bool)
    ensures
        r == bcrypt_accepts(password@, hash@),
{
    bcrypt::verify(password, hash).unwrap_or(false)
}

/// The claims of a token issued at `now` (seconds) for a user.
pub fn claims_for(user_id: i64, username: &str, role: &str, now: i64) -> (r: Claims)
    requires
        0 <= now + TOKEN_LIFETIME_SECS <= i64::MAX,
        now + TOKEN_LIFETIME_SECS <= usize::MAX,
    ensures
        r.sub == user_id,
        r.username@ == username@,
        r.role@ == role@,
        r.exp == now + TOKEN_LIFETIME_SECS,
{
    let exp = now + TOKEN_LIFETIME_SECS;
    Claims { sub: user_id, username: owned(username), role: owned(role), exp: exp as usize }
}

/// The JSON text of a user as the API shows it (no password hash), members
/// in the order `serde_json` prints them.
pub open spec fn user_json_text(user: UserRow) -> Seq<char> {
    "{\"email\":"@ + json_quoted(user.email@) + ",\"id\":"@ + decimal(user.id as int) + ",\"role\":"@
        + json_quoted(user.role@) + ",\"username\":"@ + json_quoted(user.username@) + "}"@
}

/// Renders a user for the API.
pub fn user_json(user: &UserRow) -> (r: String)
    ensures
        r@ == user_json_text(*user),
{
    let e = json_quote(user.email.as_str());
    let i = i64_to_string(user.id);
    let ro = json_quote(user.role.as_str());
    let u = json_quote(user.username.as_str());
    let a = concat3("{\"email\":", e.as_str(), ",\"id\":");
    let b = concat3(a.as_str(), i.as_str(), ",\"role\":");
    let c = concat3(b.as_str(), ro.as_str(), ",\"username\":");
    let r = concat3(c.as_str(), u.as_str(), "}");
    proof {
        reveal_strlit("{\"email\":");
        reveal_strlit(",\"id\":");
        reveal_strlit(",\"role\":");
        reveal_strlit(",\"username\":");
        reveal_strlit("}");
    }
    assert(r@ =~= user_json_text(*user));
    r
}

/// A request made by a logged-in user.
pub struct AuthUser(pub Claims);

/// A request made by a logged-in administrator.
pub struct AdminUser(pub Claims);

/// Why a request is turned away: its HTTP status and message.
#[derive(Debug, Clone)]
pub struct Rejection {
    pub status: u16,
    pub error: String,
}

impl AuthUser {
    /// Admits a request that carries login claims.
    pub fn from_claims(claims: Option<Claims>) -> (r: Result<AuthUser, Rejection>)
        ensures
            match r {
                Ok(u) => claims == Some(u.0),
                Err(e) => claims is None && e.status == 401 && e.error@ == "未登录"@,
            },
    {
        match claims {
            Some(c) => Ok(AuthUser(c)),
            None => Err(Rejection { status: 401, error: owned("未登录") }),
        }
    }
}

impl AdminUser {
    /// Admits a request that carries the claims of an administrator.
    pub fn from_claims(claims: Option<Claims>) -> (r: Result<AdminUser, Rejection>)
        ensures
            match r {
                Ok(u) => claims == Some(u.0) && u.0.role@ == "admin"@,
                Err(e) => match claims {
                    None => e.status == 401 && e.error@ == "未登录"@,
                    Some(c) => c.role@ != "admin"@ && e.status == 403 && e.error@ == "需要管理员权限"@,
                },
            },
    {
        match claims {
            None => Err(Rejection { status: 401, error: owned("未登录") }),
            Some(c) => {
                if !eq_str(c.role.as_str(), "admin") {
                    return Err(Rejection { status: 403, error: owned("需要管理员权限") });
                }
                Ok(AdminUser(c))
            },
        }
    }
}


// ---------------------------------------------------------------------------
// Login tokens
// ---------------------------------------------------------------------------

/// The secret the console signs its login tokens with.
pub const JWT_SECRET: &'static str = "xiaozhi_manager_jwt_secret_change_in_prod";

/// The JSON a token carries for login claims, members in key order.
pub open spec fn claims_json(sub: i64, username: Seq<char>, role: Seq<char>, exp: usize) -> Seq<char> {
    "{\"exp\":"@ + digits(exp as nat) + ",\"role\":"@ + json_quoted(role) + ",\"sub\":"@
        + decimal(sub as int) + ",\"username\":"@ + json_quoted(username) + "}"@
}

fn write_claims(c: &Claims) -> (r: String)
    ensures
        r@ == claims_json(c.sub, c.username@, c.role@, c.exp),
{
    let e = u64_to_string(c.exp as u64);
    let ro = json_quote(c.role.as_str());
    let su = i64_to_string(c.sub);
    let u = json_quote(c.username.as_str());
    let a = concat3("{\"exp\":", e.as_str(), ",\"role\":");
    let b = concat3(a.as_str(), ro.as_str(), ",\"sub\":");
    let d = concat3(b.as_str(), su.as_str(), ",\"username\":");
    let r = concat3(d.as_str(), u.as_str(), "}");
    proof {
        reveal_strlit("{\"exp\":");
        reveal_strlit(",\"role\":");
        reveal_strlit(",\"sub\":");
        reveal_strlit(",\"username\":");
        reveal_strlit("}");
    }
    assert(r@ =~= claims_json(c.sub, c.username@, c.role@, c.exp));
    r
}

/// The HS256 token `jsonwebtoken::encode` writes for a JSON payload with a
/// secret and the default header.
pub uninterp spec fn jwt_hs256(payload: Seq<char>, secret: Seq<char>) -> Seq<char>;

/// Parses the payload with `serde_json` and signs it with
/// `jsonwebtoken::encode`, the default (HS256) header and the secret's
/// bytes as key.  The contract names the token.  A payload that is not JSON
/// is refused; any other is signed: the default header's algorithm belongs
/// to the key's (HMAC) family, HMAC takes a key of any length, and a
/// `serde_json::Value` always serialises.
#[verifier::external_body]
fn jwt_encode(payload: &str, secret: &str) -> (r: Result<String, String>)
    ensures
        r is Ok <==> crate::codec::json_parse_error(payload@) is None,
        r matches Ok(t) ==> t@ == jwt_hs256(payload@, secret@),
{
    let v: serde_json::Value = serde_json::from_str(payload).map_err(|e| e.to_string())?;
    let key = jsonwebtoken::EncodingKey::from_secret(secret.as_bytes());
    jsonwebtoken::encode(&jsonwebtoken::Header::default(), &v, &key).map_err(|e| e.to_string())
}

/// The JSON text (as `serde_json` writes it) of the payload of a token that
/// passes every check of `jsonwebtoken::decode` with the default validation
/// and the secret's bytes as key except those made against the clock: three
/// parts, an HS256 header, a signature that verifies, a JSON payload with
/// the claims the validation requires.  `None` when one of them fails.
pub uninterp spec fn jwt_payload(token: Seq<char>, secret: Seq<char>) -> Option<Seq<char>>;

/// `jsonwebtoken::decode` of an HS256 token with the secret's bytes as key
/// and the default validation; gives the payload's JSON text.  The
/// validation also compares the expiry with the clock, so a token whose
/// other checks pass may still be refused: the contract states only that
/// what is given back is the token's payload, and that a token failing the
/// other checks is refused.
#[verifier::external_body]
fn jwt_decode(token: &str, secret: &str) -> (r: Result<String, String>)
    ensures
        r matches Ok(p) ==> jwt_payload(token@, secret@) == Some(p@),
        jwt_payload(token@, secret@) is None ==> r is Err,
{
    let key = jsonwebtoken::DecodingKey::from_secret(secret.as_bytes());
    let v = jsonwebtoken::Validation::default();
    jsonwebtoken::decode::<serde_json::Value>(token, &key, &v).map(|d| d.claims.to_string()).map_err(|e| e.to_string())
}

/// Whether a token issued at `now` (seconds) has an expiry that fits.
pub open spec fn issue_time_fits(now: i64) -> bool {
    &&& -TOKEN_LIFETIME_SECS <= now <= i64::MAX - TOKEN_LIFETIME_SECS
    &&& now + TOKEN_LIFETIME_SECS <= usize::MAX
}

/// The payload of a login token issued at `now` (seconds).
pub open spec fn login_payload(user_id: i64, username: Seq<char>, role: Seq<char>, now: i64) -> Seq<char> {
    claims_json(user_id, username, role, (now + TOKEN_LIFETIME_SECS) as usize)
}

/// Issues a login token at `now` (seconds): the token of the claims of
/// `claims_for`, valid for seven days.  A time whose expiry does not fit is
/// refused with `时间超出范围`; otherwise the claims are signed.
pub fn create_token_at(user_id: i64, username: &str, role: &str, now: i64) -> (r: Result<String, String>)
    ensures
        !issue_time_fits(now) ==> (r matches Err(m) && m@ == "时间超出范围"@),
        issue_time_fits(now) ==> (r is Ok <==> crate::codec::json_parse_error(
            login_payload(user_id, username@, role@, now),
        ) is None),
        r matches Ok(t) ==> t@ == jwt_hs256(login_payload(user_id, username@, role@, now), JWT_SECRET@),
{
    if now < -TOKEN_LIFETIME_SECS || now > i64::MAX - TOKEN_LIFETIME_SECS {
        return Err(owned("时间超出范围"));
    }
    if (now + TOKEN_LIFETIME_SECS) as u64 > usize::MAX as u64 {
        return Err(owned("时间超出范围"));
    }
    let claims = claims_for(user_id, username, role, now);
    let payload = write_claims(&claims);
    jwt_encode(payload.as_str(), JWT_SECRET)
}

/// Issues a login token for a user, valid for seven days from now: what
/// `create_token_at` gives at the current time (which the contract leaves
/// open).
pub fn create_token(user_id: i64, username: &str, role: &str) -> (r: Result<String, String>)
    ensures
        r matches Ok(t) ==> exists|now: i64| issue_time_fits(now)
            && #[trigger] jwt_hs256(login_payload(user_id, username@, role@, now), JWT_SECRET@) == t@,
        r matches Err(m) ==> m@ == "时间超出范围"@ || exists|now: i64| issue_time_fits(now)
            && crate::codec::json_parse_error(#[trigger] login_payload(user_id, username@, role@, now)) is Some,
{
    let now = crate::manager::captcha::now_millis() / 1000;
    create_token_at(user_id, username, role, now)
}

/// The claims a token payload carries: `sub`, `username`, `role` and `exp`
/// of the right types, else none.
pub open spec fn payload_claims(payload: Seq<char>) -> Option<(i64, Seq<char>, Seq<char>, u64)> {
    match (
        json_signed_at(payload, "/sub"@),
        text_at(payload, "/username"@),
        text_at(payload, "/role"@),
        json_unsigned_at(payload, "/exp"@),
    ) {
        (Some(s), Some(u), Some(r), Some(e)) => Some((s, u, r, e)),
        _ => None,
    }
}

/// Whether a payload carries login claims whose expiry fits a `usize`.
pub open spec fn readable_claims(payload: Seq<char>) -> bool {
    payload_claims(payload) matches Some(q) && q.3 <= usize::MAX
}

/// Reads login claims from a token payload: refused with `令牌缺少字段`
/// when one is missing or of another type, with `exp 超出范围` when the
/// expiry does not fit.
pub fn claims_from_payload(payload: &str) -> (r: Result<Claims, String>)
    ensures
        r is Ok <==> readable_claims(payload@),
        r matches Ok(c) ==> payload_claims(payload@) == Some((c.sub, c.username@, c.role@, c.exp as u64)),
        r matches Err(m) ==> m@ == if payload_claims(payload@) is None { "令牌缺少字段"@ } else { "exp 超出范围"@ },
{
    let sub = json_i64_at(payload, "/sub");
    let username = json_text_at(payload, "/username");
    let role = json_text_at(payload, "/role");
    let exp = json_u64_at(payload, "/exp");
    proof {
        reveal_strlit("/sub");
        reveal_strlit("/username");
        reveal_strlit("/role");
        reveal_strlit("/exp");
    }
    match (sub, username, role, exp) {
        (Some(s), Some(u), Some(ro), Some(e)) => {
            if e > usize::MAX as u64 {
                return Err(owned("exp 超出范围"));
            }
            Ok(Claims { sub: s, username: u, role: ro, exp: e as usize })
        },
        _ => Err(owned("令牌缺少字段")),
    }
}

/// Reads and checks a console login token: the claims of its payload when
/// `jsonwebtoken` accepts it at the current time.  A token that fails the
/// checks not made against the clock, or whose payload carries no login
/// claims, is refused.
pub fn decode_token(token: &str) -> (r: Result<Claims, String>)
    ensures
        r matches Ok(c) ==> (jwt_payload(token@, JWT_SECRET@) matches Some(p)
            && payload_claims(p) == Some((c.sub, c.username@, c.role@, c.exp as u64))),
        !(jwt_payload(token@, JWT_SECRET@) matches Some(p) && readable_claims(p)) ==> r is Err,
{
    let payload = jwt_decode(token, JWT_SECRET)?;
    claims_from_payload(payload.as_str())
}

/// The claims a WebSocket token payload carries: `purpose`, `uuid` and
/// `exp` of the right types, else none.
pub open spec fn payload_ws_claims(payload: Seq<char>) -> Option<(Seq<char>, Seq<char>, u64)> {
    match (
        text_at(payload, "/purpose"@),
        text_at(payload, "/uuid"@),
        json_unsigned_at(payload, "/exp"@),
    ) {
        (Some(p), Some(u), Some(e)) => Some((p, u, e)),
        _ => None,
    }
}

/// Whether a payload carries WebSocket claims whose expiry fits a `usize`.
pub open spec fn readable_ws_claims(payload: Seq<char>) -> bool {
    payload_ws_claims(payload) matches Some(q) && q.2 <= usize::MAX
}

/// Reads WebSocket claims from a token payload: refused with
/// `令牌缺少字段` when one is missing or of another type, with
/// `exp 超出范围` when the expiry does not fit.
pub fn ws_claims_from_payload(payload: &str) -> (r: Result<WsClaims, String>)
    ensures
        r is Ok <==> readable_ws_claims(payload@),
        r matches Ok(c) ==> payload_ws_claims(payload@) == Some((c.purpose@, c.uuid@, c.exp as u64)),
        r matches Err(m) ==> m@ == if payload_ws_claims(payload@) is None { "令牌缺少字段"@ } else { "exp 超出范围"@ },
{
    let purpose = json_text_at(payload, "/purpose");
    let uuid = json_text_at(payload, "/uuid");
    let exp = json_u64_at(payload, "/exp");
    proof {
        reveal_strlit("/purpose");
        reveal_strlit("/uuid");
        reveal_strlit("/exp");
    }
    match (purpose, uuid, exp) {
        (Some(p), Some(u), Some(e)) => {
            if e > usize::MAX as u64 {
                return Err(owned("exp 超出范围"));
            }
            Ok(WsClaims { purpose: p, uuid: u, exp: e as usize })
        },
        _ => Err(owned("令牌缺少字段")),
    }
}

/// Reads and checks a speech-server WebSocket token signed with `secret`:
/// its `purpose`, `uuid` and `exp`, when `jsonwebtoken` accepts it at the
/// current time.  A token that fails the checks not made against the clock,
/// or whose payload lacks those claims, is refused.
pub fn decode_ws_token(token: &str, secret: &str) -> (r: Result<WsClaims, String>)
    ensures
        r matches Ok(c) ==> (jwt_payload(token@, secret@) matches Some(p)
            && payload_ws_claims(p) == Some((c.purpose@, c.uuid@, c.exp as u64))),
        !(jwt_payload(token@, secret@) matches Some(p) && readable_ws_claims(p)) ==> r is Err,
{
    let payload = jwt_decode(token, secret)?;
    ws_claims_from_payload(payload.as_str())
}

/// The claims a request is served with: those of a valid login token, else
/// those of the API token's owner (which never expire, `exp` 0), else
/// none.
pub fn session_claims(login: Result<Claims, String>, api_owner: Option<(i64, String, String)>) -> (r: Option<Claims>)
    ensures
        login matches Ok(c) ==> r == Some(c),
        login is Err ==> match api_owner {
            Some(o) => r matches Some(c) && c.sub == o.0 && c.username == o.1 && c.role == o.2 && c.exp == 0,
            None => r is None,
        },
{
    match login {
        Ok(c) => Some(c),
        Err(_) => match api_owner {
            Some((sub, username, role)) => Some(Claims { sub, username, role, exp: 0 }),
            None => None,
        },
    }
}

/// Authenticates a request's token: a valid login token, else an API
/// token accepted by one of the stored tokens filed under its prefix
/// (`candidates`, checked at `now` in milliseconds), whose owner is served
/// with claims that never expire (`exp` 0).  Whether a login token is valid
/// depends on the clock, so where its other checks pass the contract leaves
/// open which of the two serves the request; an accepted API token always
/// lets it through, and a request that neither lets through is refused.
pub fn authenticate(token: &str, candidates: &Vec<crate::manager::allowances::TokenCandidate>, now: i64) -> (r: Option<Claims>)
    ensures
        token@.len() > 0 && crate::manager::allowances::first_accepting(candidates@, token@, now) is Some
            ==> r is Some,
        r matches Some(c) ==> {
            ||| (jwt_payload(token@, JWT_SECRET@) matches Some(p)
                && payload_claims(p) == Some((c.sub, c.username@, c.role@, c.exp as u64)))
            ||| (token@.len() > 0 && (crate::manager::allowances::first_accepting(candidates@, token@, now) matches Some(t)
                && c.sub == t.user_id && c.username@ == t.username@ && c.role@ == t.role@ && c.exp == 0))
        },
        !(jwt_payload(token@, JWT_SECRET@) matches Some(p) && readable_claims(p)) ==> match (
            token@.len() > 0,
            crate::manager::allowances::first_accepting(candidates@, token@, now),
        ) {
            (true, Some(t)) => r matches Some(c) && c.sub == t.user_id && c.username@ == t.username@
                && c.role@ == t.role@ && c.exp == 0,
            _ => r is None,
        },
{
    let login = decode_token(token);
    let owner = match login {
        Ok(_) => None,
        Err(_) => crate::manager::allowances::verify_api_token(token, candidates, now),
    };
    session_claims(login, owner)
}

} // verus!
