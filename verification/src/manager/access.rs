//! Which console requests go through without a login, which need the
//! device server's shared token, and which token the rest are checked
//! with.
use vstd::prelude::*;
use crate::text::{
    chars_of, ends_with, ends_with_str, eq_str, owned, starts_with, starts_with_str,
    string_from_range,
};

verus! {

broadcast use vstd::string::group_string_axioms;

/// The paths open to everyone: set-up, login, registration and captcha.
pub open spec fn public_paths() -> Seq<Seq<char>> {
    seq![
        "/api/setup/status"@, "/api/setup/local-ip"@, "/api/setup/initialize"@, "/api/login"@,
        "/api/register"@, "/api/captcha/status"@, "/api/captcha/challenge"@, "/setup/status"@,
        "/setup/local-ip"@, "/setup/initialize"@, "/login"@, "/register"@, "/captcha/status"@,
        "/captcha/challenge"@,
    ]
}

/// Whether a path is open to everyone.
pub fn is_public(path: &str) -> (r: bool)
    ensures
        r == public_paths().contains(path@),
{
    let names: Vec<&'static str> = vec![
        "/api/setup/status", "/api/setup/local-ip", "/api/setup/initialize", "/api/login",
        "/api/register", "/api/captcha/status", "/api/captcha/challenge", "/setup/status",
        "/setup/local-ip", "/setup/initialize", "/login", "/register", "/captcha/status",
        "/captcha/challenge",
    ];
    let ghost nv = names@.map_values(|s: &str| s@);
    assert(nv =~= public_paths());
    let mut i: usize = 0;
    while i < names.len()
        invariant
            i <= names.len(),
            nv == names@.map_values(|s: &str| s@),
            nv == public_paths(),
            forall|j: int| 0 <= j < i ==> nv[j] != path@,
        decreases names.len() - i,
    {
        assert(nv[i as int] == names@[i as int]@);
        if eq_str(names[i], path) {
            assert(public_paths()[i as int] == path@);
            return true;
        }
        i = i + 1;
    }
    false
}

/// A path of the device server's internal API, asked with credentials.
pub open spec fn internal_request(path: Seq<char>, has_auth: bool) -> bool {
    (starts_with(path, "/api/internal/"@) || starts_with(path, "/internal/"@)) && has_auth
}

/// Whether a request is for the internal API and carries credentials.
pub fn is_internal(path: &str, has_auth: bool) -> (r: bool)
    ensures
        r == internal_request(path@, has_auth),
{
    (starts_with_str(path, "/api/internal/") || starts_with_str(path, "/internal/")) && has_auth
}

/// The position of the first `c` in `s`, or its length.
pub open spec fn char_index(s: Seq<char>, c: char) -> nat
    decreases s.len(),
{
    if s.len() == 0 {
        0
    } else if s[0] == c {
        0
    } else {
        1 + char_index(s.drop_first(), c)
    }
}

proof fn lemma_char_index(s: Seq<char>, c: char, i: int)
    requires
        0 <= i <= s.len(),
        forall|j: int| 0 <= j < i ==> s[j] != c,
        i < s.len() ==> s[i] == c,
    ensures
        char_index(s, c) == i,
    decreases i,
{
    if i > 0 {
        lemma_char_index(s.drop_first(), c, i - 1);
    }
}

/// The pieces of `s` between occurrences of `c` (as `str::split`).
pub open spec fn split_on(s: Seq<char>, c: char) -> Seq<Seq<char>>
    decreases s.len(),
{
    let k = char_index(s, c);
    if k >= s.len() {
        seq![s]
    } else {
        seq![s.take(k as int)] + split_on(s.skip(k as int + 1), c)
    }
}

/// Finds `c` in `v` from position `from`.
fn find_char(v: &Vec<char>, from: usize, c: char) -> (r: usize)
    requires
        from <= v.len(),
    ensures
        from <= r <= v.len(),
        char_index(v@.skip(from as int), c) == r - from,
{
    let mut k = from;
    while k < v.len() && v[k] != c
        invariant
            from <= k <= v.len(),
            forall|j: int| from <= j < k ==> v@[j] != c,
        decreases v.len() - k,
    {
        k = k + 1;
    }
    proof {
        lemma_char_index(v@.skip(from as int), c, (k - from) as int);
    }
    k
}

/// Splits `s` at each `c`.
pub fn split_char(s: &str, c: char) -> (r: Vec<String>)
    ensures
        r@.map_values(|p: String| p@) == split_on(s@, c),
{
    let v = chars_of(s);
    let mut out: Vec<String> = Vec::new();
    let mut start: usize = 0;
    assert(v@.skip(0) =~= v@);
    assert(out@.map_values(|p: String| p@) + split_on(s@, c) =~= split_on(s@, c));
    loop
        invariant
            start <= v.len(),
            v@ == s@,
            split_on(s@, c) == out@.map_values(|p: String| p@) + split_on(v@.skip(start as int), c),
        decreases v.len() - start,
    {
        let k = find_char(&v, start, c);
        let piece = string_from_range(&v, start, k);
        let ghost rest = v@.skip(start as int);
        assert(piece@ =~= rest.take((k - start) as int));
        let ghost before = out@.map_values(|p: String| p@);
        out.push(piece);
        assert(out@.map_values(|p: String| p@) =~= before.push(piece@));
        if k >= v.len() {
            assert(split_on(rest, c) == seq![rest]);
            assert(rest =~= piece@);
            assert(before + seq![piece@] =~= before.push(piece@));
            return out;
        }
        assert(rest.skip((k - start) as int + 1) =~= v@.skip(k + 1));
        assert(before + (seq![piece@] + split_on(v@.skip(k + 1), c)) =~= before.push(piece@) + split_on(v@.skip(k + 1), c));
        start = k + 1;
    }
}

/// What `urlencoding::decode` gives for a text: the percent-decoded text,
/// or `None` when the decoded bytes are not UTF-8.
pub uninterp spec fn percent_decoded(s: Seq<char>) -> Option<Seq<char>>;

/// `urlencoding::decode`, as an option; the contract names the result.
#[verifier::external_body]
fn url_decode(s: &str) -> (r: Option<String>)
    ensures
        crate::text::opt_view(r) == percent_decoded(s@),
{
    urlencoding::decode(s).ok().map(|c| c.into_owned())
}

/// The decoded value of the first `key=value` pair (among `pairs`) named
/// `key` whose value decodes; a pair without `=` has an empty value.
pub open spec fn first_param(pairs: Seq<Seq<char>>, key: Seq<char>) -> Option<Seq<char>>
    decreases pairs.len(),
{
    if pairs.len() == 0 {
        None
    } else {
        let p = pairs[0];
        let k = char_index(p, '=');
        let value = if k < p.len() { p.skip(k as int + 1) } else { Seq::empty() };
        if p.take(k as int) == key && percent_decoded(value) is Some {
            percent_decoded(value)
        } else {
            first_param(pairs.drop_first(), key)
        }
    }
}

/// A query-string parameter.
pub open spec fn query_param(query: Option<Seq<char>>, key: Seq<char>) -> Option<Seq<char>> {
    match query {
        None => None,
        Some(q) => first_param(split_on(q, '&'), key),
    }
}

/// The view of an optional string slice.
pub open spec fn opt_str(o: Option<&str>) -> Option<Seq<char>> {
    match o {
        Some(s) => Some(s@),
        None => None,
    }
}

/// Reads a parameter of a query string.
pub fn extract_query_param(query: Option<&str>, key: &str) -> (r: Option<String>)
    ensures
        crate::text::opt_view(r) == query_param(opt_str(query), key@),
{
    let q = match query {
        None => return None,
        Some(q) => q,
    };
    assert(opt_str(query) == Some(q@));
    let pairs = split_char(q, '&');
    let ghost pv = pairs@.map_values(|p: String| p@);
    let mut i: usize = 0;
    assert(pv.skip(0) =~= pv);
    while i < pairs.len()
        invariant
            i <= pairs.len(),
            pv == pairs@.map_values(|p: String| p@),
            pv == split_on(q@, '&'),
            opt_str(query) == Some(q@),
            first_param(pv, key@) == first_param(pv.skip(i as int), key@),
        decreases pairs.len() - i,
    {
        assert(pv.skip(i as int)[0] == pv[i as int]);
        assert(pv.skip(i as int).drop_first() =~= pv.skip(i + 1));
        let v = chars_of(pairs[i].as_str());
        assert(pv[i as int] == v@);
        let k = find_char(&v, 0, '=');
        assert(v@.skip(0) =~= v@);
        assert(char_index(v@, '=') == k);
        let name = string_from_range(&v, 0, k);
        assert(name@ =~= v@.take(k as int));
        let value = if k < v.len() {
            let t = string_from_range(&v, k + 1, v.len());
            assert(t@ =~= v@.skip(k + 1));
            t
        } else {
            String::new()
        };
        assert(value@ =~= (if (k as int) < v@.len() { v@.skip(k as int + 1) } else { Seq::<char>::empty() }));
        if eq_str(name.as_str(), key) {
            match url_decode(value.as_str()) {
                Some(d) => {
                    return Some(d);
                },
                None => {},
            }
        }
        i = i + 1;
    }
    assert(pv.skip(i as int) =~= Seq::empty());
    None
}

/// What to do with a request: let it through, turn it away, or check the
/// token (a login token, else an API token) before letting it through.
#[derive(Debug, Clone)]
pub enum Access {
    Allow,
    Deny,
    Check(String),
}

/// The plain content of an access decision.
pub enum AccessView {
    Allow,
    Deny,
    Check(Seq<char>),
}

impl View for Access {
    type V = AccessView;

    open spec fn view(&self) -> AccessView {
        match self {
            Access::Allow => AccessView::Allow,
            Access::Deny => AccessView::Deny,
            Access::Check(t) => AccessView::Check(t@),
        }
    }
}

/// The rest of `s` after the prefix `p`, or empty when it lacks it.
pub open spec fn after_prefix(s: Seq<char>, p: Seq<char>) -> Seq<char> {
    if starts_with(s, p) { s.skip(p.len() as int) } else { Seq::empty() }
}

pub(crate) fn strip_prefix_or_empty(s: &str, p: &str) -> (r: String)
    ensures
        r@ == after_prefix(s@, p@),
{
    if starts_with_str(s, p) {
        let v = chars_of(s);
        let w = chars_of(p);
        let r = string_from_range(&v, w.len(), v.len());
        assert(r@ =~= s@.skip(p@.len() as int));
        r
    } else {
        String::new()
    }
}

/// The decision for a request.  `authorization` is the text of its
/// `Authorization` header (empty when that header is not text) and
/// `api_token` that of its `X-API-Token` header; `query` is its query
/// string.  Open and internal paths are decided here (internal ones need
/// the shared token as a bearer token); for the others the token to check
/// is the bearer token, else the API token, else, on the two WebSocket
/// paths, the `token` query parameter.
pub open spec fn access_for(
    path: Seq<char>,
    authorization: Option<Seq<char>>,
    api_token: Option<Seq<char>>,
    query: Option<Seq<char>>,
    internal_token: Seq<char>,
) -> AccessView {
    let has_auth = authorization is Some;
    let auth = match authorization { Some(a) => a, None => Seq::empty() };
    let bearer = after_prefix(auth, "Bearer "@);
    if public_paths().contains(path) || internal_request(path, has_auth) {
        if internal_request(path, has_auth) && bearer != internal_token {
            AccessView::Deny
        } else {
            AccessView::Allow
        }
    } else {
        let t1 = if bearer.len() == 0 {
            match api_token { Some(t) => t, None => bearer }
        } else {
            bearer
        };
        let ws = ends_with(path, "/admin/device-simulator/ws"@) || ends_with(path, "/user/device-chat/ws"@);
        let t2 = if t1.len() == 0 && ws {
            match query_param(query, "token"@) { Some(t) => t, None => t1 }
        } else {
            t1
        };
        AccessView::Check(t2)
    }
}

/// Decides what to do with a request to the console.
pub fn access_decision(
    path: &str,
    authorization: Option<&str>,
    api_token: Option<&str>,
    query: Option<&str>,
    internal_token: &str,
) -> (r: Access)
    ensures
        r@ == access_for(
            path@,
            opt_str(authorization),
            opt_str(api_token),
            opt_str(query),
            internal_token@,
        ),
{
    proof {
        reveal_strlit("");
        assert(""@ =~= Seq::<char>::empty());
    }
    let has_auth = authorization.is_some();
    let auth = match authorization {
        Some(a) => a,
        None => "",
    };
    let bearer = strip_prefix_or_empty(auth, "Bearer ");
    let internal = is_internal(path, has_auth);
    if is_public(path) || internal {
        if internal && !eq_str(bearer.as_str(), internal_token) {
            return Access::Deny;
        }
        return Access::Allow;
    }
    let t1 = if bearer.as_str().is_empty() {
        match api_token {
            Some(t) => owned(t),
            None => bearer,
        }
    } else {
        bearer
    };
    let ws = ends_with_str(path, "/admin/device-simulator/ws") || ends_with_str(path, "/user/device-chat/ws");
    let t2 = if t1.as_str().is_empty() && ws {
        match extract_query_param(query, "token") {
            Some(t) => t,
            None => t1,
        }
    } else {
        t1
    };
    Access::Check(t2)
}

/// Open paths need no credentials: they are let through whatever the
/// headers say, unless they are also internal paths asked with credentials.
pub proof fn law_open_paths_pass(
    path: Seq<char>,
    authorization: Option<Seq<char>>,
    api_token: Option<Seq<char>>,
    query: Option<Seq<char>>,
    internal_token: Seq<char>,
)
    requires
        public_paths().contains(path),
        !internal_request(path, authorization is Some),
    ensures
        access_for(path, authorization, api_token, query, internal_token) == AccessView::Allow,
{
}

/// An internal request passes exactly when its bearer token is the shared
/// token.
pub proof fn law_internal_needs_shared_token(
    path: Seq<char>,
    auth: Seq<char>,
    api_token: Option<Seq<char>>,
    query: Option<Seq<char>>,
    internal_token: Seq<char>,
)
    requires
        internal_request(path, true),
    ensures
        access_for(path, Some(auth), api_token, query, internal_token) == (if after_prefix(auth, "Bearer "@) == internal_token {
            AccessView::Allow
        } else {
            AccessView::Deny
        }),
{
}

/// Every other request is checked, never let through or refused here.
pub proof fn law_other_requests_checked(
    path: Seq<char>,
    authorization: Option<Seq<char>>,
    api_token: Option<Seq<char>>,
    query: Option<Seq<char>>,
    internal_token: Seq<char>,
)
    requires
        !public_paths().contains(path),
        !internal_request(path, authorization is Some),
    ensures
        access_for(path, authorization, api_token, query, internal_token) is Check,
{
}

/// Neither WebSocket path is an open path.
proof fn lemma_ws_paths_not_public(path: Seq<char>)
    requires
        ends_with(path, "/admin/device-simulator/ws"@) || ends_with(path, "/user/device-chat/ws"@),
    ensures
        !public_paths().contains(path),
{
    reveal_strlit("/admin/device-simulator/ws");
    reveal_strlit("/user/device-chat/ws");
    reveal_strlit("/api/setup/status"); reveal_strlit("/api/setup/local-ip"); reveal_strlit("/api/setup/initialize");
    reveal_strlit("/api/login"); reveal_strlit("/api/register"); reveal_strlit("/api/captcha/status");
    reveal_strlit("/api/captcha/challenge"); reveal_strlit("/setup/status"); reveal_strlit("/setup/local-ip");
    reveal_strlit("/setup/initialize"); reveal_strlit("/login"); reveal_strlit("/register");
    reveal_strlit("/captcha/status"); reveal_strlit("/captcha/challenge");
    let a = "/admin/device-simulator/ws"@;
    let u = "/user/device-chat/ws"@;
    if ends_with(path, a) {
        assert(path.skip(path.len() - a.len())[a.len() - 1] == a[a.len() - 1]);
        assert(path.skip(path.len() - a.len())[a.len() - 2] == a[a.len() - 2]);
    } else {
        assert(path.skip(path.len() - u.len())[u.len() - 1] == u[u.len() - 1]);
        assert(path.skip(path.len() - u.len())[u.len() - 2] == u[u.len() - 2]);
    }
    assert(path.len() >= 20);
    assert(path.last() == 's');
    assert(path[path.len() - 2] == 'w');
    let ps = public_paths();
    assert forall|k: int| 0 <= k < ps.len() implies ps[k] != path by {
        if ps[k].len() >= 20 {
            assert(ps[k].last() != 's' || ps[k][ps[k].len() - 2] != 'w');
        }
    }
}

/// On the two WebSocket paths a request without a bearer token or an API
/// token is checked with the `token` parameter of its query string.
pub proof fn law_websocket_query_token(path: Seq<char>, query: Option<Seq<char>>, internal_token: Seq<char>, t: Seq<char>)
    requires
        ends_with(path, "/admin/device-simulator/ws"@) || ends_with(path, "/user/device-chat/ws"@),
        query_param(query, "token"@) == Some(t),
    ensures
        access_for(path, None, None, query, internal_token) == AccessView::Check(t),
{
    lemma_ws_paths_not_public(path);
    reveal_strlit("Bearer ");
    assert(after_prefix(Seq::empty(), "Bearer "@).len() == 0);
}

/// Outside the open and internal paths, a bearer token is what is checked,
/// whatever API token or query string comes with it.
pub proof fn law_bearer_token_checked(
    path: Seq<char>,
    token: Seq<char>,
    api_token: Option<Seq<char>>,
    query: Option<Seq<char>>,
    internal_token: Seq<char>,
)
    requires
        !public_paths().contains(path),
        !internal_request(path, true),
        token.len() > 0,
    ensures
        access_for(path, Some("Bearer "@ + token), api_token, query, internal_token) == AccessView::Check(token),
{
    reveal_strlit("Bearer ");
    assert(starts_with("Bearer "@ + token, "Bearer "@)) by {
        assert(("Bearer "@ + token).subrange(0, 7) =~= "Bearer "@);
    }
    assert(("Bearer "@ + token).skip(7) =~= token);
}

/// Outside the open and internal paths, without an `Authorization` header
/// a non-empty API token is what is checked, whatever the query string.
pub proof fn law_api_token_checked(
    path: Seq<char>,
    api_token: Seq<char>,
    query: Option<Seq<char>>,
    internal_token: Seq<char>,
)
    requires
        !public_paths().contains(path),
        api_token.len() > 0,
    ensures
        access_for(path, None, Some(api_token), query, internal_token) == AccessView::Check(api_token),
{
    reveal_strlit("Bearer ");
}

} // verus!
