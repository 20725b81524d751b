//! Saving MCP services imported from a market: the row an imported
//! service is stored as, taking over what an edit leaves out from the row
//! it replaces.
use vstd::prelude::*;
use crate::json_fields::{
    flag_at, json_flag_at, json_i64_at, json_quote, json_quoted, json_signed_at, json_text_at,
    text_at,
};
use crate::manager::mcp::{imported_name, imported_transport, normalize_imported_name, normalize_imported_transport, url_hash};
use crate::manager::records::ConfigRow;
use crate::manager::records::ConfigInput;
use crate::manager::requests::McpMarketSaveBody;
use crate::text::{concat, concat3, decimal, i64_to_string, join, join_strings, owned, take_chars, take_chars_str, trim, trim_str};

verus! {

broadcast use vstd::string::group_string_axioms;

/// What an administrator saves for an imported service.
#[derive(Debug, Clone)]
pub struct ImportedServiceSaveBody {
    pub name: String,
    pub enabled: Option<bool>,
    pub transport: String,
    pub url: String,
    pub allowed_tools: Option<Vec<String>>,
    pub market_id: Option<i64>,
    pub provider_id: String,
    pub service_id: String,
    pub service_name: String,
    pub auth_required: Option<bool>,
    pub source_url: String,
}

/// The strings of the array at a pointer, when it is an array of strings.
pub uninterp spec fn string_array_at(text: Seq<char>, pointer: Seq<char>) -> Option<Seq<Seq<char>>>;

/// Parses `text` with `serde_json`, goes to `pointer` with
/// `Value::pointer` and reads the value there with
/// `serde_json::from_value::<Vec<String>>`.  The contract names the result.
#[verifier::external_body]
fn json_string_array_at(text: &str, pointer: &str) -> (r: Option<Vec<String>>)
    ensures
        match r {
            Some(v) => string_array_at(text@, pointer@) == Some(v@.map_values(|s: String| s@)),
            None => string_array_at(text@, pointer@) is None,
        },
{
    let v: serde_json::Value = serde_json::from_str(text).ok()?;
    serde_json::from_value::<Vec<String>>(v.pointer(pointer)?.clone()).ok()
}

/// A text of the edit, trimmed, or the stored one when the edit leaves it
/// blank.
pub open spec fn kept_text(given: Seq<char>, stored_json: Seq<char>, at: Seq<char>) -> Seq<char> {
    if trim(given).len() > 0 {
        trim(given)
    } else {
        match text_at(stored_json, at) {
            Some(t) => t,
            None => Seq::empty(),
        }
    }
}

fn keep_text(given: &str, stored_json: &str, at: &str) -> (r: String)
    ensures
        r@ == kept_text(given@, stored_json@, at@),
{
    let t = trim_str(given);
    if !t.as_str().is_empty() {
        t
    } else {
        match json_text_at(stored_json, at) {
            Some(s) => s,
            None => String::new(),
        }
    }
}

/// The JSON of a list of strings.
pub open spec fn string_list_json(items: Seq<Seq<char>>) -> Seq<char> {
    "["@ + join(items.map_values(|s: Seq<char>| json_quoted(s)), ","@) + "]"@
}

fn write_string_list(items: &Vec<String>) -> (r: String)
    ensures
        r@ == string_list_json(items@.map_values(|s: String| s@)),
{
    let mut quoted: Vec<String> = Vec::new();
    let mut i: usize = 0;
    while i < items.len()
        invariant
            0 <= i <= items.len(),
            quoted@.map_values(|q: String| q@)
                == items@.take(i as int).map_values(|s: String| s@).map_values(|s: Seq<char>| json_quoted(s)),
        decreases items.len() - i,
    {
        let q = json_quote(items[i].as_str());
        let ghost prev = quoted@;
        quoted.push(q);
        proof {
            let want = items@.take(i + 1).map_values(|s: String| s@).map_values(|s: Seq<char>| json_quoted(s));
            let have = quoted@.map_values(|q: String| q@);
            assert(prev.map_values(|q: String| q@).len() == i);
            assert(want.len() == i + 1);
            assert forall|j: int| 0 <= j < have.len() implies have[j] == want[j] by {
                if j < i {
                    assert(have[j] == prev.map_values(|q: String| q@)[j]);
                    assert(items@.take(i + 1)[j] == items@.take(i as int)[j]);
                } else {
                    assert(items@.take(i + 1)[j] == items@[i as int]);
                }
            }
            assert(have =~= want);
        }
        i = i + 1;
    }
    proof {
        assert(items@.take(items.len() as int) =~= items@);
    }
    let inner = join_strings(&quoted, ",");
    concat3("[", inner.as_str(), "]")
}

/// The JSON an imported service row stores, members in `serde_json`'s
/// order: `tools` (the JSON of the allowed tool names), `headers` and
/// `market` are JSON texts put in as they are, the rest are strings.
pub open spec fn service_json(
    tools: Seq<char>,
    auth: bool,
    headers: Seq<char>,
    market: Seq<char>,
    provider: Seq<char>,
    service_id: Seq<char>,
    service_name: Seq<char>,
    source_url: Seq<char>,
    transport: Seq<char>,
    url: Seq<char>,
    hash: Seq<char>,
) -> Seq<char> {
    "{\"allowed_tools\":"@ + tools + ",\"auth_required\":"@ + (if auth { "true"@ } else { "false"@ })
        + ",\"headers\":"@ + headers + ",\"market_id\":"@ + market
        + ",\"provider_id\":"@ + json_quoted(provider)
        + ",\"service_id\":"@ + json_quoted(service_id)
        + ",\"service_name\":"@ + json_quoted(service_name)
        + ",\"source_url\":"@ + json_quoted(source_url)
        + ",\"transport\":"@ + json_quoted(transport) + ",\"url\":"@ + json_quoted(url) + ",\"url_hash\":"@
        + json_quoted(hash) + "}"@
}

/// Writes the JSON an imported service row stores.
fn write_service_json(
    tools: &str,
    auth: bool,
    headers: &str,
    market: &str,
    provider: &str,
    service_id: &str,
    service_name: &str,
    source_url: &str,
    transport: &str,
    url: &str,
    hash: &str,
) -> (r: String)
    ensures
        r@ == service_json(tools@, auth, headers@, market@, provider@, service_id@, service_name@, source_url@,
            transport@, url@, hash@),
{
    let a = concat3("{\"allowed_tools\":", tools, ",\"auth_required\":");
    let b = concat3(a.as_str(), if auth { "true" } else { "false" }, ",\"headers\":");
    let c = concat3(b.as_str(), headers, ",\"market_id\":");
    let qp = json_quote(provider);
    let d = concat3(c.as_str(), market, ",\"provider_id\":");
    let qs = json_quote(service_id);
    let e = concat3(d.as_str(), qp.as_str(), ",\"service_id\":");
    let qn = json_quote(service_name);
    let f = concat3(e.as_str(), qs.as_str(), ",\"service_name\":");
    let qo = json_quote(source_url);
    let g = concat3(f.as_str(), qn.as_str(), ",\"source_url\":");
    let qt = json_quote(transport);
    let h = concat3(g.as_str(), qo.as_str(), ",\"transport\":");
    let qu = json_quote(url);
    let k = concat3(h.as_str(), qt.as_str(), ",\"url\":");
    let qh = json_quote(hash);
    let l = concat3(k.as_str(), qu.as_str(), ",\"url_hash\":");
    let json = concat3(l.as_str(), qh.as_str(), "}");
    proof {
        reveal_strlit("{\"allowed_tools\":");
        reveal_strlit(",\"auth_required\":");
        reveal_strlit("true");
        reveal_strlit("false");
        reveal_strlit(",\"headers\":");
        reveal_strlit(",\"market_id\":");
        reveal_strlit(",\"provider_id\":");
        reveal_strlit(",\"service_id\":");
        reveal_strlit(",\"service_name\":");
        reveal_strlit(",\"source_url\":");
        reveal_strlit(",\"transport\":");
        reveal_strlit(",\"url\":");
        reveal_strlit(",\"url_hash\":");
        reveal_strlit("}");
    }
    assert(json@ =~= service_json(tools@, auth, headers@, market@, provider@, service_id@, service_name@,
        source_url@, transport@, url@, hash@));
    json
}

/// The fields of an imported service as saved, given the JSON of the row
/// it replaces (`stored`, empty for a new one): the edit's choice of
/// authentication and tools, else the stored ones, else authentication
/// required and no tools; the market id given, else the stored one; the
/// provider, service and source given (trimmed), else the stored ones.
pub open spec fn imported_json(
    b: ImportedServiceSaveBody,
    stored: Seq<char>,
    transport: Seq<char>,
    url: Seq<char>,
    hash: Seq<char>,
    headers: Seq<char>,
) -> Seq<char> {
    let auth = match b.auth_required {
        Some(a) => a,
        None => match flag_at(stored, "/auth_required"@) {
            Some(a) => a,
            None => true,
        },
    };
    let tools = match b.allowed_tools {
        Some(t) => t@.map_values(|s: String| s@),
        None => match string_array_at(stored, "/allowed_tools"@) {
            Some(t) => t,
            None => Seq::empty(),
        },
    };
    service_json(
        string_list_json(tools),
        auth,
        headers,
        match market_of(b, stored) {
            Some(m) => decimal(m as int),
            None => "null"@,
        },
        kept_text(b.provider_id@, stored, "/provider_id"@),
        kept_text(b.service_id@, stored, "/service_id"@),
        kept_text(b.service_name@, stored, "/service_name"@),
        kept_text(b.source_url@, stored, "/source_url"@),
        transport,
        url,
        hash,
    )
}

/// The market an imported service comes from: the edit's, else the
/// stored one.
pub open spec fn market_of(b: ImportedServiceSaveBody, stored: Seq<char>) -> Option<i64> {
    match b.market_id {
        Some(m) => Some(m),
        None => json_signed_at(stored, "/market_id"@),
    }
}

/// The stored JSON of the row an edit replaces (empty for a new one).
pub open spec fn stored_json(existing: Option<ConfigRow>) -> Seq<char> {
    match existing {
        Some(r) => r.json_data@,
        None => Seq::empty(),
    }
}

/// Builds the row an imported service is saved as.  `existing` is the row
/// it replaces, `normalized_url` the market module's normalised form of
/// the trimmed address (its fingerprint is recorded), `headers` the JSON of
/// the request headers the service is called with.  Refused when the
/// transport is not known or the address is blank.  A new row's id is
/// `imported_<market>_<first 8 characters of the fingerprint>`.
pub fn build_imported_service_input(
    body: &ImportedServiceSaveBody,
    existing: Option<&ConfigRow>,
    normalized_url: &str,
    headers: &str,
) -> (r: Result<ConfigInput, String>)
    ensures
        ({
            let ex = match existing { Some(e) => Some(*e), None => None };
            let stored = stored_json(ex);
            let url = trim(body.url@);
            let hash = crate::codec::sha256_hex(normalized_url@);
            match imported_transport(body.transport@, body.url@) {
                Err(e) => r matches Err(m) && m@ == e,
                Ok(t) => if url.len() == 0 {
                    r matches Err(m) && m@ == "url 不能为空"@
                } else {
                    r matches Ok(c) && {
                        &&& c.kind@ == "mcp_imported"@
                        &&& c.name@ == imported_name(body.name@, body.service_name@, body.service_id@, url,
                            match ex { Some(e) => Some(e.name@), None => None })
                        &&& c.config_id@ == match ex {
                            Some(e) => if e.config_id@.len() > 0 {
                                e.config_id@
                            } else {
                                "imported_"@ + decimal(match market_of(*body, stored) { Some(m) => m as int, None => 0 })
                                    + "_"@ + take_chars(hash, 8)
                            },
                            None => "imported_"@ + decimal(match market_of(*body, stored) { Some(m) => m as int, None => 0 })
                                + "_"@ + take_chars(hash, 8),
                        }
                        &&& c.provider@ == kept_text(body.provider_id@, stored, "/provider_id"@)
                        &&& c.json_data@ == imported_json(*body, stored, t, url, hash, headers@)
                        &&& c.enabled == match body.enabled {
                            Some(b) => b,
                            None => match ex { Some(e) => e.enabled, None => true },
                        }
                        &&& !c.is_default
                    }
                },
            }
        }),
{
    let transport = normalize_imported_transport(body.transport.as_str(), body.url.as_str())?;
    let stored = match existing {
        Some(e) => owned(e.json_data.as_str()),
        None => String::new(),
    };
    let url = trim_str(body.url.as_str());
    if url.as_str().is_empty() {
        return Err(owned("url 不能为空"));
    }
    let hash = url_hash(normalized_url);
    proof {
        reveal_strlit("/auth_required");
        reveal_strlit("/allowed_tools");
        reveal_strlit("/market_id");
        reveal_strlit("/provider_id");
        reveal_strlit("/service_id");
        reveal_strlit("/service_name");
        reveal_strlit("/source_url");
    }
    let auth = match body.auth_required {
        Some(a) => a,
        None => match json_flag_at(stored.as_str(), "/auth_required") {
            Some(a) => a,
            None => true,
        },
    };
    let tools: Vec<String> = match &body.allowed_tools {
        Some(t) => t.clone(),
        None => match json_string_array_at(stored.as_str(), "/allowed_tools") {
            Some(t) => t,
            None => Vec::new(),
        },
    };
    let market = match body.market_id {
        Some(m) => Some(m),
        None => json_i64_at(stored.as_str(), "/market_id"),
    };
    let provider_id = keep_text(body.provider_id.as_str(), stored.as_str(), "/provider_id");
    let service_id = keep_text(body.service_id.as_str(), stored.as_str(), "/service_id");
    let service_name = keep_text(body.service_name.as_str(), stored.as_str(), "/service_name");
    let source_url = keep_text(body.source_url.as_str(), stored.as_str(), "/source_url");
    let enabled = match body.enabled {
        Some(b) => b,
        None => match existing {
            Some(e) => e.enabled,
            None => true,
        },
    };
    let name = normalize_imported_name(
        body.name.as_str(),
        body.service_name.as_str(),
        body.service_id.as_str(),
        url.as_str(),
        match existing {
            Some(e) => Some(e.name.as_str()),
            None => None,
        },
    );
    let market_text = match market {
        Some(m) => i64_to_string(m),
        None => owned("null"),
    };
    let tools_text = write_string_list(&tools);
    let json = write_service_json(
        tools_text.as_str(),
        auth,
        headers,
        market_text.as_str(),
        provider_id.as_str(),
        service_id.as_str(),
        service_name.as_str(),
        source_url.as_str(),
        transport.as_str(),
        url.as_str(),
        hash.as_str(),
    );
    let ghost ex = match existing { Some(e) => Some(*e), None => None };
    proof {
        reveal_strlit("null");
        reveal_strlit("");
        assert(stored@ == stored_json(ex));
        assert(json@ =~= imported_json(*body, stored@, transport@, url@, hash@, headers@));
    }
    let fresh_id = {
        let m = i64_to_string(match market {
            Some(m) => m,
            None => 0,
        });
        let head = concat3("imported_", m.as_str(), "_");
        let short = take_chars_str(hash.as_str(), 8);
        concat(head.as_str(), short.as_str())
    };
    proof {
        reveal_strlit("imported_");
        reveal_strlit("_");
    }
    let config_id = match existing {
        Some(e) => if e.config_id.as_str().is_empty() { fresh_id } else { owned(e.config_id.as_str()) },
        None => fresh_id,
    };
    Ok(ConfigInput {
        kind: owned("mcp_imported"),
        name,
        config_id,
        provider: provider_id,
        json_data: json,
        enabled,
        is_default: false,
    })
}


// ---------------------------------------------------------------------------
// Markets
// ---------------------------------------------------------------------------

/// A text of a market form: trimmed, or `default` when blank.
pub open spec fn or_default(given: Seq<char>, default: Seq<char>) -> Seq<char> {
    if trim(given).len() > 0 { trim(given) } else { default }
}

/// The JSON a market is stored with: its name, provider, catalogue and
/// detail addresses (trimmed), whether it is enabled, and its
/// authentication: the type (`bearer` when blank), the token (the one kept
/// from before when blank) and the header (`Authorization` when blank).
pub open spec fn market_json(b: McpMarketSaveBody, kept_token: Option<Seq<char>>) -> Seq<char> {
    let token = if trim(b.auth.token@).len() > 0 {
        trim(b.auth.token@)
    } else {
        match kept_token {
            Some(t) => t,
            None => Seq::empty(),
        }
    };
    "{\"auth\":{\"header_name\":"@ + json_quoted(or_default(b.auth.header_name@, "Authorization"@))
        + ",\"token\":"@ + json_quoted(token) + ",\"type\":"@ + json_quoted(or_default(b.auth.kind@, "bearer"@))
        + "},\"catalog_url\":"@ + json_quoted(trim(b.catalog_url@)) + ",\"detail_url_template\":"@
        + json_quoted(trim(b.detail_url_template@)) + ",\"enabled\":"@ + (if b.enabled { "true"@ } else { "false"@ })
        + ",\"name\":"@ + json_quoted(trim(b.name@)) + ",\"provider_id\":"@ + json_quoted(trim(b.provider_id@)) + "}"@
}

fn text_or(given: &str, default: &str) -> (r: String)
    ensures
        r@ == or_default(given@, default@),
{
    let t = trim_str(given);
    if t.as_str().is_empty() { owned(default) } else { t }
}

/// Writes the JSON a market is stored with; `kept_token` is the token the
/// market had before, if it is being edited.
pub fn build_market_json_data(body: &McpMarketSaveBody, kept_token: Option<&str>) -> (r: String)
    ensures
        r@ == market_json(*body, match kept_token { Some(t) => Some(t@), None => None }),
{
    let t = trim_str(body.auth.token.as_str());
    let token = if t.as_str().is_empty() {
        match kept_token {
            Some(k) => owned(k),
            None => String::new(),
        }
    } else {
        t
    };
    let header = json_quote(text_or(body.auth.header_name.as_str(), "Authorization").as_str());
    let qtoken = json_quote(token.as_str());
    let kind = json_quote(text_or(body.auth.kind.as_str(), "bearer").as_str());
    let catalog = json_quote(trim_str(body.catalog_url.as_str()).as_str());
    let detail = json_quote(trim_str(body.detail_url_template.as_str()).as_str());
    let name = json_quote(trim_str(body.name.as_str()).as_str());
    let provider = json_quote(trim_str(body.provider_id.as_str()).as_str());
    let a = concat3("{\"auth\":{\"header_name\":", header.as_str(), ",\"token\":");
    let b = concat3(a.as_str(), qtoken.as_str(), ",\"type\":");
    let c = concat3(b.as_str(), kind.as_str(), "},\"catalog_url\":");
    let d = concat3(c.as_str(), catalog.as_str(), ",\"detail_url_template\":");
    let e = concat3(d.as_str(), detail.as_str(), ",\"enabled\":");
    let f = concat3(e.as_str(), if body.enabled { "true" } else { "false" }, ",\"name\":");
    let g = concat3(f.as_str(), name.as_str(), ",\"provider_id\":");
    let r = concat3(g.as_str(), provider.as_str(), "}");
    proof {
        reveal_strlit("Authorization");
        reveal_strlit("bearer");
        reveal_strlit("{\"auth\":{\"header_name\":");
        reveal_strlit(",\"token\":");
        reveal_strlit(",\"type\":");
        reveal_strlit("},\"catalog_url\":");
        reveal_strlit(",\"detail_url_template\":");
        reveal_strlit(",\"enabled\":");
        reveal_strlit("true");
        reveal_strlit("false");
        reveal_strlit(",\"name\":");
        reveal_strlit(",\"provider_id\":");
        reveal_strlit("}");
        reveal_strlit("");
        assert(r@ =~= market_json(*body, match kept_token { Some(t) => Some(t@), None => None }));
    }
    r
}

/// Builds the row a market is saved as.  `provider` is the market module's
/// normalised provider id; `existing` is the row an edit replaces, whose
/// id and default flag are kept (an empty id becomes
/// `mcp_market_<provider>`), and `kept_token` its token.  A market needs a
/// name and a catalogue address.
pub fn market_config_input(
    body: &McpMarketSaveBody,
    provider: &str,
    existing: Option<&ConfigRow>,
    kept_token: Option<&str>,
) -> (r: Result<ConfigInput, String>)
    ensures
        trim(body.name@).len() == 0 || trim(body.catalog_url@).len() == 0 ==> (r matches Err(m)
            && m@ == "名称和目录 URL 不能为空"@),
        trim(body.name@).len() > 0 && trim(body.catalog_url@).len() > 0 ==> (r matches Ok(c) && {
            &&& c.kind@ == "mcp_market"@
            &&& c.name@ == trim(body.name@)
            &&& c.config_id@ == match existing {
                Some(e) => if e.config_id@.len() > 0 { e.config_id@ } else { "mcp_market_"@ + provider@ },
                None => "mcp_market_"@ + provider@,
            }
            &&& c.provider@ == provider@
            &&& c.json_data@ == market_json(*body, match kept_token { Some(t) => Some(t@), None => None })
            &&& c.enabled == body.enabled
            &&& c.is_default == match existing { Some(e) => e.is_default, None => false }
        }),
{
    let name = trim_str(body.name.as_str());
    if name.as_str().is_empty() || trim_str(body.catalog_url.as_str()).as_str().is_empty() {
        return Err(owned("名称和目录 URL 不能为空"));
    }
    let fresh = concat("mcp_market_", provider);
    let (config_id, is_default) = match existing {
        Some(e) => (if e.config_id.as_str().is_empty() { fresh } else { owned(e.config_id.as_str()) }, e.is_default),
        None => (fresh, false),
    };
    Ok(ConfigInput {
        kind: owned("mcp_market"),
        name,
        config_id,
        provider: owned(provider),
        json_data: build_market_json_data(body, kept_token),
        enabled: body.enabled,
        is_default,
    })
}

// ---------------------------------------------------------------------------
// Importing a market service
// ---------------------------------------------------------------------------

/// An address a market service can be reached at: its `url`, the market
/// module's normalised form of it (whose fingerprint is recorded), its
/// transport, the JSON of the request headers it is called with (the
/// market's authentication merged in), and whether it asks for
/// authentication.
#[derive(Debug, Clone)]
pub struct ImportEndpoint {
    pub url: String,
    pub normalized_url: String,
    pub transport: String,
    pub headers_json: String,
    pub auth_required: bool,
}

/// What the market says of the service being imported.
#[derive(Debug, Clone)]
pub struct ServiceDetail {
    pub service_id: String,
    pub name: String,
    pub source_url: String,
}

/// The plain content of a configuration to be stored: type, name, id,
/// provider, JSON, enabled, default.
pub type InputView = (Seq<char>, Seq<char>, Seq<char>, Seq<char>, Seq<char>, bool, bool);

/// The plain content of a configuration to be stored.
pub open spec fn input_view(c: ConfigInput) -> InputView {
    (c.kind@, c.name@, c.config_id@, c.provider@, c.json_data@, c.enabled, c.is_default)
}

/// An address is left out when its normalised form is a manual MCP
/// server's, or an imported service already records its fingerprint.
pub open spec fn endpoint_skipped(ep: ImportEndpoint, manual: Seq<Seq<char>>, existing: Seq<ConfigRow>) -> bool {
    manual.contains(ep.normalized_url@)
        || crate::manager::mcp::hash_taken(existing, crate::codec::sha256_hex(ep.normalized_url@), None)
}

/// The name asked for the address at `idx` of `n`: the base, or, when
/// there are several, the base followed by `-` and the address's number
/// (from 1).
pub open spec fn endpoint_base(base: Seq<char>, n: nat, idx: nat) -> Seq<char> {
    if n > 1 { base + "-"@ + crate::text::digits(idx + 1) } else { base }
}

/// The row an address is imported as, under `name`: an enabled
/// `mcp_imported` configuration with id
/// `imported_<market>_<first 8 characters of the fingerprint>`.
pub open spec fn import_row(
    ep: ImportEndpoint,
    name: Seq<char>,
    market_id: i64,
    provider_id: Seq<char>,
    svc: ServiceDetail,
) -> InputView {
    let hash = crate::codec::sha256_hex(ep.normalized_url@);
    (
        "mcp_imported"@,
        name,
        "imported_"@ + decimal(market_id as int) + "_"@ + take_chars(hash, 8),
        provider_id,
        service_json("[]"@, ep.auth_required, ep.headers_json@, decimal(market_id as int), provider_id,
            svc.service_id@, svc.name@, svc.source_url@, ep.transport@, ep.url@, hash),
        true,
        false,
    )
}

/// The first `k` addresses imported in turn: the rows made, the names in
/// use after them (those of the existing rows first), and whether an
/// address was left out.
pub open spec fn import_plan(
    eps: Seq<ImportEndpoint>,
    manual: Seq<Seq<char>>,
    existing: Seq<ConfigRow>,
    base: Seq<char>,
    market_id: i64,
    provider_id: Seq<char>,
    svc: ServiceDetail,
    k: nat,
) -> (Seq<InputView>, Seq<Seq<char>>, bool)
    decreases k,
{
    if k == 0 {
        (Seq::empty(), existing.map_values(|r: ConfigRow| r.name@), false)
    } else {
        let prev = import_plan(eps, manual, existing, base, market_id, provider_id, svc, (k - 1) as nat);
        let ep = eps[k - 1];
        if endpoint_skipped(ep, manual, existing) {
            (prev.0, prev.1, true)
        } else {
            let name = crate::manager::mcp::unique_name(prev.1.to_set(), endpoint_base(base, eps.len(), (k - 1) as nat));
            (prev.0.push(import_row(ep, name, market_id, provider_id, svc)), prev.1.push(name), prev.2)
        }
    }
}

/// What importing a service gives: the rows of its addresses that are not
/// left out; when there are none, a conflict naming the manual servers if
/// an address was left out.
pub open spec fn service_import(
    eps: Seq<ImportEndpoint>,
    manual: Seq<Seq<char>>,
    existing: Seq<ConfigRow>,
    base: Seq<char>,
    market_id: i64,
    provider_id: Seq<char>,
    svc: ServiceDetail,
) -> Result<Seq<InputView>, Seq<char>> {
    let p = import_plan(eps, manual, existing, base, market_id, provider_id, svc, eps.len());
    if p.0.len() == 0 {
        Err(if p.2 { "所有可导入地址均已存在或与人工 MCP 配置冲突"@ } else { "所有可导入地址均已存在或冲突"@ })
    } else {
        Ok(p.0)
    }
}

fn hash_recorded(rows: &Vec<ConfigRow>, hash: &str) -> (r: bool)
    ensures
        r == crate::manager::mcp::hash_taken(rows@, hash@, None),
{
    let mut i: usize = 0;
    while i < rows.len()
        invariant
            i <= rows.len(),
            forall|j: int| 0 <= j < i ==> text_at(rows@[j].json_data@, "/url_hash"@) != Some(hash@),
        decreases rows.len() - i,
    {
        match crate::manager::mcp_imported_merge::imported_row_url_hash(&rows[i]) {
            Some(h) => {
                if crate::text::eq_str(h.as_str(), hash) {
                    return true;
                }
            },
            None => {},
        }
        i = i + 1;
    }
    false
}

/// Plans the import of a market service's addresses (`endpoints`, in
/// order): each address that is not left out (see `endpoint_skipped`;
/// `manual_urls` are the normalised addresses of the manual MCP servers,
/// `existing` the imported service rows) becomes a row named by
/// `resolve_unique_name` among the names in use so far; `base_name` is
/// the name asked for.
pub fn plan_service_import(
    endpoints: &Vec<ImportEndpoint>,
    manual_urls: &Vec<String>,
    existing: &Vec<ConfigRow>,
    base_name: &str,
    market_id: i64,
    provider_id: &str,
    service: &ServiceDetail,
) -> (r: Result<Vec<ConfigInput>, String>)
    requires
        existing@.len() + endpoints@.len() + 2 <= usize::MAX,
    ensures
        match (r, service_import(endpoints@, manual_urls@.map_values(|u: String| u@), existing@, base_name@,
            market_id, provider_id@, *service)) {
            (Ok(v), Ok(want)) => v@.map_values(|c: ConfigInput| input_view(c)) == want,
            (Err(m), Err(want)) => m@ == want,
            _ => false,
        },
{
    let ghost manual = manual_urls@.map_values(|u: String| u@);
    let mut used: Vec<String> = Vec::new();
    let mut j: usize = 0;
    while j < existing.len()
        invariant
            j <= existing@.len(),
            used@.map_values(|u: String| u@) == existing@.take(j as int).map_values(|r: ConfigRow| r.name@),
        decreases existing.len() - j,
    {
        let ghost before = used@.map_values(|u: String| u@);
        used.push(owned(existing[j].name.as_str()));
        assert(used@.map_values(|u: String| u@) =~= existing@.take(j + 1).map_values(|r: ConfigRow| r.name@)) by {
            assert(existing@.take(j + 1).map_values(|r: ConfigRow| r.name@) =~= before.push(existing@[j as int].name@));
        }
        j = j + 1;
    }
    assert(existing@.take(existing@.len() as int) =~= existing@);
    let n = endpoints.len();
    let mut out: Vec<ConfigInput> = Vec::new();
    let mut skipped = false;
    let mut i: usize = 0;
    proof {
        reveal_strlit("mcp_imported");
        reveal_strlit("imported_");
        reveal_strlit("_");
        reveal_strlit("-");
        reveal_strlit("[]");
    }
    while i < n
        invariant
            i <= n == endpoints@.len(),
            existing@.len() + endpoints@.len() + 2 <= usize::MAX,
            used@.len() <= existing@.len() + i,
            manual == manual_urls@.map_values(|u: String| u@),
            ({
                let p = import_plan(endpoints@, manual, existing@, base_name@, market_id, provider_id@, *service, i as nat);
                &&& out@.map_values(|c: ConfigInput| input_view(c)) == p.0
                &&& used@.map_values(|u: String| u@) == p.1
                &&& skipped == p.2
            }),
        decreases n - i,
    {
        let ep = &endpoints[i];
        let hash = crate::manager::mcp::url_hash(ep.normalized_url.as_str());
        let skip = crate::manager::mcp_imported_merge::has_text(manual_urls, ep.normalized_url.as_str())
            || hash_recorded(existing, hash.as_str());
        if skip {
            skipped = true;
        } else {
            let base = if n > 1 {
                let k = crate::text::u64_to_string((i + 1) as u64);
                concat3(base_name, "-", k.as_str())
            } else {
                owned(base_name)
            };
            let name = crate::manager::mcp::resolve_unique_name(&used, base.as_str());
            let market = i64_to_string(market_id);
            let head = concat3("imported_", market.as_str(), "_");
            let short = take_chars_str(hash.as_str(), 8);
            let config_id = concat(head.as_str(), short.as_str());
            let json = write_service_json(
                "[]",
                ep.auth_required,
                ep.headers_json.as_str(),
                market.as_str(),
                provider_id,
                service.service_id.as_str(),
                service.name.as_str(),
                service.source_url.as_str(),
                ep.transport.as_str(),
                ep.url.as_str(),
                hash.as_str(),
            );
            let row = ConfigInput {
                kind: owned("mcp_imported"),
                name: owned(name.as_str()),
                config_id,
                provider: owned(provider_id),
                json_data: json,
                enabled: true,
                is_default: false,
            };
            proof {
                let p = import_plan(endpoints@, manual, existing@, base_name@, market_id, provider_id@, *service, i as nat);
                let want = crate::manager::mcp::unique_name(p.1.to_set(), endpoint_base(base_name@, endpoints@.len(), i as nat));
                assert(base@ == endpoint_base(base_name@, endpoints@.len(), i as nat));
                assert(crate::manager::mcp::first_free(p.1.to_set(), base@, want));
                crate::manager::mcp::lemma_first_free_unique(p.1.to_set(), base@, name@, want);
                assert(input_view(row) == import_row(endpoints@[i as int], name@, market_id, provider_id@, *service));
            }
            let ghost before_out = out@.map_values(|c: ConfigInput| input_view(c));
            let ghost before_used = used@.map_values(|u: String| u@);
            out.push(row);
            used.push(name);
            assert(out@.map_values(|c: ConfigInput| input_view(c)) =~= before_out.push(input_view(out@[out@.len() - 1])));
            assert(used@.map_values(|u: String| u@) =~= before_used.push(used@[used@.len() - 1]@));
        }
        i = i + 1;
    }
    if out.len() == 0 {
        if skipped {
            return Err(owned("所有可导入地址均已存在或与人工 MCP 配置冲突"));
        }
        return Err(owned("所有可导入地址均已存在或冲突"));
    }
    Ok(out)
}

} // verus!
