//! Merging services imported from MCP markets into the manual MCP
//! configuration.
use vstd::prelude::*;
use crate::manager::mcp::streamable_alias;
use crate::json_fields::{
    canonical_json, element_pointer, element_pointer_of, flag_at, json_array_len, json_array_length, json_at,
    json_canonical, json_flag_at, json_member_set_at, json_quote, json_quoted, json_text_at, json_value_at,
    read_json_pointer, set_json_member_at, text_at,
    value_text_at, JsonField, JsonFieldView,
};
use crate::manager::mcp::{collect_enabled_server_names, enabled_server_names, strictly_sorted};
use crate::manager::records::ConfigRow;
use crate::text::{concat, concat3, contains, join, contains_str, eq_str, lowercase, opt_view, owned, to_lowercase, trim, trim_str};

verus! {

broadcast use vstd::string::group_string_axioms;

/// The transport an imported service is merged with: `sse` or
/// `streamablehttp` as named, else guessed from its address (`/sse`,
/// `streamable`), else the name given (trimmed, lower-cased), which the
/// merge then skips.
pub open spec fn merged_transport(transport: Seq<char>, url: Seq<char>) -> Seq<char> {
    let t = lowercase(trim(transport));
    if t == "sse"@ {
        "sse"@
    } else if streamable_alias(t) {
        "streamablehttp"@
    } else if contains(lowercase(url), "/sse"@) {
        "sse"@
    } else if contains(lowercase(url), "streamable"@) {
        "streamablehttp"@
    } else {
        t
    }
}

/// Normalises the transport of an imported service for the merge.
pub fn normalize_imported_transport(transport: &str, url: &str) -> (r: String)
    ensures
        r@ == merged_transport(transport@, url@),
{
    let t = to_lowercase(trim_str(transport).as_str());
    if eq_str(t.as_str(), "sse") {
        return owned("sse");
    }
    if eq_str(t.as_str(), "streamablehttp") || eq_str(t.as_str(), "streamable_http")
        || eq_str(t.as_str(), "streamable-http") || eq_str(t.as_str(), "http") {
        return owned("streamablehttp");
    }
    let lower = to_lowercase(url);
    if contains_str(lower.as_str(), "/sse") {
        owned("sse")
    } else if contains_str(lower.as_str(), "streamable") {
        owned("streamablehttp")
    } else {
        t
    }
}

/// Whether the merge takes a service with this transport.
pub fn mergeable_transport(transport: &str) -> (r: bool)
    ensures
        r == (transport@ == "sse"@ || transport@ == "streamablehttp"@),
{
    eq_str(transport, "sse") || eq_str(transport, "streamablehttp")
}

/// The warning for a service skipped because its address is configured
/// by hand already.
pub fn url_conflict_warning(name: &str) -> (r: String)
    ensures
        r@ == "市场服务 "@ + name@ + " 因 URL 与人工配置冲突被跳过"@,
{
    crate::text::concat3("市场服务 ", name, " 因 URL 与人工配置冲突被跳过")
}


// ---------------------------------------------------------------------------
// The manual configuration
// ---------------------------------------------------------------------------

/// The MCP configuration row in use: the default one, else the first.
pub open spec fn selected_row_index(rows: Seq<ConfigRow>) -> Option<int> {
    if exists|i: int| 0 <= i < rows.len() && rows[i].is_default {
        Some(choose|i: int| 0 <= i < rows.len() && rows[i].is_default
            && forall|j: int| 0 <= j < i ==> !rows[j].is_default)
    } else if rows.len() > 0 {
        Some(0)
    } else {
        None
    }
}

/// The `mcp` block of a stored configuration: its `mcp` member when it has
/// one, else the whole document (`{}` when the text is not JSON), as
/// `serde_json` writes it.
pub open spec fn mcp_block_of(json_data: Seq<char>) -> Seq<char> {
    match value_text_at(json_data, "/mcp"@) {
        Some(t) => t,
        None => match canonical_json(json_data) {
            Some(t) => t,
            None => "{}"@,
        },
    }
}

fn mcp_block(json_data: &str) -> (r: String)
    ensures
        r@ == mcp_block_of(json_data@),
{
    proof {
        reveal_strlit("/mcp");
        reveal_strlit("{}");
    }
    match json_value_at(json_data, "/mcp") {
        Some(t) => t,
        None => match json_canonical(json_data) {
            Some(t) => t,
            None => owned("{}"),
        },
    }
}

/// Finds the MCP configuration row in use.
pub fn selected_mcp_row(rows: &Vec<ConfigRow>) -> (r: Option<usize>)
    ensures
        match r {
            Some(i) => i < rows.len() && selected_row_index(rows@) == Some(i as int),
            None => selected_row_index(rows@) is None,
        },
{
    let mut i: usize = 0;
    while i < rows.len()
        invariant
            0 <= i <= rows.len(),
            forall|j: int| 0 <= j < i ==> !rows@[j].is_default,
        decreases rows.len() - i,
    {
        if rows[i].is_default {
            proof {
                let k = i as int;
                assert(0 <= k < rows@.len() && rows@[k].is_default);
                let c = choose|c: int| 0 <= c < rows@.len() && rows@[c].is_default
                    && forall|j: int| 0 <= j < c ==> !rows@[j].is_default;
                assert(0 <= k < rows@.len() && rows@[k].is_default && forall|j: int| 0 <= j < k ==> !rows@[j].is_default);
                if c < k {
                    assert(!rows@[c].is_default);
                } else if c > k {
                    assert(!rows@[k].is_default);
                }
            }
            return Some(i);
        }
        i = i + 1;
    }
    if rows.len() > 0 {
        Some(0)
    } else {
        None
    }
}

/// The manual MCP configuration offered to agents: the `mcp` block of the
/// row in use, or, without rows, an enabled configuration with no servers.
pub open spec fn manual_mcp_of(rows: Seq<ConfigRow>) -> Seq<char> {
    match selected_row_index(rows) {
        Some(i) => mcp_block_of(rows[i].json_data@),
        None => "{\"global\":{\"enabled\":true,\"servers\":[]}}"@,
    }
}

/// Reads the manual MCP configuration offered to agents.
pub fn manual_mcp_config(rows: &Vec<ConfigRow>) -> (r: String)
    ensures
        r@ == manual_mcp_of(rows@),
{
    proof {
        reveal_strlit("{\"global\":{\"enabled\":true,\"servers\":[]}}");
    }
    match selected_mcp_row(rows) {
        Some(i) => mcp_block(rows[i].json_data.as_str()),
        None => owned("{\"global\":{\"enabled\":true,\"servers\":[]}}"),
    }
}

/// The addresses (`url`, then `sse_url`, where strings) of the servers of
/// the first `n` entries of the array at `at`, in order.
pub open spec fn server_addresses(cfg: Seq<char>, at: Seq<char>, n: nat) -> Seq<Seq<char>>
    decreases n,
{
    if n == 0 {
        Seq::empty()
    } else {
        let e = element_pointer(at, n - 1);
        let rest = server_addresses(cfg, at, (n - 1) as nat);
        let with_url = match text_at(cfg, e + "/url"@) {
            Some(u) => rest.push(u),
            None => rest,
        };
        match text_at(cfg, e + "/sse_url"@) {
            Some(u) => with_url.push(u),
            None => with_url,
        }
    }
}

/// The addresses of the servers of an MCP block (`global.servers`).
pub open spec fn manual_addresses(block: Seq<char>) -> Seq<Seq<char>> {
    match json_array_length(block, "/global/servers"@) {
        Some(n) => server_addresses(block, "/global/servers"@, n as nat),
        None => Seq::empty(),
    }
}

/// Lists the addresses of the manual servers of an MCP block; the market
/// module's address normaliser turns them into the set imports are
/// checked against.
pub fn manual_server_addresses(block: &str) -> (r: Vec<String>)
    ensures
        r@.map_values(|u: String| u@) == manual_addresses(block@),
{
    proof {
        reveal_strlit("/global/servers");
    }
    let n = match json_array_len(block, "/global/servers") {
        Some(n) => n,
        None => return Vec::new(),
    };
    let mut out: Vec<String> = Vec::new();
    let mut i: usize = 0;
    while i < n
        invariant
            0 <= i <= n,
            json_array_length(block@, "/global/servers"@) == Some(n),
            out@.map_values(|u: String| u@) == server_addresses(block@, "/global/servers"@, i as nat),
        decreases n - i,
    {
        proof {
            reveal_strlit("/global/servers");
            reveal_strlit("/url");
            reveal_strlit("/sse_url");
        }
        let e = element_pointer_of("/global/servers", i);
        let ghost before = out@.map_values(|u: String| u@);
        let u1 = concat(e.as_str(), "/url");
        match json_text_at(block, u1.as_str()) {
            Some(u) => {
                out.push(u);
            },
            None => {},
        }
        let ghost mid = out@.map_values(|u: String| u@);
        proof {
            match text_at(block@, e@ + "/url"@) {
                Some(u) => assert(mid =~= before.push(u)),
                None => assert(mid =~= before),
            }
        }
        let u2 = concat(e.as_str(), "/sse_url");
        match json_text_at(block, u2.as_str()) {
            Some(u) => {
                out.push(u);
            },
            None => {},
        }
        proof {
            let after = out@.map_values(|u: String| u@);
            match text_at(block@, e@ + "/sse_url"@) {
                Some(u) => assert(after =~= mid.push(u)),
                None => assert(after =~= mid),
            }
        }
        i = i + 1;
    }
    out
}

/// The address fingerprint an imported service row records, if any.
pub fn imported_row_url_hash(row: &ConfigRow) -> (r: Option<String>)
    ensures
        opt_view(r) == text_at(row.json_data@, "/url_hash"@),
{
    json_text_at(row.json_data.as_str(), "/url_hash")
}


// ---------------------------------------------------------------------------
// Merging imported services
// ---------------------------------------------------------------------------

/// An imported service row, with the normalised form of its address: what
/// the market module's address normaliser gives for the trimmed `url` of
/// the row's JSON.
#[derive(Debug, Clone)]
pub struct ImportedService {
    pub row: ConfigRow,
    pub normalized_url: String,
}

/// A text member of a service's JSON, or empty.
pub open spec fn member_text(data: Seq<char>, at: Seq<char>) -> Seq<char> {
    match text_at(data, at) {
        Some(t) => t,
        None => Seq::empty(),
    }
}

/// The tool list a merged server keeps: the service's `allowed_tools` when
/// it is a non-empty array.
pub open spec fn kept_tools(data: Seq<char>) -> Option<Seq<char>> {
    match json_array_length(data, "/allowed_tools"@) {
        Some(n) => if n > 0 { value_text_at(data, "/allowed_tools"@) } else { None },
        None => None,
    }
}

/// The headers a merged server keeps: the service's `headers` when they
/// are a non-empty object.
pub open spec fn kept_headers(data: Seq<char>) -> Option<Seq<char>> {
    if json_at(data, "/headers"@) == Some(JsonFieldView::Object) {
        match value_text_at(data, "/headers"@) {
            Some(h) => if h == "{}"@ { None } else { Some(h) },
            None => None,
        }
    } else {
        None
    }
}

/// The JSON of the server an imported service becomes.
pub open spec fn server_json(name: Seq<char>, transport: Seq<char>, url: Seq<char>, data: Seq<char>) -> Seq<char> {
    "{"@ + match kept_tools(data) {
        Some(t) => "\"allowed_tools\":"@ + t + ","@,
        None => Seq::empty(),
    } + "\"enabled\":true,"@ + match kept_headers(data) {
        Some(h) => "\"headers\":"@ + h + ","@,
        None => Seq::empty(),
    } + "\"name\":"@ + json_quoted(name) + ",\"provider\":\"mcp-market\",\"service_id\":"@
        + json_quoted(member_text(data, "/service_id"@)) + (if transport == "sse"@ {
        ",\"sse_url\":"@ + json_quoted(url)
    } else {
        Seq::empty()
    }) + ",\"type\":"@ + json_quoted(transport) + ",\"url\":"@ + json_quoted(url) + "}"@
}

/// The servers, taken addresses and warnings of a merge so far.
pub type MergeState = (Seq<Seq<char>>, Seq<Seq<char>>, Seq<Seq<char>>);

/// One imported service merged in: a disabled one, or one without an
/// address, is skipped; one whose address is taken is skipped with a
/// warning; one whose transport is neither `sse` nor `streamablehttp` is
/// skipped; any other becomes a server and takes its address.
pub open spec fn merge_step(st: MergeState, row: ConfigRow, norm: Seq<char>) -> MergeState {
    let data = row.json_data@;
    let url = trim(member_text(data, "/url"@));
    let transport = merged_transport(member_text(data, "/transport"@), url);
    if !row.enabled || flag_at(data, "/enabled"@) == Some(false) || norm.len() == 0 {
        st
    } else if st.1.contains(norm) {
        (st.0, st.1, st.2.push("市场服务 "@ + row.name@ + " 因 URL 与人工配置冲突被跳过"@))
    } else if !(transport == "sse"@ || transport == "streamablehttp"@) {
        st
    } else {
        (st.0.push(server_json(row.name@, transport, url, data)), st.1.push(norm), st.2)
    }
}

/// The services merged in, in order.
pub open spec fn merge_all(st: MergeState, svcs: Seq<ImportedService>) -> MergeState
    decreases svcs.len(),
{
    if svcs.len() == 0 {
        st
    } else {
        merge_step(merge_all(st, svcs.drop_last()), svcs.last().row, svcs.last().normalized_url@)
    }
}

/// The servers of the first `n` entries of the array at `at`, as written.
pub open spec fn element_texts(cfg: Seq<char>, at: Seq<char>, n: nat) -> Seq<Seq<char>>
    decreases n,
{
    if n == 0 {
        Seq::empty()
    } else {
        let rest = element_texts(cfg, at, (n - 1) as nat);
        match value_text_at(cfg, element_pointer(at, n - 1)) {
            Some(t) => rest.push(t),
            None => rest,
        }
    }
}

/// The servers an MCP block lists already.
pub open spec fn existing_servers(block: Seq<char>) -> Seq<Seq<char>> {
    match json_array_length(block, "/global/servers"@) {
        Some(n) => element_texts(block, "/global/servers"@, n as nat),
        None => Seq::empty(),
    }
}

/// The manual configuration with the imported services merged in, and the
/// warnings for services skipped over taken addresses.  Without a `global`
/// object the configuration is kept and nothing is merged.
pub open spec fn merged_config(manual: Seq<char>, manual_urls: Seq<Seq<char>>, svcs: Seq<ImportedService>) -> (Seq<char>, Seq<Seq<char>>) {
    if json_at(manual, "/global"@) != Some(JsonFieldView::Object) {
        (manual, Seq::empty())
    } else {
        let fin = merge_all((existing_servers(manual), manual_urls, Seq::empty()), svcs);
        let servers = "["@ + join(fin.0, ","@) + "]"@;
        (match json_member_set_at(manual, "/global"@, "servers"@, servers) {
            Some(t) => t,
            None => manual,
        }, fin.2)
    }
}

pub(crate) fn has_text(v: &Vec<String>, s: &str) -> (r: bool)
    ensures
        r == v@.map_values(|t: String| t@).contains(s@),
{
    let mut i: usize = 0;
    while i < v.len()
        invariant
            0 <= i <= v.len(),
            forall|j: int| 0 <= j < i ==> v@[j]@ != s@,
        decreases v.len() - i,
    {
        if eq_str(v[i].as_str(), s) {
            assert(v@.map_values(|t: String| t@)[i as int] == s@);
            return true;
        }
        i = i + 1;
    }
    proof {
        let m = v@.map_values(|t: String| t@);
        if m.contains(s@) {
            let j = choose|j: int| 0 <= j < m.len() && m[j] == s@;
            assert(v@[j]@ == s@);
        }
    }
    false
}

fn push_opt(out: String, head: &str, item: Option<String>, tail: &str) -> (r: String)
    ensures
        r@ == out@ + match item {
            Some(t) => head@ + t@ + tail@,
            None => Seq::empty(),
        },
{
    match item {
        Some(t) => {
            let a = concat3(out.as_str(), head, t.as_str());
            concat(a.as_str(), tail)
        },
        None => out,
    }
}

/// Writes the server an imported service becomes.
fn write_server(name: &str, transport: &str, url: &str, data: &str) -> (r: String)
    ensures
        r@ == server_json(name@, transport@, url@, data@),
{
    proof {
        reveal_strlit("/allowed_tools");
        reveal_strlit("/headers");
        reveal_strlit("/service_id");
        reveal_strlit("{}");
        reveal_strlit("sse");
    }
    let tools = match json_array_len(data, "/allowed_tools") {
        Some(n) => if n > 0 { json_value_at(data, "/allowed_tools") } else { None },
        None => None,
    };
    let headers = match read_json_pointer(data, "/headers") {
        Some(JsonField::Object) => match json_value_at(data, "/headers") {
            Some(h) => if eq_str(h.as_str(), "{}") { None } else { Some(h) },
            None => None,
        },
        _ => None,
    };
    let sid = match json_text_at(data, "/service_id") {
        Some(t) => t,
        None => String::new(),
    };
    let qn = json_quote(name);
    let qs = json_quote(sid.as_str());
    let qt = json_quote(transport);
    let qu = json_quote(url);
    let a = push_opt(owned("{"), "\"allowed_tools\":", tools, ",");
    let b = concat(a.as_str(), "\"enabled\":true,");
    let c = push_opt(b, "\"headers\":", headers, ",");
    let d = concat3(c.as_str(), "\"name\":", qn.as_str());
    let e = concat3(d.as_str(), ",\"provider\":\"mcp-market\",\"service_id\":", qs.as_str());
    let sse = if eq_str(transport, "sse") { Some(owned(url)) } else { None };
    let f = push_opt(e, ",\"sse_url\":", match sse {
        Some(_) => Some(json_quote(url)),
        None => None,
    }, "");
    let g = concat3(f.as_str(), ",\"type\":", qt.as_str());
    let h = concat3(g.as_str(), ",\"url\":", qu.as_str());
    let r = concat(h.as_str(), "}");
    proof {
        reveal_strlit("{");
        reveal_strlit("\"allowed_tools\":");
        reveal_strlit(",");
        reveal_strlit("\"enabled\":true,");
        reveal_strlit("\"headers\":");
        reveal_strlit("\"name\":");
        reveal_strlit(",\"provider\":\"mcp-market\",\"service_id\":");
        reveal_strlit(",\"sse_url\":");
        reveal_strlit("");
        reveal_strlit(",\"type\":");
        reveal_strlit(",\"url\":");
        reveal_strlit("}");
        assert(r@ =~= server_json(name@, transport@, url@, data@));
    }
    r
}

/// Merges the enabled imported services into the manual MCP configuration
/// (JSON text): each becomes a server of `global.servers` unless its
/// address is taken, by a manual server (`manual_urls`, the normalised
/// addresses of the manual servers) or by a service merged before it.
/// Gives the merged configuration and the warnings for skipped services.
pub fn merge_mcp_with_enabled_imported_services(
    manual_mcp: &str,
    manual_urls: &Vec<String>,
    imported: &Vec<ImportedService>,
) -> (r: (String, Vec<String>))
    ensures
        (r.0@, r.1@.map_values(|w: String| w@)) == merged_config(
            manual_mcp@,
            manual_urls@.map_values(|u: String| u@),
            imported@,
        ),
{
    proof {
        reveal_strlit("/global");
        reveal_strlit("/global/servers");
    }
    match read_json_pointer(manual_mcp, "/global") {
        Some(JsonField::Object) => {},
        _ => {
            let ghost w: Seq<Seq<char>> = Seq::empty();
            let empty: Vec<String> = Vec::new();
            assert(empty@.map_values(|w: String| w@) =~= w);
            return (owned(manual_mcp), empty);
        },
    }
    let mut servers: Vec<String> = Vec::new();
    let n = match json_array_len(manual_mcp, "/global/servers") {
        Some(n) => n,
        None => 0,
    };
    let mut i: usize = 0;
    while i < n
        invariant
            0 <= i <= n,
            json_array_length(manual_mcp@, "/global/servers"@) == Some(n) || n == 0,
            servers@.map_values(|t: String| t@) == element_texts(manual_mcp@, "/global/servers"@, i as nat),
        decreases n - i,
    {
        proof {
            reveal_strlit("/global/servers");
        }
        let e = element_pointer_of("/global/servers", i);
        match json_value_at(manual_mcp, e.as_str()) {
            Some(t) => {
                servers.push(t);
                proof {
                    assert(servers@.map_values(|t: String| t@) =~= element_texts(manual_mcp@, "/global/servers"@, i as nat).push(t@));
                }
            },
            None => {},
        }
        i = i + 1;
    }
    proof {
        if json_array_length(manual_mcp@, "/global/servers"@) is None {
            assert(servers@.map_values(|t: String| t@) =~= existing_servers(manual_mcp@));
        }
    }
    let mut urls: Vec<String> = manual_urls.clone();
    let mut warnings: Vec<String> = Vec::new();
    let ghost init: MergeState = (existing_servers(manual_mcp@), manual_urls@.map_values(|u: String| u@), Seq::empty());
    proof {
        assert(warnings@.map_values(|w: String| w@) =~= Seq::<Seq<char>>::empty());
        assert(urls@.map_values(|u: String| u@) =~= manual_urls@.map_values(|u: String| u@));
        assert(imported@.take(0) =~= Seq::<ImportedService>::empty());
    }
    let mut k: usize = 0;
    while k < imported.len()
        invariant
            0 <= k <= imported.len(),
            merge_all(init, imported@.take(k as int)) == (
                servers@.map_values(|t: String| t@),
                urls@.map_values(|u: String| u@),
                warnings@.map_values(|w: String| w@),
            ),
        decreases imported.len() - k,
    {
        let svc = &imported[k];
        let ghost st: MergeState = (
            servers@.map_values(|t: String| t@),
            urls@.map_values(|u: String| u@),
            warnings@.map_values(|w: String| w@),
        );
        proof {
            assert(imported@.take(k + 1).drop_last() =~= imported@.take(k as int));
            assert(imported@.take(k + 1).last() == imported@[k as int]);
            reveal_strlit("/url");
            reveal_strlit("/transport");
            reveal_strlit("/enabled");
            reveal_strlit("sse");
            reveal_strlit("streamablehttp");
        }
        let data = svc.row.json_data.as_str();
        let norm = svc.normalized_url.as_str();
        let off = match json_flag_at(data, "/enabled") {
            Some(b) => !b,
            None => false,
        };
        if !svc.row.enabled || off || norm.is_empty() {
            k = k + 1;
            continue;
        }
        if has_text(&urls, norm) {
            let w = url_conflict_warning(svc.row.name.as_str());
            warnings.push(w);
            proof {
                assert(warnings@.map_values(|w: String| w@) =~= st.2.push(w@));
            }
            k = k + 1;
            continue;
        }
        let url_text = match json_text_at(data, "/url") {
            Some(t) => t,
            None => String::new(),
        };
        let url = trim_str(url_text.as_str());
        let tr = match json_text_at(data, "/transport") {
            Some(t) => t,
            None => String::new(),
        };
        let transport = normalize_imported_transport(tr.as_str(), url.as_str());
        if !mergeable_transport(transport.as_str()) {
            k = k + 1;
            continue;
        }
        let server = write_server(svc.row.name.as_str(), transport.as_str(), url.as_str(), data);
        servers.push(server);
        urls.push(owned(norm));
        proof {
            assert(servers@.map_values(|t: String| t@) =~= st.0.push(server@));
            assert(urls@.map_values(|u: String| u@) =~= st.1.push(norm@));
        }
        k = k + 1;
    }
    proof {
        assert(imported@.take(imported.len() as int) =~= imported@);
    }
    let items = crate::text::join_strings(&servers, ",");
    let arr = concat3("[", items.as_str(), "]");
    proof {
        reveal_strlit("[");
        reveal_strlit("]");
        reveal_strlit(",");
        reveal_strlit("servers");
    }
    let merged = match set_json_member_at(manual_mcp, "/global", "servers", arr.as_str()) {
        Some(t) => t,
        None => owned(manual_mcp),
    };
    (merged, warnings)
}

/// The names agents may pick from: those of the enabled servers of the
/// manual configuration in use (see `manual_mcp_config`) with the imported
/// services merged in, each once, in string order.
pub fn list_enabled_global_mcp_service_names(
    rows: &Vec<ConfigRow>,
    manual_urls: &Vec<String>,
    imported: &Vec<ImportedService>,
) -> (r: Result<Vec<String>, String>)
    ensures
        r matches Ok(names) && {
            let v = names@.map_values(|s: String| s@);
            &&& strictly_sorted(v)
            &&& v.to_set() == enabled_server_names(
                merged_config(manual_mcp_of(rows@), manual_urls@.map_values(|u: String| u@), imported@).0,
            )
        },
{
    let manual = manual_mcp_config(rows);
    let (merged, _) = merge_mcp_with_enabled_imported_services(manual.as_str(), manual_urls, imported);
    collect_enabled_server_names(merged.as_str())
}


/// A merge takes each address at most once: the addresses taken after
/// merging are those taken before followed by the new ones, which are
/// pairwise different and none of which was taken before; no server is
/// dropped, and each new server comes with one new address.
pub proof fn law_merge_takes_addresses_once(st: MergeState, svcs: Seq<ImportedService>)
    ensures
        ({
            let fin = merge_all(st, svcs);
            &&& fin.1.len() >= st.1.len()
            &&& fin.1.subrange(0, st.1.len() as int) == st.1
            &&& fin.0.len() - st.0.len() == fin.1.len() - st.1.len()
            &&& fin.0.subrange(0, st.0.len() as int) == st.0
            &&& forall|i: int, j: int| st.1.len() <= i < j < fin.1.len() ==> fin.1[i] != fin.1[j]
            &&& forall|i: int, j: int| 0 <= i < st.1.len() <= j < fin.1.len() ==> fin.1[i] != fin.1[j]
        }),
    decreases svcs.len(),
{
    if svcs.len() > 0 {
        law_merge_takes_addresses_once(st, svcs.drop_last());
        let prev = merge_all(st, svcs.drop_last());
        let fin = merge_all(st, svcs);
        let norm = svcs.last().normalized_url@;
        assert(fin == merge_step(prev, svcs.last().row, norm));
        if fin.1 != prev.1 {
            assert(fin.1 == prev.1.push(norm));
            assert(!prev.1.contains(norm));
            assert forall|i: int| 0 <= i < prev.1.len() implies prev.1[i] != norm by {
                if prev.1[i] == norm {
                    assert(prev.1.contains(norm));
                }
            }
            assert(fin.1.subrange(0, st.1.len() as int) =~= prev.1.subrange(0, st.1.len() as int));
            assert(fin.0.subrange(0, st.0.len() as int) =~= prev.0.subrange(0, st.0.len() as int));
        }
    } else {
        assert(st.1.subrange(0, st.1.len() as int) =~= st.1);
        assert(st.0.subrange(0, st.0.len() as int) =~= st.0);
    }
}

} // verus!
