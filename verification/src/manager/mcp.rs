//! MCP server settings: the global server list of an MCP configuration,
//! the names an agent can pick from, and the normalisation of imported
//! market services.
use vstd::prelude::*;
use crate::json_fields::{
    element_pointer, element_pointer_of, flag_at, json_array_len, json_array_length, json_at,
    json_flag_at, json_string_members, json_text_at, read_json_pointer, string_members, text_at,
    JsonField, JsonFieldView,
};
use crate::text::{
    concat, contains, contains_str, ends_with, ends_with_str, eq_str, lex_less,
    lemma_lex_less_order, lemma_lex_less_total, lowercase, owned, str_less, to_lowercase, trim,
    trim_str,
};

verus! {

broadcast use vstd::string::group_string_axioms;

/// A server of the global MCP list, as probed: name, transport, address
/// and the string-valued headers.
#[derive(Debug, Clone)]
pub struct McpServerEntry {
    pub name: String,
    pub transport: String,
    pub url: String,
    pub headers: Vec<(String, String)>,
}

/// The plain content of a server entry.
pub type EntryView = (Seq<char>, Seq<char>, Seq<char>, Seq<(Seq<char>, Seq<char>)>);

impl View for McpServerEntry {
    type V = EntryView;

    open spec fn view(&self) -> EntryView {
        (self.name@, self.transport@, self.url@, self.headers@.map_values(|h: (String, String)| (h.0@, h.1@)))
    }
}

/// Where the server list is: under `mcp.global` when that member exists,
/// else under `global`.
pub open spec fn servers_pointer(cfg: Seq<char>) -> Seq<char> {
    match json_at(cfg, "/mcp/global/servers"@) {
        Some(JsonFieldView::Absent) => "/global/servers"@,
        None => "/global/servers"@,
        _ => "/mcp/global/servers"@,
    }
}

/// A text member with a fallback.
pub open spec fn text_or(cfg: Seq<char>, p: Seq<char>, default: Seq<char>) -> Seq<char> {
    match text_at(cfg, p) {
        Some(t) => t,
        None => default,
    }
}

/// A server's entry: its name (or `未命名`), its `type` (or, when that is
/// missing, its `transport`; `sse` when not text), its `url` and headers.
pub open spec fn server_entry(cfg: Seq<char>, p: Seq<char>) -> EntryView {
    let transport = match json_at(cfg, p + "/type"@) {
        Some(JsonFieldView::Absent) => text_or(cfg, p + "/transport"@, "sse"@),
        None => text_or(cfg, p + "/transport"@, "sse"@),
        Some(JsonFieldView::Text(t)) => t,
        _ => "sse"@,
    };
    (
        text_or(cfg, p + "/name"@, "未命名"@),
        transport,
        text_or(cfg, p + "/url"@, Seq::empty()),
        string_members(cfg, p + "/headers"@),
    )
}

/// A server is enabled unless its `enabled` is `false`.
pub open spec fn server_enabled(cfg: Seq<char>, p: Seq<char>) -> bool {
    match flag_at(cfg, p + "/enabled"@) {
        Some(b) => b,
        None => true,
    }
}

/// The entries of the enabled servers among the first `n`, in order.
pub open spec fn enabled_servers(cfg: Seq<char>, base: Seq<char>, n: nat) -> Seq<EntryView>
    decreases n,
{
    if n == 0 {
        Seq::empty()
    } else {
        let rest = enabled_servers(cfg, base, (n - 1) as nat);
        let p = element_pointer(base, n - 1);
        if server_enabled(cfg, p) { rest.push(server_entry(cfg, p)) } else { rest }
    }
}

/// The enabled servers of a configuration's global list.
pub open spec fn global_servers(cfg: Seq<char>) -> Seq<EntryView> {
    let base = servers_pointer(cfg);
    match json_array_length(cfg, base) {
        Some(n) => enabled_servers(cfg, base, n as nat),
        None => Seq::empty(),
    }
}

fn text_or_exec(cfg: &str, p: &str, default: &str) -> (r: String)
    ensures
        r@ == text_or(cfg@, p@, default@),
{
    match json_text_at(cfg, p) {
        Some(t) => t,
        None => owned(default),
    }
}

/// Lists the enabled servers of an MCP configuration (JSON text).
pub fn extract_global_servers(cfg: &str) -> (r: Vec<McpServerEntry>)
    ensures
        r@.map_values(|e: McpServerEntry| e@) == global_servers(cfg@),
{
    proof {
        reveal_strlit("/mcp/global/servers");
        reveal_strlit("/global/servers");
    }
    let base = match read_json_pointer(cfg, "/mcp/global/servers") {
        Some(JsonField::Absent) => "/global/servers",
        None => "/global/servers",
        _ => "/mcp/global/servers",
    };
    let mut out: Vec<McpServerEntry> = Vec::new();
    let n = match json_array_len(cfg, base) {
        Some(n) => n,
        None => {
            assert(out@.map_values(|e: McpServerEntry| e@) =~= Seq::empty());
            return out;
        },
    };
    let mut i: usize = 0;
    while i < n
        invariant
            i <= n,
            base@ == servers_pointer(cfg@),
            json_array_length(cfg@, base@) == Some(n),
            out@.map_values(|e: McpServerEntry| e@) == enabled_servers(cfg@, base@, i as nat),
        decreases n - i,
    {
        let p = element_pointer_of(base, i);
        let enabled = match json_flag_at(cfg, concat(p.as_str(), "/enabled").as_str()) {
            Some(b) => b,
            None => true,
        };
        if enabled {
            let type_p = concat(p.as_str(), "/type");
            let transport_p = concat(p.as_str(), "/transport");
            let transport = match read_json_pointer(cfg, type_p.as_str()) {
                Some(JsonField::Absent) => text_or_exec(cfg, transport_p.as_str(), "sse"),
                None => text_or_exec(cfg, transport_p.as_str(), "sse"),
                Some(JsonField::Text(t)) => t,
                _ => owned("sse"),
            };
            let name = text_or_exec(cfg, concat(p.as_str(), "/name").as_str(), "未命名");
            let url = text_or_exec(cfg, concat(p.as_str(), "/url").as_str(), "");
            let headers = json_string_members(cfg, concat(p.as_str(), "/headers").as_str());
            let e = McpServerEntry { name, transport, url, headers };
            proof {
                reveal_strlit("");
                assert(""@ =~= Seq::<char>::empty());
            }
            assert(e@ == server_entry(cfg@, p@));
            let ghost before = out@.map_values(|e: McpServerEntry| e@);
            out.push(e);
            assert(out@.map_values(|e: McpServerEntry| e@) =~= before.push(e@));
        }
        i = i + 1;
    }
    out
}

// ---------------------------------------------------------------------------
// Names an agent can pick
// ---------------------------------------------------------------------------

/// The name a server is offered under, if it is: its trimmed `name` when
/// that is not blank and the server is not disabled.
pub open spec fn offered_name(cfg: Seq<char>, p: Seq<char>) -> Option<Seq<char>> {
    let name = trim(text_or(cfg, p + "/name"@, Seq::empty()));
    if name.len() == 0 || flag_at(cfg, p + "/enabled"@) == Some(false) { None } else { Some(name) }
}

/// The names offered by the first `n` servers of the list at `base`.
pub open spec fn offered_names(cfg: Seq<char>, base: Seq<char>, n: nat) -> Set<Seq<char>>
    decreases n,
{
    if n == 0 {
        Set::empty()
    } else {
        let rest = offered_names(cfg, base, (n - 1) as nat);
        match offered_name(cfg, element_pointer(base, n - 1)) {
            Some(name) => rest.insert(name),
            None => rest,
        }
    }
}

/// The names offered by a merged MCP configuration: none when `global` is
/// not an object or is disabled.
pub open spec fn enabled_server_names(cfg: Seq<char>) -> Set<Seq<char>> {
    if json_at(cfg, "/global"@) != Some(JsonFieldView::Object) || flag_at(cfg, "/global/enabled"@) == Some(false) {
        Set::empty()
    } else {
        match json_array_length(cfg, "/global/servers"@) {
            Some(n) => offered_names(cfg, "/global/servers"@, n as nat),
            None => Set::empty(),
        }
    }
}

/// Strictly increasing in string order (so without repeats).
pub open spec fn strictly_sorted(s: Seq<Seq<char>>) -> bool {
    forall|i: int, j: int| 0 <= i < j < s.len() ==> lex_less(s[i], s[j])
}

/// Puts `name` into a sorted list, unless it is there already.
fn insert_sorted(names: &mut Vec<String>, name: String)
    requires
        strictly_sorted(old(names)@.map_values(|s: String| s@)),
    ensures
        strictly_sorted(final(names)@.map_values(|s: String| s@)),
        final(names)@.map_values(|s: String| s@).to_set() == old(names)@.map_values(|s: String| s@).to_set().insert(name@),
{
    let ghost s = names@.map_values(|x: String| x@);
    let mut i: usize = 0;
    while i < names.len() && str_less(names[i].as_str(), name.as_str())
        invariant
            i <= names.len(),
            s == names@.map_values(|x: String| x@),
            strictly_sorted(s),
            forall|j: int| 0 <= j < i ==> lex_less(s[j], name@),
        decreases names.len() - i,
    {
        assert(s[i as int] == names@[i as int]@);
        i = i + 1;
    }
    if i < names.len() && eq_str(names[i].as_str(), name.as_str()) {
        proof {
            assert(s[i as int] == name@);
            assert(s.to_set().insert(name@) =~= s.to_set());
        }
        return;
    }
    proof {
        if i < names.len() {
            assert(s[i as int] == names@[i as int]@);
            lemma_lex_less_total(s[i as int], name@);
        }
    }
    names.insert(i, name);
    let ghost t = names@.map_values(|x: String| x@);
    assert(t =~= s.insert(i as int, name@));
    assert forall|a: int, b: int| 0 <= a < b < t.len() implies lex_less(t[a], t[b]) by {
        if a < i && b == i {
        } else if a < i && b > i {
            lemma_lex_less_order(t[a], name@, t[b]);
        } else if a == i && b > i {
            lemma_lex_less_order(name@, s[i as int], t[b]);
            if b > i + 1 {
                assert(lex_less(s[i as int], s[b - 1]));
            }
        }
    }
    assert(t.to_set() =~= s.to_set().insert(name@)) by {
        assert forall|x: Seq<char>| t.to_set().contains(x) <==> s.to_set().insert(name@).contains(x) by {
            if t.to_set().contains(x) {
                let k = choose|k: int| 0 <= k < t.len() && t[k] == x;
                if k < i {
                    assert(s[k] == x);
                } else if k > i {
                    assert(s[k - 1] == x);
                }
            }
            if s.to_set().contains(x) {
                let k = choose|k: int| 0 <= k < s.len() && s[k] == x;
                if k < i {
                    assert(t[k] == x);
                } else {
                    assert(t[k + 1] == x);
                }
            }
            if x == name@ {
                assert(t[i as int] == x);
            }
        }
    }
}

/// The names of the enabled servers of a merged MCP configuration (JSON
/// text), each once, in string order.
pub fn collect_enabled_server_names(mcp_map: &str) -> (r: Result<Vec<String>, String>)
    ensures
        r matches Ok(names) && {
            let v = names@.map_values(|s: String| s@);
            &&& strictly_sorted(v)
            &&& v.to_set() == enabled_server_names(mcp_map@)
        },
{
    proof {
        reveal_strlit("/global");
        reveal_strlit("/global/enabled");
        reveal_strlit("/global/servers");
        reveal_strlit("");
        assert(""@ =~= Seq::<char>::empty());
    }
    let mut names: Vec<String> = Vec::new();
    assert(names@.map_values(|s: String| s@).to_set() =~= Set::<Seq<char>>::empty());
    let is_object = match read_json_pointer(mcp_map, "/global") {
        Some(JsonField::Object) => true,
        _ => false,
    };
    if !is_object || json_flag_at(mcp_map, "/global/enabled") == Some(false) {
        return Ok(names);
    }
    let n = match json_array_len(mcp_map, "/global/servers") {
        Some(n) => n,
        None => return Ok(names),
    };
    let mut i: usize = 0;
    while i < n
        invariant
            i <= n,
            json_array_length(mcp_map@, "/global/servers"@) == Some(n),
            strictly_sorted(names@.map_values(|s: String| s@)),
            names@.map_values(|s: String| s@).to_set() == offered_names(mcp_map@, "/global/servers"@, i as nat),
        decreases n - i,
    {
        proof {
            reveal_strlit("");
            assert(""@ =~= Seq::<char>::empty());
        }
        let p = element_pointer_of("/global/servers", i);
        let name = trim_str(text_or_exec(mcp_map, concat(p.as_str(), "/name").as_str(), "").as_str());
        let disabled = json_flag_at(mcp_map, concat(p.as_str(), "/enabled").as_str()) == Some(false);
        if !name.as_str().is_empty() && !disabled {
            insert_sorted(&mut names, name);
        }
        i = i + 1;
    }
    Ok(names)
}

// ---------------------------------------------------------------------------
// Imported market services
// ---------------------------------------------------------------------------

/// The transport names accepted for streamable HTTP.
pub open spec fn streamable_alias(t: Seq<char>) -> bool {
    t == "streamablehttp"@ || t == "streamable_http"@ || t == "streamable-http"@ || t == "http"@
}

/// An imported service's transport: `sse` or `streamablehttp` as named,
/// else guessed from its address (`/sse`; `streamable` or a `/mcp` end);
/// refused when neither tells.
pub open spec fn imported_transport(transport: Seq<char>, url: Seq<char>) -> Result<Seq<char>, Seq<char>> {
    let t = lowercase(trim(transport));
    if t == "sse"@ {
        Ok("sse"@)
    } else if streamable_alias(t) {
        Ok("streamablehttp"@)
    } else {
        let lower = lowercase(url);
        if contains(lower, "/sse"@) {
            Ok("sse"@)
        } else if contains(lower, "streamable"@) || ends_with(lower, "/mcp"@) {
            Ok("streamablehttp"@)
        } else {
            Err("transport 仅支持 sse/streamablehttp"@)
        }
    }
}

/// Normalises the transport of a service being imported.
pub fn normalize_imported_transport(transport: &str, url: &str) -> (r: Result<String, String>)
    ensures
        match r {
            Ok(t) => imported_transport(transport@, url@) == Ok::<Seq<char>, Seq<char>>(t@),
            Err(e) => imported_transport(transport@, url@) == Err::<Seq<char>, Seq<char>>(e@),
        },
{
    let t = to_lowercase(trim_str(transport).as_str());
    let ts = t.as_str();
    if eq_str(ts, "sse") {
        return Ok(owned("sse"));
    }
    if eq_str(ts, "streamablehttp") || eq_str(ts, "streamable_http") || eq_str(ts, "streamable-http") || eq_str(ts, "http") {
        return Ok(owned("streamablehttp"));
    }
    let lower = to_lowercase(url);
    if contains_str(lower.as_str(), "/sse") {
        Ok(owned("sse"))
    } else if contains_str(lower.as_str(), "streamable") || ends_with_str(lower.as_str(), "/mcp") {
        Ok(owned("streamablehttp"))
    } else {
        Err(owned("transport 仅支持 sse/streamablehttp"))
    }
}

/// The name of an imported service: the given name, else the service's
/// name, else its id, else the name it already had; trimmed; else its
/// address.
pub open spec fn imported_name(
    name: Seq<char>,
    service_name: Seq<char>,
    service_id: Seq<char>,
    url: Seq<char>,
    existing: Option<Seq<char>>,
) -> Seq<char> {
    if trim(name).len() > 0 {
        trim(name)
    } else if trim(service_name).len() > 0 {
        trim(service_name)
    } else if trim(service_id).len() > 0 {
        trim(service_id)
    } else if existing is Some && trim(existing.unwrap()).len() > 0 {
        trim(existing.unwrap())
    } else {
        url
    }
}

/// Chooses the name of an imported service.
pub fn normalize_imported_name(
    name: &str,
    service_name: &str,
    service_id: &str,
    url: &str,
    existing_name: Option<&str>,
) -> (r: String)
    ensures
        r@ == imported_name(name@, service_name@, service_id@, url@, match existing_name {
            Some(e) => Some(e@),
            None => None,
        }),
{
    let n = trim_str(name);
    if !n.as_str().is_empty() {
        return n;
    }
    let s = trim_str(service_name);
    if !s.as_str().is_empty() {
        return s;
    }
    let d = trim_str(service_id);
    if !d.as_str().is_empty() {
        return d;
    }
    if let Some(existing) = existing_name {
        let e = trim_str(existing);
        if !e.as_str().is_empty() {
            return e;
        }
    }
    owned(url)
}

// ---------------------------------------------------------------------------
// Unique names
// ---------------------------------------------------------------------------

/// The `k`-th name tried for `base`: `base` itself, then `base-2`,
/// `base-3`, ...
pub open spec fn candidate(base: Seq<char>, k: nat) -> Seq<char> {
    if k <= 1 { base } else { base + "-"@ + crate::text::digits(k) }
}

proof fn lemma_candidates_distinct(base: Seq<char>, j: nat, k: nat)
    requires
        1 <= j < k,
    ensures
        candidate(base, j) != candidate(base, k),
{
    crate::text::lemma_digits_len(k);
    reveal_strlit("-");
    if j >= 2 {
        crate::text::lemma_digits_len(j);
        let cj = candidate(base, j);
        let ck = candidate(base, k);
        if cj == ck {
            assert(cj.skip(base.len() as int + 1) =~= crate::text::digits(j));
            assert(ck.skip(base.len() as int + 1) =~= crate::text::digits(k));
            crate::text::lemma_digits_injective(j, k);
        }
    } else {
        assert(candidate(base, k).len() > base.len());
    }
}

/// The first of the names tried for `base` that is not in use: every
/// earlier one is in use.
pub open spec fn first_free(used: Set<Seq<char>>, base: Seq<char>, r: Seq<char>) -> bool {
    exists|k: nat| #![trigger candidate(base, k)]
        k >= 1 && r == candidate(base, k) && !used.contains(r)
        && forall|j: nat| 1 <= j < k ==> used.contains(#[trigger] candidate(base, j))
}

/// The name `resolve_unique_name` picks for `base` among the names in use.
pub open spec fn unique_name(used: Set<Seq<char>>, base: Seq<char>) -> Seq<char> {
    choose|r: Seq<char>| first_free(used, base, r)
}

/// At most one name is the first free one.
pub proof fn lemma_first_free_unique(used: Set<Seq<char>>, base: Seq<char>, r1: Seq<char>, r2: Seq<char>)
    requires
        first_free(used, base, r1),
        first_free(used, base, r2),
    ensures
        r1 == r2,
{
    let k1 = choose|k: nat| #![trigger candidate(base, k)]
        k >= 1 && r1 == candidate(base, k) && !used.contains(r1)
        && forall|j: nat| 1 <= j < k ==> used.contains(#[trigger] candidate(base, j));
    let k2 = choose|k: nat| #![trigger candidate(base, k)]
        k >= 1 && r2 == candidate(base, k) && !used.contains(r2)
        && forall|j: nat| 1 <= j < k ==> used.contains(#[trigger] candidate(base, j));
    if k1 < k2 {
        assert(used.contains(candidate(base, k1)));
    } else if k2 < k1 {
        assert(used.contains(candidate(base, k2)));
    }
}

/// A name not yet in use: `base`, or `base-2`, `base-3`, ... whichever
/// comes first.
pub fn resolve_unique_name(used: &Vec<String>, base: &str) -> (r: String)
    requires
        used@.len() + 2 <= usize::MAX,
    ensures
        first_free(used@.map_values(|u: String| u@).to_set(), base@, r@),
{
    let ghost uv = used@.map_values(|u: String| u@);
    let mut name = owned(base);
    let mut idx: usize = 2;
    let ghost mut tried: Seq<Seq<char>> = Seq::empty();
    loop
        invariant
            2 <= idx <= used@.len() + 2,
            used@.len() + 2 <= usize::MAX,
            uv == used@.map_values(|u: String| u@),
            name@ == candidate(base@, (idx - 1) as nat),
            tried.len() == idx - 2,
            forall|j: int| 0 <= j < tried.len() ==> tried[j] == candidate(base@, (j + 1) as nat),
            forall|j: int| 0 <= j < tried.len() ==> uv.contains(#[trigger] tried[j]),
            tried.no_duplicates(),
        decreases used@.len() + 2 - idx,
    {
        let mut in_use = false;
        let mut i: usize = 0;
        while i < used.len()
            invariant
                i <= used.len(),
                uv == used@.map_values(|u: String| u@),
                in_use == exists|t: int| 0 <= t < i && uv[t] == name@,
            decreases used.len() - i,
        {
            if eq_str(used[i].as_str(), name.as_str()) {
                in_use = true;
            }
            assert(uv[i as int] == used@[i as int]@);
            i = i + 1;
        }
        if !in_use {
            proof {
                assert(!uv.to_set().contains(name@));
                assert forall|j: nat| 1 <= j < (idx - 1) as nat implies uv.to_set().contains(#[trigger] candidate(base@, j)) by {
                    assert(tried[j - 1] == candidate(base@, j));
                    assert(uv.contains(tried[j - 1]));
                }
                assert(candidate(base@, (idx - 1) as nat) == name@);
            }
            return name;
        }
        proof {
            let new_tried = tried.push(name@);
            assert forall|a: int, b: int| 0 <= a < new_tried.len() && 0 <= b < new_tried.len() && a != b implies new_tried[a] != new_tried[b] by {
                if a < tried.len() && b < tried.len() {
                } else if a < b {
                    lemma_candidates_distinct(base@, (a + 1) as nat, (b + 1) as nat);
                } else {
                    lemma_candidates_distinct(base@, (b + 1) as nat, (a + 1) as nat);
                }
            }
            assert(new_tried.to_set().subset_of(uv.to_set())) by {
                assert forall|x: Seq<char>| new_tried.to_set().contains(x) implies uv.to_set().contains(x) by {
                    let j = choose|j: int| 0 <= j < new_tried.len() && new_tried[j] == x;
                    if j < tried.len() {
                        assert(uv.contains(tried[j]));
                    }
                }
            }
            new_tried.unique_seq_to_set();
            vstd::set_lib::lemma_len_subset(new_tried.to_set(), uv.to_set());
            uv.lemma_cardinality_of_set();
            assert(new_tried.len() == new_tried.to_set().len());
            assert(new_tried.len() <= uv.len());
            tried = new_tried;
        }
        let n = crate::text::u64_to_string(idx as u64);
        name = crate::text::concat3(base, "-", n.as_str());
        idx = idx + 1;
    }
}

// ---------------------------------------------------------------------------
// Address fingerprints of imported services
// ---------------------------------------------------------------------------

/// The fingerprint of an (already normalised) service address: the hex
/// SHA-256 digest of its text.
pub fn url_hash(normalized_url: &str) -> (r: String)
    ensures
        r@ == crate::codec::sha256_hex(normalized_url@),
        r@.len() == 64,
{
    crate::codec::sha256_hex64(normalized_url)
}

/// Whether another imported service (all but `exclude_id`) carries the
/// fingerprint `hash` in its JSON.
pub open spec fn hash_taken(rows: Seq<crate::manager::records::ConfigRow>, hash: Seq<char>, exclude_id: Option<i64>) -> bool {
    exists|i: int| 0 <= i < rows.len() && Some(rows[i].id) != exclude_id
        && text_at(rows[i].json_data@, "/url_hash"@) == Some(hash)
}

/// Whether a service being saved (its JSON text) has the fingerprint of
/// another imported service: `false` without a fingerprint, the parse
/// error when its text is not JSON.
pub fn url_hash_exists(
    input_json: &str,
    rows: &Vec<crate::manager::records::ConfigRow>,
    exclude_id: Option<i64>,
) -> (r: Result<bool, String>)
    ensures
        match r {
            Err(e) => crate::codec::json_parse_error(input_json@) == Some(e@),
            Ok(b) => crate::codec::json_parse_error(input_json@) is None && b == {
                let h = match text_at(input_json@, "/url_hash"@) { Some(t) => t, None => Seq::empty() };
                h.len() > 0 && hash_taken(rows@, h, exclude_id)
            },
        },
{
    if let Some(e) = crate::codec::json_error_text(input_json) {
        return Err(e);
    }
    let hash = match json_text_at(input_json, "/url_hash") {
        Some(t) => t,
        None => String::new(),
    };
    if hash.as_str().is_empty() {
        return Ok(false);
    }
    let mut i: usize = 0;
    while i < rows.len()
        invariant
            i <= rows.len(),
            hash@.len() > 0,
            crate::codec::json_parse_error(input_json@) is None,
            hash@ == match text_at(input_json@, "/url_hash"@) { Some(t) => t, None => Seq::<char>::empty() },
            forall|j: int| 0 <= j < i ==> !(Some(rows@[j].id) != exclude_id
                && text_at(rows@[j].json_data@, "/url_hash"@) == Some(hash@)),
        decreases rows.len() - i,
    {
        if Some(rows[i].id) != exclude_id {
            match json_text_at(rows[i].json_data.as_str(), "/url_hash") {
                Some(h) => {
                    if eq_str(h.as_str(), hash.as_str()) {
                        return Ok(true);
                    }
                },
                None => {},
            }
        }
        i = i + 1;
    }
    Ok(false)
}

} // verus!
