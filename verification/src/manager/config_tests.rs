//! Testing configurations from the console: how each kind of test is run,
//! which stored configurations a test covers, and how the speech server's
//! answer to a test is reported.
use vstd::prelude::*;
use crate::json_fields::{flag_at, json_flag_at, json_text_at, text_at};
use crate::manager::records::ConfigRow;
use crate::text::{concat, eq_str, owned};

verus! {

broadcast use vstd::string::group_string_axioms;

/// How a test of one kind is run.
#[derive(Debug, Clone, Copy, PartialEq, Eq, Structural)]
pub enum TestRoute {
    /// Firmware-update endpoints are probed by the console itself.
    Ota,
    /// Knowledge-search connections are probed by the console itself.
    KnowledgeSearch,
    /// MCP services are probed by the console itself.
    Mcp,
    /// A speech-server test, but no speech server is connected.
    NoClient,
    /// A speech-server test, relayed to the connected speech servers.
    ViaServer,
    /// A kind that cannot be tested.
    Unsupported,
}

/// The route of a test of `kind` while `clients` speech servers are
/// connected.
pub open spec fn route_of(kind: Seq<char>, clients: nat) -> TestRoute {
    if kind == "ota"@ {
        TestRoute::Ota
    } else if kind == "knowledge_search"@ {
        TestRoute::KnowledgeSearch
    } else if kind == "mcp"@ {
        TestRoute::Mcp
    } else if kind == "vad"@ || kind == "asr"@ || kind == "llm"@ || kind == "tts"@ || kind == "memory"@ {
        if clients == 0 { TestRoute::NoClient } else { TestRoute::ViaServer }
    } else {
        TestRoute::Unsupported
    }
}

/// Decides how a test of `kind` is run.
pub fn test_route(kind: &str, clients: usize) -> (r: TestRoute)
    ensures
        r == route_of(kind@, clients as nat),
{
    proof {
        reveal_strlit("ota");
        reveal_strlit("knowledge_search");
        reveal_strlit("mcp");
        reveal_strlit("vad");
        reveal_strlit("asr");
        reveal_strlit("llm");
        reveal_strlit("tts");
        reveal_strlit("memory");
    }
    if eq_str(kind, "ota") {
        TestRoute::Ota
    } else if eq_str(kind, "knowledge_search") {
        TestRoute::KnowledgeSearch
    } else if eq_str(kind, "mcp") {
        TestRoute::Mcp
    } else if eq_str(kind, "vad") || eq_str(kind, "asr") || eq_str(kind, "llm") || eq_str(kind, "tts")
        || eq_str(kind, "memory") {
        if clients == 0 {
            TestRoute::NoClient
        } else {
            TestRoute::ViaServer
        }
    } else {
        TestRoute::Unsupported
    }
}

/// The message reported for a kind that cannot be tested.
pub fn unsupported_test_message(kind: &str) -> (r: String)
    ensures
        r@ == "不支持的测试类型: "@ + kind@,
{
    concat("不支持的测试类型: ", kind)
}

/// Whether a stored configuration is among those a test names: all are
/// when the test names none, else those whose id is one of the names.
pub open spec fn selected(config_id: Seq<char>, ids: Option<Seq<Seq<char>>>) -> bool {
    match ids {
        None => true,
        Some(ids) => ids.contains(config_id),
    }
}

/// The stored configurations a test covers, in their order.
pub open spec fn selection(rows: Seq<ConfigRow>, ids: Option<Seq<Seq<char>>>) -> Seq<ConfigRow>
    decreases rows.len(),
{
    if rows.len() == 0 {
        Seq::empty()
    } else {
        let rest = selection(rows.drop_last(), ids);
        if selected(rows.last().config_id@, ids) {
            rest.push(rows.last())
        } else {
            rest
        }
    }
}

/// The ids a test names, as plain text.
pub open spec fn ids_view(ids: Option<Vec<String>>) -> Option<Seq<Seq<char>>> {
    match ids {
        Some(v) => Some(v@.map_values(|s: String| s@)),
        None => None,
    }
}

fn names(ids: &Vec<String>, id: &str) -> (r: bool)
    ensures
        r == ids@.map_values(|s: String| s@).contains(id@),
{
    let mut i: usize = 0;
    while i < ids.len()
        invariant
            0 <= i <= ids.len(),
            forall|j: int| 0 <= j < i ==> ids@[j]@ != id@,
        decreases ids.len() - i,
    {
        if eq_str(ids[i].as_str(), id) {
            assert(ids@.map_values(|s: String| s@)[i as int] == id@);
            return true;
        }
        i = i + 1;
    }
    proof {
        let m = ids@.map_values(|s: String| s@);
        if m.contains(id@) {
            let j = choose|j: int| 0 <= j < m.len() && m[j] == id@;
            assert(ids@[j]@ == id@);
        }
    }
    false
}

/// Keeps the stored configurations a test covers: all when `ids` is none
/// (the test names no ids), else those whose id is among `ids` (the string
/// ids the test names).
pub fn select_configs(rows: Vec<ConfigRow>, ids: Option<Vec<String>>) -> (r: Vec<ConfigRow>)
    ensures
        r@ == selection(rows@, ids_view(ids)),
{
    let ghost all = rows@;
    let mut rest = rows;
    let mut out: Vec<ConfigRow> = Vec::new();
    while rest.len() > 0
        invariant
            rest@.len() <= all.len(),
            rest@ == all.skip(all.len() - rest@.len()),
            out@ == selection(all.take(all.len() - rest@.len()), ids_view(ids)),
        decreases rest.len(),
    {
        let ghost done = all.len() - rest@.len();
        let row = rest.remove(0);
        let keep = match &ids {
            None => true,
            Some(v) => names(v, row.config_id.as_str()),
        };
        proof {
            assert(row == all[done]);
            let t = all.take(done + 1);
            assert(t.drop_last() =~= all.take(done));
            assert(t.last() == all[done]);
            assert(rest@ =~= all.skip(all.len() - rest@.len()));
        }
        if keep {
            out.push(row);
        }
    }
    proof {
        assert(all.take(all.len() as int) =~= all);
    }
    out
}

/// What a relayed test reports: whether it passed, and a message.
#[derive(Debug, Clone)]
pub struct TestOutcome {
    pub ok: bool,
    pub message: String,
}

/// What a speech server's answer to a test reports.  An answer with a
/// status below 400 passed unless its body says `"ok": false`, with the
/// body's `message` (else `测试完成`); any other answer failed, with its
/// error (else `测试失败`).
pub open spec fn outcome_of(status: u16, body: Seq<char>, error: Seq<char>) -> (bool, Seq<char>) {
    if status < 400 {
        (
            match flag_at(body, "/ok"@) { Some(b) => b, None => true },
            match text_at(body, "/message"@) { Some(m) => m, None => "测试完成"@ },
        )
    } else {
        (false, if error.len() == 0 { "测试失败"@ } else { error })
    }
}

/// Reads a speech server's answer to a test: its status, its body as
/// JSON text, and its error text.
pub fn relayed_test_outcome(status: u16, body: &str, error: &str) -> (r: TestOutcome)
    ensures
        (r.ok, r.message@) == outcome_of(status, body@, error@),
{
    if status < 400 {
        let ok = match json_flag_at(body, "/ok") {
            Some(b) => b,
            None => true,
        };
        let message = match json_text_at(body, "/message") {
            Some(m) => m,
            None => owned("测试完成"),
        };
        TestOutcome { ok, message }
    } else if error.is_empty() {
        TestOutcome { ok: false, message: owned("测试失败") }
    } else {
        TestOutcome { ok: false, message: owned(error) }
    }
}

} // verus!
