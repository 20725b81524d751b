//! Reassembling the tool calls that an OpenAI-compatible stream sends in
//! fragments (`delta.tool_calls`).
use vstd::prelude::*;
use crate::json_fields::{json_quote, json_quoted};
use crate::text::{concat, concat3, join, join_strings, owned, trim, trim_str};

verus! {

broadcast use vstd::string::group_string_axioms;

/// One fragment of a tool call, as a stream delta carries it: the call's
/// position, and whatever part of its id, function name and argument text
/// came with it.
#[derive(Debug, Clone)]
pub struct ToolCallDelta {
    pub index: Option<u64>,
    pub id: Option<String>,
    pub name: Option<String>,
    pub arguments: Option<String>,
}

/// The plain content of a fragment.
pub type DeltaView = (Option<u64>, Option<Seq<char>>, Option<Seq<char>>, Option<Seq<char>>);

impl ToolCallDelta {
    pub open spec fn plain(&self) -> DeltaView {
        (self.index, crate::text::opt_view(self.id), crate::text::opt_view(self.name), crate::text::opt_view(self.arguments))
    }
}

/// The fragments of a delta list, if any.
pub open spec fn deltas_view(r: Option<Vec<ToolCallDelta>>) -> Option<Seq<DeltaView>> {
    match r {
        Some(v) => Some(v@.map_values(|d: ToolCallDelta| d.plain())),
        None => None,
    }
}

/// The pointer of the `tool_calls` array under the value at `at`.
pub open spec fn tool_calls_pointer(at: Seq<char>) -> Seq<char> {
    at + "/tool_calls"@
}

/// The fragment that element `i` of the array at `base` describes: its
/// `index` (as an unsigned integer), `id`, `function.name` and
/// `function.arguments` (as strings), each when present with that type.
pub open spec fn delta_at(text: Seq<char>, base: Seq<char>, i: int) -> DeltaView {
    let e = crate::json_fields::element_pointer(base, i);
    (
        crate::json_fields::json_unsigned_at(text, e + "/index"@),
        crate::json_fields::text_at(text, e + "/id"@),
        crate::json_fields::text_at(text, e + "/function/name"@),
        crate::json_fields::text_at(text, e + "/function/arguments"@),
    )
}

/// What reading `tool_calls` out of the value at JSON Pointer `at` of a JSON
/// text gives: `None` when the text is not JSON or there is no
/// `tool_calls` array there; else one fragment per array element.
pub open spec fn json_tool_call_deltas(text: Seq<char>, at: Seq<char>) -> Option<Seq<DeltaView>> {
    match crate::json_fields::json_array_length(text, tool_calls_pointer(at)) {
        Some(n) => Some(Seq::new(n as nat, |i: int| delta_at(text, tool_calls_pointer(at), i))),
        None => None,
    }
}

/// Reads the `tool_calls` fragments under the value at `at`.
pub(crate) fn read_tool_call_deltas(text: &str, at: &str) -> (r: Option<Vec<ToolCallDelta>>)
    ensures
        deltas_view(r) == json_tool_call_deltas(text@, at@),
{
    let base = concat(at, "/tool_calls");
    proof {
        reveal_strlit("/tool_calls");
    }
    let n = match crate::json_fields::json_array_len(text, base.as_str()) {
        Some(n) => n,
        None => return None,
    };
    let ghost want = Seq::new(n as nat, |i: int| delta_at(text@, base@, i));
    let mut out: Vec<ToolCallDelta> = Vec::new();
    let mut i: usize = 0;
    while i < n
        invariant
            i <= n,
            base@ == tool_calls_pointer(at@),
            want == Seq::new(n as nat, |j: int| delta_at(text@, base@, j)),
            out@.map_values(|d: ToolCallDelta| d.plain()) =~= want.take(i as int),
        decreases n - i,
    {
        let e = crate::json_fields::element_pointer_of(base.as_str(), i);
        let pi = concat(e.as_str(), "/index");
        let pid = concat(e.as_str(), "/id");
        let pn = concat(e.as_str(), "/function/name");
        let pa = concat(e.as_str(), "/function/arguments");
        proof {
            reveal_strlit("/index");
            reveal_strlit("/id");
            reveal_strlit("/function/name");
            reveal_strlit("/function/arguments");
        }
        let d = ToolCallDelta {
            index: crate::json_fields::json_u64_at(text, pi.as_str()),
            id: crate::json_fields::json_text_at(text, pid.as_str()),
            name: crate::json_fields::json_text_at(text, pn.as_str()),
            arguments: crate::json_fields::json_text_at(text, pa.as_str()),
        };
        assert(d.plain() == delta_at(text@, base@, i as int));
        out.push(d);
        i = i + 1;
        assert(want.take(i as int) =~= want.take(i - 1 as int).push(delta_at(text@, base@, i - 1 as int)));
    }
    assert(want.take(n as int) =~= want);
    Some(out)
}

/// Whether `serde_json` accepts the text as a JSON document: parsing it
/// gives no error.
pub open spec fn json_is_valid(text: Seq<char>) -> bool {
    crate::codec::json_parse_error(text) is None
}

/// Whether the text is a JSON document.
pub(crate) fn json_text_is_valid(text: &str) -> (r: bool)
    ensures
        r == json_is_valid(text@),
{
    crate::codec::json_error_text(text).is_none()
}

/// The tool-call fragments of a stream delta given as JSON text; empty when
/// it carries none.
pub fn tool_call_deltas(delta_json: &str) -> (r: Vec<ToolCallDelta>)
    ensures
        r@.map_values(|d: ToolCallDelta| d.plain()) == match json_tool_call_deltas(delta_json@, Seq::empty()) {
            Some(ds) => ds,
            None => Seq::empty(),
        },
{
    proof {
        reveal_strlit("");
        assert(""@ =~= Seq::<char>::empty());
    }
    match read_tool_call_deltas(delta_json, "") {
        Some(v) => v,
        None => {
            let v: Vec<ToolCallDelta> = Vec::new();
            assert(v@.map_values(|d: ToolCallDelta| d.plain()) =~= Seq::empty());
            v
        },
    }
}

/// A call being assembled: its position, id, function name and the
/// argument text received so far.
#[derive(Debug, Clone)]
pub struct PartialToolCall {
    pub index: u64,
    pub id: String,
    pub name: String,
    pub arguments: String,
}

/// The plain content of a call being assembled.
pub type PartialView = (u64, Seq<char>, Seq<char>, Seq<char>);

impl View for PartialToolCall {
    type V = PartialView;

    open spec fn view(&self) -> PartialView {
        (self.index, self.id@, self.name@, self.arguments@)
    }
}

/// A finished tool call.  `arguments` is the JSON text of the arguments.
#[derive(Debug, Clone)]
pub struct ToolCall {
    pub id: String,
    pub name: String,
    pub arguments: String,
}

impl View for ToolCall {
    type V = (Seq<char>, Seq<char>, Seq<char>);

    open spec fn view(&self) -> (Seq<char>, Seq<char>, Seq<char>) {
        (self.id@, self.name@, self.arguments@)
    }
}

/// A whole answer: its text and the tool calls it asks for.
#[derive(Debug, Clone)]
pub struct LlmCompletion {
    pub content: String,
    pub tool_calls: Vec<ToolCall>,
}

/// The text of a streamed answer: the contents of its messages, in order.
pub open spec fn streamed_text(msgs: Seq<crate::llm::message::ChatMessage>) -> Seq<char>
    decreases msgs.len(),
{
    if msgs.len() == 0 {
        Seq::empty()
    } else {
        streamed_text(msgs.drop_last()) + msgs.last().content@
    }
}

impl LlmCompletion {
    /// The answer a provider without a completion call of its own gives:
    /// the contents of the messages its stream sent, joined, with no tool
    /// calls.
    pub fn from_stream(messages: &Vec<crate::llm::message::ChatMessage>) -> (r: LlmCompletion)
        ensures
            r.content@ == streamed_text(messages@),
            r.tool_calls@.len() == 0,
    {
        let mut content = String::new();
        let mut i: usize = 0;
        while i < messages.len()
            invariant
                i <= messages@.len(),
                content@ == streamed_text(messages@.take(i as int)),
            decreases messages.len() - i,
        {
            assert(messages@.take(i + 1).drop_last() =~= messages@.take(i as int));
            content = concat(content.as_str(), messages[i].content.as_str());
            i = i + 1;
        }
        assert(messages@.take(messages@.len() as int) =~= messages@);
        LlmCompletion { content, tool_calls: Vec::new() }
    }

    /// Whether the answer asks for tool calls.
    pub fn has_tool_calls(&self) -> (r: bool)
        ensures
            r == (self.tool_calls@.len() > 0),
    {
        self.tool_calls.len() > 0
    }
}

/// Merges OpenAI stream `delta.tool_calls` fragments into whole calls.
/// The calls are kept in increasing order of position, one per position.
#[derive(Debug)]
pub struct StreamingToolCallAccumulator {
    calls: Vec<PartialToolCall>,
}

/// Calls are in strictly increasing order of position.
pub open spec fn ordered(s: Seq<PartialView>) -> bool {
    forall|i: int, j: int| 0 <= i < j < s.len() ==> s[i].0 < s[j].0
}

/// `i` is where position `k` belongs in `s`: every call before it has a
/// smaller position and the call at it (if any) does not.
pub open spec fn is_slot(s: Seq<PartialView>, k: u64, i: int) -> bool {
    &&& 0 <= i <= s.len()
    &&& forall|j: int| 0 <= j < i ==> s[j].0 < k
    &&& i < s.len() ==> s[i].0 >= k
}

/// Where position `k` belongs in `s`.
pub open spec fn slot(s: Seq<PartialView>, k: u64) -> int {
    choose|i: int| is_slot(s, k, i)
}

/// Text that replaces the old one when it is present and not empty.
pub open spec fn newer(old: Seq<char>, new: Option<Seq<char>>) -> Seq<char> {
    match new {
        Some(t) => if t.len() > 0 { t } else { old },
        None => old,
    }
}

/// A call after one of its fragments arrived: a non-empty id or name
/// replaces the old one, argument text is appended.
pub open spec fn merged(p: PartialView, d: DeltaView) -> PartialView {
    (p.0, newer(p.1, d.1), newer(p.2, d.2), p.3 + match d.3 {
        Some(a) => a,
        None => Seq::empty(),
    })
}

/// The position a fragment names (0 when it names none).
pub open spec fn delta_index(d: DeltaView) -> u64 {
    match d.0 {
        Some(i) => i,
        None => 0,
    }
}

/// The calls after one fragment: the call at its position is merged, or a
/// new one is started in order.
pub open spec fn merge_one(s: Seq<PartialView>, d: DeltaView) -> Seq<PartialView> {
    let k = delta_index(d);
    let i = slot(s, k);
    if i < s.len() && s[i].0 == k {
        s.update(i, merged(s[i], d))
    } else {
        s.insert(i, merged((k, Seq::empty(), Seq::empty(), Seq::empty()), d))
    }
}

/// The calls after a list of fragments, taken in order.
pub open spec fn merge_all(s: Seq<PartialView>, ds: Seq<DeltaView>) -> Seq<PartialView>
    decreases ds.len(),
{
    if ds.len() == 0 {
        s
    } else {
        merge_one(merge_all(s, ds.drop_last()), ds.last())
    }
}

/// The arguments of a finished call: the received text when it is a JSON
/// document, else an empty object.
pub open spec fn arguments_text(a: Seq<char>) -> Seq<char> {
    if trim(a).len() > 0 && json_is_valid(a) { a } else { "{}"@ }
}

/// The calls with both an id and a name, finished, in order.
pub open spec fn finished_calls(s: Seq<PartialView>) -> Seq<(Seq<char>, Seq<char>, Seq<char>)>
    decreases s.len(),
{
    if s.len() == 0 {
        Seq::empty()
    } else {
        let rest = finished_calls(s.drop_last());
        let p = s.last();
        if p.1.len() > 0 && p.2.len() > 0 { rest.push((p.1, p.2, arguments_text(p.3))) } else { rest }
    }
}

/// The JSON text of one call in the assistant-message form, with members
/// in the order `serde_json` prints them.
pub open spec fn call_json(p: PartialView) -> Seq<char> {
    "{\"function\":{\"arguments\":"@ + json_quoted(p.3) + ",\"name\":"@ + json_quoted(p.2) + "},\"id\":"@
        + json_quoted(p.1) + ",\"type\":\"function\"}"@
}

/// The JSON texts of the calls with both an id and a name, in order.
pub open spec fn call_jsons(s: Seq<PartialView>) -> Seq<Seq<char>>
    decreases s.len(),
{
    if s.len() == 0 {
        Seq::empty()
    } else {
        let rest = call_jsons(s.drop_last());
        let p = s.last();
        if p.1.len() > 0 && p.2.len() > 0 { rest.push(call_json(p)) } else { rest }
    }
}

/// The JSON array of the calls with both an id and a name, if there is one.
pub open spec fn calls_json(s: Seq<PartialView>) -> Option<Seq<char>> {
    let items = call_jsons(s);
    if items.len() == 0 { None } else { Some("["@ + join(items, ","@) + "]"@) }
}

/// Fragments for a call already under way extend it in place: its
/// argument text grows by the fragment's, and no other call changes.
pub proof fn law_fragment_extends_call(s: Seq<PartialView>, d: DeltaView, i: int)
    requires
        ordered(s),
        0 <= i < s.len(),
        s[i].0 == delta_index(d),
    ensures
        merge_one(s, d).len() == s.len(),
        merge_one(s, d)[i] == merged(s[i], d),
        merge_one(s, d)[i].3 == s[i].3 + match d.3 {
            Some(a) => a,
            None => Seq::empty(),
        },
        forall|j: int| 0 <= j < s.len() && j != i ==> merge_one(s, d)[j] == s[j],
{
    let k = delta_index(d);
    assert(is_slot(s, k, i));
    let c = slot(s, k);
    assert(is_slot(s, k, c));
    if c < i {
        assert(s[c].0 < s[i].0);
    }
    if c > i {
        assert(s[i].0 < k);
    }
}

proof fn lemma_slot_exists(s: Seq<PartialView>, k: u64, w: int)
    requires
        0 <= w <= s.len(),
        forall|j: int| 0 <= j < w ==> s[j].0 < k,
    ensures
        exists|i: int| is_slot(s, k, i),
    decreases s.len() - w,
{
    if w < s.len() && s[w].0 < k {
        lemma_slot_exists(s, k, w + 1);
    } else {
        assert(is_slot(s, k, w));
    }
}

/// A fragment for a new position starts a call there, keeping the order.
pub proof fn law_fragment_starts_call(s: Seq<PartialView>, d: DeltaView)
    requires
        ordered(s),
        forall|j: int| 0 <= j < s.len() ==> s[j].0 != delta_index(d),
    ensures
        merge_one(s, d).len() == s.len() + 1,
        ordered(merge_one(s, d)),
        exists|i: int| 0 <= i < merge_one(s, d).len() && merge_one(s, d)[i] == merged((delta_index(d), Seq::empty(), Seq::empty(), Seq::empty()), d),
{
    let k = delta_index(d);
    lemma_slot_exists(s, k, 0);
    let c = slot(s, k);
    assert(is_slot(s, k, c));
    let t = merge_one(s, d);
    assert(t[c] == merged((k, Seq::empty(), Seq::empty(), Seq::empty()), d));
    assert forall|a: int, b: int| 0 <= a < b < t.len() implies t[a].0 < t[b].0 by {
        if b < c {
        } else if a < c && b == c {
        } else if a < c && b > c {
            assert(s[a].0 < k);
            assert(s[b - 1].0 >= k);
        } else if a == c && b > c {
            assert(s[b - 1].0 >= k);
            assert(s[b - 1].0 != k);
        }
    }
}

/// The call at position `k` that the fragments `ds` make, taken in order:
/// its id and name are the last non-empty ones among the fragments for
/// `k`, its argument text theirs joined in order.
pub open spec fn call_at(ds: Seq<DeltaView>, k: u64) -> PartialView
    decreases ds.len(),
{
    if ds.len() == 0 {
        (k, Seq::empty(), Seq::empty(), Seq::empty())
    } else {
        let p = call_at(ds.drop_last(), k);
        if delta_index(ds.last()) == k { merged(p, ds.last()) } else { p }
    }
}

/// Some fragment of `ds` is for position `k`.
pub open spec fn names_position(ds: Seq<DeltaView>, k: u64) -> bool {
    exists|j: int| 0 <= j < ds.len() && delta_index(ds[j]) == k
}

proof fn lemma_call_at_unnamed(ds: Seq<DeltaView>, k: u64)
    requires
        !names_position(ds, k),
    ensures
        call_at(ds, k) == (k, Seq::<char>::empty(), Seq::<char>::empty(), Seq::<char>::empty()),
    decreases ds.len(),
{
    if ds.len() > 0 {
        assert(delta_index(ds[ds.len() - 1]) != k);
        assert forall|j: int| 0 <= j < ds.drop_last().len() implies delta_index(ds.drop_last()[j]) != k by {
            assert(ds.drop_last()[j] == ds[j]);
        }
        lemma_call_at_unnamed(ds.drop_last(), k);
    }
}

/// What the fragments of a stream make, whatever their order: the calls
/// are in increasing order of position, there is one for each position
/// some fragment names and none for another, and each is `call_at` its
/// position: the last non-empty id and name sent for it, and the
/// argument text sent for it, joined in order.
pub proof fn law_calls_gather_their_fragments(ds: Seq<DeltaView>)
    ensures
        ordered(merge_all(Seq::empty(), ds)),
        forall|i: int| 0 <= i < merge_all(Seq::empty(), ds).len() ==> {
            let c = #[trigger] merge_all(Seq::empty(), ds)[i];
            c == call_at(ds, c.0) && names_position(ds, c.0)
        },
        forall|k: u64| #[trigger] names_position(ds, k) ==>
            exists|i: int| 0 <= i < merge_all(Seq::empty(), ds).len() && merge_all(Seq::empty(), ds)[i].0 == k,
    decreases ds.len(),
{
    if ds.len() > 0 {
        let ds0 = ds.drop_last();
        law_calls_gather_their_fragments(ds0);
        let s = merge_all(Seq::empty(), ds0);
        let d = ds.last();
        let k = delta_index(d);
        let t = merge_one(s, d);
        assert(merge_all(Seq::empty(), ds) == t);
        assert forall|kk: u64| #[trigger] names_position(ds0, kk) implies names_position(ds, kk) by {
            let j = choose|j: int| 0 <= j < ds0.len() && delta_index(ds0[j]) == kk;
            assert(ds[j] == ds0[j]);
        }
        if exists|i: int| 0 <= i < s.len() && s[i].0 == k {
            let i = choose|i: int| 0 <= i < s.len() && s[i].0 == k;
            law_fragment_extends_call(s, d, i);
            assert(ordered(t)) by {
                assert forall|a: int, b: int| 0 <= a < b < t.len() implies t[a].0 < t[b].0 by {
                    assert(t[a].0 == s[a].0);
                    assert(t[b].0 == s[b].0);
                }
            }
            assert forall|j: int| 0 <= j < t.len() implies {
                let c = #[trigger] t[j];
                c == call_at(ds, c.0) && names_position(ds, c.0)
            } by {
                assert(names_position(ds0, s[j].0));
                if j != i {
                    assert(s[j].0 != k) by {
                        if j < i { assert(s[j].0 < s[i].0); } else { assert(s[i].0 < s[j].0); }
                    }
                }
            }
            assert forall|kk: u64| #[trigger] names_position(ds, kk) implies
                exists|m: int| 0 <= m < t.len() && t[m].0 == kk by {
                let j = choose|j: int| 0 <= j < ds.len() && delta_index(ds[j]) == kk;
                if j < ds0.len() {
                    assert(ds0[j] == ds[j]);
                    assert(names_position(ds0, kk));
                    let m = choose|m: int| 0 <= m < s.len() && s[m].0 == kk;
                    assert(t[m].0 == kk);
                } else {
                    assert(t[i].0 == kk);
                }
            }
        } else {
            assert(!names_position(ds0, k));
            lemma_call_at_unnamed(ds0, k);
            law_fragment_starts_call(s, d);
            lemma_slot_exists(s, k, 0);
            let c = slot(s, k);
            assert(is_slot(s, k, c));
            assert(t == s.insert(c, merged((k, Seq::empty(), Seq::empty(), Seq::empty()), d)));
            assert forall|j: int| 0 <= j < t.len() implies {
                let e = #[trigger] t[j];
                e == call_at(ds, e.0) && names_position(ds, e.0)
            } by {
                if j < c {
                    assert(t[j] == s[j]);
                    assert(names_position(ds0, s[j].0));
                } else if j > c {
                    assert(t[j] == s[j - 1]);
                    assert(names_position(ds0, s[j - 1].0));
                } else {
                    assert(delta_index(ds[ds.len() - 1]) == k);
                }
            }
            assert forall|kk: u64| #[trigger] names_position(ds, kk) implies
                exists|m: int| 0 <= m < t.len() && t[m].0 == kk by {
                let j = choose|j: int| 0 <= j < ds.len() && delta_index(ds[j]) == kk;
                if j < ds0.len() {
                    assert(ds0[j] == ds[j]);
                    assert(names_position(ds0, kk));
                    let m = choose|m: int| 0 <= m < s.len() && s[m].0 == kk;
                    if m < c { assert(t[m].0 == kk); } else { assert(t[m + 1].0 == kk); }
                } else {
                    assert(t[c].0 == kk);
                }
            }
        }
    }
}

/// The calls `call_at` the positions `ks`, in that order.
pub open spec fn calls_for(ds: Seq<DeltaView>, ks: Seq<u64>) -> Seq<PartialView> {
    ks.map_values(|k: u64| call_at(ds, k))
}

/// Merging fragments in several batches is merging them all in one: the
/// accumulator after `merge_delta(a)` then `merge_delta(b)` is that after
/// the fragments of `a` followed by those of `b`.
pub proof fn law_merge_in_batches(s: Seq<PartialView>, a: Seq<DeltaView>, b: Seq<DeltaView>)
    ensures
        merge_all(merge_all(s, a), b) == merge_all(s, a + b),
    decreases b.len(),
{
    if b.len() == 0 {
        assert(a + b =~= a);
    } else {
        law_merge_in_batches(s, a, b.drop_last());
        assert((a + b).drop_last() =~= a + b.drop_last());
        assert((a + b).last() == b.last());
    }
}

/// The finished calls of a stream, position by position: with `ks` the
/// positions its fragments name, in increasing order and each once, the
/// finished calls are those of `call_at` each position of `ks` (the last
/// non-empty id and name sent for it, its argument text joined in order)
/// that have both an id and a name.
pub proof fn law_finished_calls_by_position(ds: Seq<DeltaView>)
    ensures
        exists|ks: Seq<u64>| {
            &&& forall|a: int, b: int| 0 <= a < b < ks.len() ==> #[trigger] ks[a] < #[trigger] ks[b]
            &&& forall|k: u64| #[trigger] ks.contains(k) <==> names_position(ds, k)
            &&& finished_calls(merge_all(Seq::empty(), ds)) == #[trigger] finished_calls(calls_for(ds, ks))
        },
{
    law_calls_gather_their_fragments(ds);
    let s = merge_all(Seq::empty(), ds);
    let ks = s.map_values(|c: PartialView| c.0);
    assert(s =~= calls_for(ds, ks)) by {
        assert forall|i: int| 0 <= i < s.len() implies s[i] == calls_for(ds, ks)[i] by {
            assert(s[i] == call_at(ds, s[i].0));
        }
    }
    assert forall|k: u64| ks.contains(k) <==> names_position(ds, k) by {
        if ks.contains(k) {
            let i = choose|i: int| 0 <= i < ks.len() && ks[i] == k;
            assert(s[i].0 == k);
            assert(names_position(ds, s[i].0));
        }
        if names_position(ds, k) {
            let i = choose|i: int| 0 <= i < s.len() && s[i].0 == k;
            assert(ks[i] == k);
        }
    }
    assert forall|a: int, b: int| 0 <= a < b < ks.len() implies ks[a] < ks[b] by {
        assert(s[a].0 < s[b].0);
    }
    assert(finished_calls(s) == finished_calls(calls_for(ds, ks)));
}

impl View for StreamingToolCallAccumulator {
    type V = Seq<PartialView>;

    closed spec fn view(&self) -> Seq<PartialView> {
        self.calls@.map_values(|p: PartialToolCall| p@)
    }
}

impl StreamingToolCallAccumulator {
    /// The calls are kept in order of position.
    pub open spec fn well_formed(&self) -> bool {
        ordered(self@)
    }

    /// An accumulator with no calls.
    pub fn new() -> (r: Self)
        ensures
            r@ == Seq::<PartialView>::empty(),
            r.well_formed(),
    {
        let r = StreamingToolCallAccumulator { calls: Vec::new() };
        assert(r@ =~= Seq::<PartialView>::empty());
        r
    }

    /// Finds where position `k` belongs.
    fn find_slot(&self, k: u64) -> (i: usize)
        requires
            self.well_formed(),
        ensures
            is_slot(self@, k, i as int),
            i as int == slot(self@, k),
    {
        let ghost s = self@;
        let mut i: usize = 0;
        while i < self.calls.len() && self.calls[i].index < k
            invariant
                i <= self.calls.len(),
                s == self@,
                s.len() == self.calls.len(),
                forall|j: int| 0 <= j < i ==> s[j].0 < k,
            decreases self.calls.len() - i,
        {
            assert(s[i as int].0 == self.calls@[i as int].index);
            i = i + 1;
        }
        proof {
            if i < self.calls.len() {
                assert(s[i as int].0 == self.calls@[i as int].index);
            }
            assert(is_slot(s, k, i as int));
            let c = slot(s, k);
            assert(is_slot(s, k, c));
            if c < i {
                assert(s[c].0 < k);
            }
            if c > i {
                assert(s[i as int].0 < k);
            }
        }
        i
    }

    /// Merges one fragment.
    fn merge_item(&mut self, d: &ToolCallDelta)
        requires
            old(self).well_formed(),
        ensures
            final(self).well_formed(),
            final(self)@ == merge_one(old(self)@, d.plain()),
    {
        let k = match d.index {
            Some(i) => i,
            None => 0,
        };
        let i = self.find_slot(k);
        let ghost s = self@;
        let ghost dv = d.plain();
        let found = i < self.calls.len() && self.calls[i].index == k;
        let (id0, name0, args0) = if found {
            (self.calls[i].id.clone(), self.calls[i].name.clone(), self.calls[i].arguments.clone())
        } else {
            (String::new(), String::new(), String::new())
        };
        proof {
            if found {
                assert(s[i as int] == self.calls@[i as int]@);
            }
        }
        let id = match &d.id {
            Some(t) => if t.as_str().is_empty() { id0 } else { t.clone() },
            None => id0,
        };
        let name = match &d.name {
            Some(t) => if t.as_str().is_empty() { name0 } else { t.clone() },
            None => name0,
        };
        let arguments = match &d.arguments {
            Some(t) => concat(args0.as_str(), t.as_str()),
            None => {
                assert(args0@ + Seq::<char>::empty() =~= args0@);
                args0
            },
        };
        let p = PartialToolCall { index: k, id, name, arguments };
        if found {
            assert(p@ == merged(s[i as int], dv));
            self.calls.set(i, p);
            assert(self@ =~= s.update(i as int, p@));
        } else {
            assert(p@ == merged((k, Seq::empty(), Seq::empty(), Seq::empty()), dv));
            self.calls.insert(i, p);
            assert(self@ =~= s.insert(i as int, p@));
        }
    }

    /// Merges the tool-call fragments of one stream delta, in order.
    pub fn merge_delta(&mut self, delta: &Vec<ToolCallDelta>)
        requires
            old(self).well_formed(),
        ensures
            final(self).well_formed(),
            final(self)@ == merge_all(old(self)@, delta@.map_values(|d: ToolCallDelta| d.plain())),
    {
        let ghost ds = delta@.map_values(|d: ToolCallDelta| d.plain());
        let ghost s0 = self@;
        let mut i: usize = 0;
        while i < delta.len()
            invariant
                i <= delta.len(),
                ds == delta@.map_values(|d: ToolCallDelta| d.plain()),
                self.well_formed(),
                self@ == merge_all(s0, ds.take(i as int)),
            decreases delta.len() - i,
        {
            self.merge_item(&delta[i]);
            assert(ds.take(i + 1).drop_last() =~= ds.take(i as int));
            assert(ds.take(i + 1).last() == delta@[i as int].plain());
            i = i + 1;
        }
        assert(ds.take(delta.len() as int) =~= ds);
    }

    /// The finished calls, in order of position: those with both an id and
    /// a name; arguments that are blank or not JSON become `{}`.
    pub fn into_tool_calls(self) -> (r: Vec<ToolCall>)
        ensures
            r@.map_values(|c: ToolCall| c@) == finished_calls(self@),
    {
        let ghost s = self@;
        let mut out: Vec<ToolCall> = Vec::new();
        let mut i: usize = 0;
        while i < self.calls.len()
            invariant
                i <= self.calls.len(),
                s == self@,
                s.len() == self.calls.len(),
                out@.map_values(|c: ToolCall| c@) == finished_calls(s.take(i as int)),
            decreases self.calls.len() - i,
        {
            let p = &self.calls[i];
            assert(s.take(i + 1).drop_last() =~= s.take(i as int));
            assert(s.take(i + 1).last() == p@);
            if !p.id.as_str().is_empty() && !p.name.as_str().is_empty() {
                let args = if !trim_str(p.arguments.as_str()).as_str().is_empty()
                    && json_text_is_valid(p.arguments.as_str()) {
                    p.arguments.clone()
                } else {
                    owned("{}")
                };
                let c = ToolCall { id: p.id.clone(), name: p.name.clone(), arguments: args };
                out.push(c);
                assert(out@.map_values(|c: ToolCall| c@) =~= finished_calls(s.take(i as int)).push(c@));
            }
            i = i + 1;
        }
        assert(s.take(self.calls.len() as int) =~= s);
        out
    }

    /// The JSON text of the finished calls as an assistant message lists
    /// them (argument text as received), or `None` when no call has both
    /// an id and a name.
    pub fn to_tool_calls_json(&self) -> (r: Option<String>)
        ensures
            crate::text::opt_view(r) == calls_json(self@),
    {
        let ghost s = self@;
        let mut items: Vec<String> = Vec::new();
        let mut i: usize = 0;
        while i < self.calls.len()
            invariant
                i <= self.calls.len(),
                s == self@,
                s.len() == self.calls.len(),
                items@.map_values(|t: String| t@) == call_jsons(s.take(i as int)),
            decreases self.calls.len() - i,
        {
            let p = &self.calls[i];
            assert(s.take(i + 1).drop_last() =~= s.take(i as int));
            assert(s.take(i + 1).last() == p@);
            if !p.id.as_str().is_empty() && !p.name.as_str().is_empty() {
                let a = json_quote(p.arguments.as_str());
                let n = json_quote(p.name.as_str());
                let d = json_quote(p.id.as_str());
                let head = concat3("{\"function\":{\"arguments\":", a.as_str(), ",\"name\":");
                let mid = concat3(head.as_str(), n.as_str(), "},\"id\":");
                let t = concat3(mid.as_str(), d.as_str(), ",\"type\":\"function\"}");
                proof {
                    reveal_strlit("{\"function\":{\"arguments\":");
                    reveal_strlit(",\"name\":");
                    reveal_strlit("},\"id\":");
                    reveal_strlit(",\"type\":\"function\"}");
                }
                assert(t@ =~= call_json(p@));
                items.push(t);
                assert(items@.map_values(|t: String| t@) =~= call_jsons(s.take(i as int)).push(call_json(p@)));
            }
            i = i + 1;
        }
        assert(s.take(self.calls.len() as int) =~= s);
        if items.len() == 0 {
            return None;
        }
        let body = join_strings(&items, ",");
        Some(concat3("[", body.as_str(), "]"))
    }
}

impl Default for StreamingToolCallAccumulator {
    fn default() -> (r: Self)
        ensures
            r@ == Seq::<PartialView>::empty(),
            r.well_formed(),
    {
        StreamingToolCallAccumulator::new()
    }
}

} // verus!
