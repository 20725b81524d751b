//! Helpers shared by the conversational providers (Dify, Coze): user ids,
//! the query sent for a dialogue, API tokens and per-session conversation
//! ids.
use vstd::prelude::*;
use crate::codec::{sha256_hex, sha256_hex64};
use crate::llm::message::{ChatMessage, MessageRole};
use crate::text::{chars_of, concat3, eq_ignore_ascii_case, eq_ignore_case_ascii, owned, push_char, string_from_range, trim, trim_chars, trim_str};

verus! {

broadcast use vstd::string::group_string_axioms;

/// The prefix used when the given one sanitises to nothing.
pub const DEFAULT_USER_PREFIX: &'static str = "xiaozhi";

/// Longest user id handed to a provider.
pub const MAX_STABLE_USER_ID_LEN: usize = 64;

// ---------------------------------------------------------------------------
// Stable user ids
// ---------------------------------------------------------------------------

/// Characters kept as they are in a user id.
pub open spec fn id_char(c: char) -> bool {
    ('0' <= c && c <= '9') || ('a' <= c && c <= 'z') || ('A' <= c && c <= 'Z') || c == '_'
        || c == '-' || c == '.'
}

/// Rewrites `s`: kept characters stay, each run of other characters becomes
/// one `_`.  Returns the text and whether it ended inside such a run.
pub open spec fn id_scan(s: Seq<char>) -> (Seq<char>, bool)
    decreases s.len(),
{
    if s.len() == 0 {
        (Seq::empty(), false)
    } else {
        let (out, in_run) = id_scan(s.drop_last());
        let c = s.last();
        if id_char(c) {
            (out.push(c), false)
        } else if !in_run {
            (out.push('_'), true)
        } else {
            (out, true)
        }
    }
}

/// The characters trimmed from both ends of a sanitised id part.
pub open spec fn id_trim_set() -> Seq<char> {
    seq!['.', '_', '-']
}

/// A sanitised id part: trimmed input, runs of other characters collapsed
/// to `_`, then `.`, `_`, `-` removed from both ends.
pub open spec fn sanitized_id_part(input: Seq<char>) -> Seq<char> {
    let t = trim(input);
    if t.len() == 0 {
        Seq::empty()
    } else {
        trim_chars(id_scan(t).0, id_trim_set())
    }
}

/// Every character of `s` is ASCII.
pub open spec fn all_ascii(s: Seq<char>) -> bool {
    forall|i: int| 0 <= i < s.len() ==> (s[i] as u32) < 128
}

proof fn lemma_id_scan_ascii(s: Seq<char>)
    ensures
        all_ascii(id_scan(s).0),
    decreases s.len(),
{
    if s.len() > 0 {
        lemma_id_scan_ascii(s.drop_last());
    }
}

proof fn lemma_trim_chars_sub(s: Seq<char>, cs: Seq<char>)
    ensures
        exists|lo: int, hi: int| 0 <= lo <= hi <= s.len() && trim_chars(s, cs) == s.subrange(lo, hi),
    decreases s.len(),
{
    if s.len() > 0 && cs.contains(s[0]) {
        lemma_trim_chars_sub(s.drop_first(), cs);
        let (lo, hi) = choose|lo: int, hi: int| 0 <= lo <= hi <= s.drop_first().len() && trim_chars(s.drop_first(), cs) == s.drop_first().subrange(lo, hi);
        assert(s.drop_first().subrange(lo, hi) =~= s.subrange(lo + 1, hi + 1));
    } else if s.len() > 0 && cs.contains(s.last()) {
        lemma_trim_chars_sub(s.drop_last(), cs);
        let (lo, hi) = choose|lo: int, hi: int| 0 <= lo <= hi <= s.drop_last().len() && trim_chars(s.drop_last(), cs) == s.drop_last().subrange(lo, hi);
        assert(s.drop_last().subrange(lo, hi) =~= s.subrange(lo, hi));
    } else {
        assert(s.subrange(0, s.len() as int) =~= s);
    }
}

proof fn lemma_sanitized_ascii(input: Seq<char>)
    ensures
        all_ascii(sanitized_id_part(input)),
{
    let t = trim(input);
    if t.len() > 0 {
        lemma_id_scan_ascii(t);
        lemma_trim_chars_sub(id_scan(t).0, id_trim_set());
    }
}

/// Every character of `s` is one a user id keeps.
pub open spec fn all_id_chars(s: Seq<char>) -> bool {
    forall|i: int| 0 <= i < s.len() ==> id_char(#[trigger] s[i])
}

proof fn lemma_id_scan_id_chars(s: Seq<char>)
    ensures
        all_id_chars(id_scan(s).0),
    decreases s.len(),
{
    if s.len() > 0 {
        lemma_id_scan_id_chars(s.drop_last());
        let (out, _) = id_scan(s.drop_last());
        assert(all_id_chars(out.push(s.last())) || !id_char(s.last()));
        assert(all_id_chars(out.push('_')));
    }
}

proof fn lemma_sanitized_id_chars(input: Seq<char>)
    ensures
        all_id_chars(sanitized_id_part(input)),
{
    let t = trim(input);
    if t.len() > 0 {
        lemma_id_scan_id_chars(t);
        let s = id_scan(t).0;
        lemma_trim_chars_sub(s, id_trim_set());
        let (lo, hi) = choose|lo: int, hi: int| 0 <= lo <= hi <= s.len() && trim_chars(s, id_trim_set()) == s.subrange(lo, hi);
        assert forall|i: int| 0 <= i < hi - lo implies id_char(#[trigger] s.subrange(lo, hi)[i]) by {
            assert(s.subrange(lo, hi)[i] == s[lo + i]);
        }
    }
}

/// Removes from both ends of `s` every character that belongs to `cs`.
pub fn trim_chars_str(s: &str, cs: &Vec<char>) -> (r: String)
    ensures
        r@ == trim_chars(s@, cs@),
{
    let v = chars_of(s);
    let mut lo: usize = 0;
    let mut hi: usize = v.len();
    assert(v@.subrange(0, v.len() as int) =~= v@);
    while lo < hi && vec_has(cs, v[lo])
        invariant
            lo <= hi == v.len(),
            v@ == s@,
            trim_chars(s@, cs@) == trim_chars(v@.subrange(lo as int, hi as int), cs@),
        decreases hi - lo,
    {
        assert(v@.subrange(lo as int, hi as int).drop_first() =~= v@.subrange(lo + 1, hi as int));
        lo = lo + 1;
    }
    while hi > lo && vec_has(cs, v[hi - 1])
        invariant
            lo <= hi <= v.len(),
            v@ == s@,
            lo < hi ==> !cs@.contains(v@[lo as int]),
            trim_chars(s@, cs@) == trim_chars(v@.subrange(lo as int, hi as int), cs@),
        decreases hi - lo,
    {
        let ghost sub = v@.subrange(lo as int, hi as int);
        assert(sub[0] == v@[lo as int]);
        assert(sub.last() == v@[hi - 1]);
        assert(sub.drop_last() =~= v@.subrange(lo as int, hi - 1));
        hi = hi - 1;
    }
    proof {
        let sub = v@.subrange(lo as int, hi as int);
        if sub.len() > 0 {
            assert(sub[0] == v@[lo as int]);
            assert(sub.last() == v@[hi - 1]);
        }
    }
    string_from_range(&v, lo, hi)
}

/// Whether `c` is one of `cs`.
fn vec_has(cs: &Vec<char>, c: char) -> (r: bool)
    ensures
        r == cs@.contains(c),
{
    let mut i: usize = 0;
    while i < cs.len()
        invariant
            i <= cs.len(),
            forall|j: int| 0 <= j < i ==> cs@[j] != c,
        decreases cs.len() - i,
    {
        if cs[i] == c {
            return true;
        }
        i = i + 1;
    }
    false
}

fn is_id_char(c: char) -> (r: bool)
    ensures
        r == id_char(c),
{
    ('0' <= c && c <= '9') || ('a' <= c && c <= 'z') || ('A' <= c && c <= 'Z') || c == '_'
        || c == '-' || c == '.'
}

/// Sanitises one part of a provider user id.
pub fn sanitize_user_id_part(input: &str) -> (r: String)
    ensures
        r@ == sanitized_id_part(input@),
        all_ascii(r@),
{
    proof {
        lemma_sanitized_ascii(input@);
    }
    let trimmed = trim_str(input);
    if trimmed.as_str().is_empty() {
        return String::new();
    }
    let v = chars_of(trimmed.as_str());
    let mut out = String::new();
    let mut last_sep = false;
    let mut i: usize = 0;
    while i < v.len()
        invariant
            i <= v.len(),
            v@ == trim(input@),
            id_scan(v@.take(i as int)) == (out@, last_sep),
        decreases v.len() - i,
    {
        assert(v@.take(i + 1).drop_last() =~= v@.take(i as int));
        let ch = v[i];
        if is_id_char(ch) {
            push_char(&mut out, ch);
            last_sep = false;
        } else if !last_sep {
            push_char(&mut out, '_');
            last_sep = true;
        }
        i = i + 1;
    }
    assert(v@.take(v.len() as int) =~= v@);
    let cs: Vec<char> = vec!['.', '_', '-'];
    assert(cs@ =~= id_trim_set());
    trim_chars_str(out.as_str(), &cs)
}

/// The user id a provider sees for a session: `<prefix>_<session>` from the
/// sanitised parts (defaults `xiaozhi` and `anonymous`); when that exceeds 64
/// characters, the prefix (cut to 47 characters) joined to the first 16
/// hex digits of the SHA-256 digest of `<prefix>:<session>`.
pub open spec fn stable_user_id(prefix: Seq<char>, session_id: Seq<char>) -> Seq<char> {
    let p0 = sanitized_id_part(prefix);
    let p = if p0.len() == 0 { DEFAULT_USER_PREFIX@ } else { p0 };
    let s0 = sanitized_id_part(session_id);
    let s = if s0.len() == 0 { "anonymous"@ } else { s0 };
    let candidate = p + "_"@ + s;
    if candidate.len() <= MAX_STABLE_USER_ID_LEN {
        candidate
    } else {
        let suffix = sha256_hex(prefix + ":"@ + session_id).take(16);
        let p2 = if p.len() > 47 { p.take(47) } else { p };
        p2 + "_"@ + suffix
    }
}

/// A provider user id that stays the same for a session.  Its parts are
/// ASCII, so its length in characters is its length in bytes.
pub fn build_stable_user_id(prefix: &str, session_id: &str) -> (r: String)
    ensures
        r@ == stable_user_id(prefix@, session_id@),
        1 <= r@.len() <= MAX_STABLE_USER_ID_LEN,
        all_id_chars(r@),
{
    proof {
        reveal_strlit("xiaozhi");
        reveal_strlit("anonymous");
        reveal_strlit("_");
    }
    let mut safe_prefix = sanitize_user_id_part(prefix);
    if safe_prefix.as_str().is_empty() {
        safe_prefix = owned(DEFAULT_USER_PREFIX);
    }
    let mut safe_session = sanitize_user_id_part(session_id);
    if safe_session.as_str().is_empty() {
        safe_session = owned("anonymous");
    }
    let candidate = concat3(safe_prefix.as_str(), "_", safe_session.as_str());
    proof {
        lemma_sanitized_id_chars(prefix@);
        lemma_sanitized_id_chars(session_id@);
        assert(all_id_chars(safe_prefix@));
        assert(all_id_chars(safe_session@));
        assert(all_id_chars(candidate@)) by {
            assert forall|i: int| 0 <= i < candidate@.len() implies id_char(#[trigger] candidate@[i]) by {
                if i < safe_prefix@.len() {
                    assert(candidate@[i] == safe_prefix@[i]);
                } else if i == safe_prefix@.len() {
                    assert(candidate@[i] == '_');
                } else {
                    assert(candidate@[i] == safe_session@[i - safe_prefix@.len() - 1]);
                }
            }
        }
    }
    let cv = chars_of(candidate.as_str());
    if cv.len() <= MAX_STABLE_USER_ID_LEN {
        return candidate;
    }
    let key = concat3(prefix, ":", session_id);
    let digest = sha256_hex64(key.as_str());
    let dv = chars_of(digest.as_str());
    let suffix = string_from_range(&dv, 0, 16);
    let pv = chars_of(safe_prefix.as_str());
    let head = if pv.len() > 47 { string_from_range(&pv, 0, 47) } else { safe_prefix };
    let r = concat3(head.as_str(), "_", suffix.as_str());
    proof {
        assert forall|i: int| 0 <= i < r@.len() implies id_char(#[trigger] r@[i]) by {
            if i < head@.len() {
                assert(r@[i] == head@[i]);
                assert(head@[i] == safe_prefix@[i]);
            } else if i == head@.len() {
                assert(r@[i] == '_');
            } else {
                assert(r@[i] == suffix@[i - head@.len() - 1]);
                assert(suffix@[i - head@.len() - 1] == digest@[i - head@.len() - 1]);
                assert(crate::codec::is_lower_hex(digest@[i - head@.len() - 1]));
            }
        }
    }
    r
}

// ---------------------------------------------------------------------------
// Dialogue query
// ---------------------------------------------------------------------------

/// The trimmed content of the last message in `d[..n]` that satisfies the
/// role filter and is not blank.
pub open spec fn last_nonblank(d: Seq<ChatMessage>, n: int, users_only: bool) -> Option<Seq<char>>
    decreases n,
{
    if n <= 0 {
        None
    } else {
        let m = d[n - 1];
        if (!users_only || m.role == MessageRole::User) && trim(m.content@).len() > 0 {
            Some(trim(m.content@))
        } else {
            last_nonblank(d, n - 1, users_only)
        }
    }
}

/// The query sent to a conversational provider: the last non-blank user
/// message, else the last non-blank message of any role, else empty.
pub open spec fn provider_query(d: Seq<ChatMessage>) -> Seq<char> {
    match last_nonblank(d, d.len() as int, true) {
        Some(q) => q,
        None => match last_nonblank(d, d.len() as int, false) {
            Some(q) => q,
            None => Seq::empty(),
        },
    }
}

fn find_last_nonblank(dialogue: &[ChatMessage], users_only: bool) -> (r: Option<String>)
    ensures
        crate::text::opt_view(r) == last_nonblank(dialogue@, dialogue@.len() as int, users_only),
{
    let mut n = dialogue.len();
    while n > 0
        invariant
            n <= dialogue@.len(),
            last_nonblank(dialogue@, dialogue@.len() as int, users_only) == last_nonblank(dialogue@, n as int, users_only),
        decreases n,
    {
        let msg = &dialogue[n - 1];
        let text = trim_str(msg.content.as_str());
        if (!users_only || msg.role == MessageRole::User) && !text.as_str().is_empty() {
            return Some(text);
        }
        n = n - 1;
    }
    None
}

/// Picks the query for a conversational provider from a dialogue.
pub fn build_provider_query(dialogue: &[ChatMessage]) -> (r: String)
    ensures
        r@ == provider_query(dialogue@),
{
    match find_last_nonblank(dialogue, true) {
        Some(q) => q,
        None => match find_last_nonblank(dialogue, false) {
            Some(q) => q,
            None => String::new(),
        },
    }
}

// ---------------------------------------------------------------------------
// API tokens
// ---------------------------------------------------------------------------

/// A token as sent: trimmed, and without a leading `Bearer ` (any case).
pub open spec fn normalized_api_token(token: Seq<char>) -> Seq<char> {
    let t = trim(token);
    if t.len() >= 7 && eq_ignore_ascii_case(t.take(7), "bearer "@) {
        trim(t.skip(7))
    } else {
        t
    }
}

/// Normalises an API token given with or without its `Bearer ` scheme.
pub fn normalize_api_token(token: &str) -> (r: String)
    ensures
        r@ == normalized_api_token(token@),
{
    let t = trim_str(token);
    let v = chars_of(t.as_str());
    if v.len() >= 7 {
        let head = string_from_range(&v, 0, 7);
        if eq_ignore_case_ascii(head.as_str(), "bearer ") {
            let rest = string_from_range(&v, 7, v.len());
            assert(v@.subrange(7, v.len() as int) =~= v@.skip(7));
            assert(v@.subrange(0, 7) =~= v@.take(7));
            return trim_str(rest.as_str());
        }
        assert(v@.subrange(0, 7) =~= v@.take(7));
    }
    t
}

// ---------------------------------------------------------------------------
// Conversation ids per session
// ---------------------------------------------------------------------------

/// The map an entry list stands for: later entries override earlier ones.
pub open spec fn entries_map(e: Seq<(String, String)>) -> Map<Seq<char>, Seq<char>>
    decreases e.len(),
{
    if e.len() == 0 {
        Map::empty()
    } else {
        entries_map(e.drop_last()).insert(e.last().0@, e.last().1@)
    }
}

/// Conversation id of each chat session, as a provider assigned it.
pub struct ConversationMap {
    entries: Vec<(String, String)>,
}

impl View for ConversationMap {
    type V = Map<Seq<char>, Seq<char>>;

    closed spec fn view(&self) -> Map<Seq<char>, Seq<char>> {
        entries_map(self.entries@)
    }
}

/// `k` is not the key of any entry after position `i`.
pub open spec fn last_with_key(e: Seq<(String, String)>, i: int, k: Seq<char>) -> bool {
    0 <= i < e.len() && e[i].0@ == k && forall|j: int| i < j < e.len() ==> e[j].0@ != k
}

proof fn lemma_lookup_last(e: Seq<(String, String)>, i: int, k: Seq<char>)
    requires
        last_with_key(e, i, k),
    ensures
        entries_map(e).contains_key(k),
        entries_map(e)[k] == e[i].1@,
    decreases e.len(),
{
    if i < e.len() - 1 {
        assert(e.last().0@ != k);
        lemma_lookup_last(e.drop_last(), i, k);
    }
}

proof fn lemma_lookup_absent(e: Seq<(String, String)>, k: Seq<char>)
    requires
        forall|j: int| 0 <= j < e.len() ==> e[j].0@ != k,
    ensures
        !entries_map(e).contains_key(k),
    decreases e.len(),
{
    if e.len() > 0 {
        lemma_lookup_absent(e.drop_last(), k);
    }
}

proof fn lemma_update_last(e: Seq<(String, String)>, i: int, k: String, v: String)
    requires
        last_with_key(e, i, k@),
    ensures
        entries_map(e.update(i, (k, v))) == entries_map(e).insert(k@, v@),
    decreases e.len(),
{
    let e2 = e.update(i, (k, v));
    if i == e.len() - 1 {
        assert(e2.drop_last() =~= e.drop_last());
    } else {
        assert(e2.drop_last() =~= e.drop_last().update(i, (k, v)));
        lemma_update_last(e.drop_last(), i, k, v);
        assert(e.last().0@ != k@);
        assert(entries_map(e2) =~= entries_map(e).insert(k@, v@));
    }
}

impl ConversationMap {
    /// An empty map.
    pub fn new() -> (r: Self)
        ensures
            r@ == Map::<Seq<char>, Seq<char>>::empty(),
    {
        ConversationMap { entries: Vec::new() }
    }

    /// Position of the last entry for `key`.
    fn position(&self, key: &str) -> (r: Option<usize>)
        ensures
            match r {
                Some(i) => last_with_key(self.entries@, i as int, key@),
                None => forall|j: int| 0 <= j < self.entries@.len() ==> self.entries@[j].0@ != key@,
            },
    {
        let mut n = self.entries.len();
        while n > 0
            invariant
                n <= self.entries.len(),
                forall|j: int| n <= j < self.entries@.len() ==> self.entries@[j].0@ != key@,
            decreases n,
        {
            if crate::text::eq_str(self.entries[n - 1].0.as_str(), key) {
                return Some(n - 1);
            }
            n = n - 1;
        }
        None
    }
}

/// The conversation id of a (trimmed, non-empty) session, or empty.
pub open spec fn conversation_lookup(m: Map<Seq<char>, Seq<char>>, session_id: Seq<char>) -> Seq<char> {
    let s = trim(session_id);
    if s.len() > 0 && m.contains_key(s) { m[s] } else { Seq::empty() }
}

/// The conversation id recorded for a session.
pub fn get_conversation_id(map: &ConversationMap, session_id: &str) -> (r: String)
    ensures
        r@ == conversation_lookup(map@, session_id@),
{
    let session = trim_str(session_id);
    if session.as_str().is_empty() {
        return String::new();
    }
    match map.position(session.as_str()) {
        Some(i) => {
            proof {
                lemma_lookup_last(map.entries@, i as int, session@);
            }
            map.entries[i].1.clone()
        },
        None => {
            proof {
                lemma_lookup_absent(map.entries@, session@);
            }
            String::new()
        },
    }
}

/// The map after recording a conversation id; blank ids change nothing.
pub open spec fn conversation_recorded(
    m: Map<Seq<char>, Seq<char>>,
    session_id: Seq<char>,
    conversation_id: Seq<char>,
) -> Map<Seq<char>, Seq<char>> {
    let s = trim(session_id);
    let c = trim(conversation_id);
    if s.len() == 0 || c.len() == 0 { m } else { m.insert(s, c) }
}

/// Records the conversation id a provider assigned to a session.
pub fn set_conversation_id(map: &mut ConversationMap, session_id: &str, conversation_id: &str)
    ensures
        final(map)@ == conversation_recorded(old(map)@, session_id@, conversation_id@),
{
    let session = trim_str(session_id);
    let conversation = trim_str(conversation_id);
    if session.as_str().is_empty() || conversation.as_str().is_empty() {
        return;
    }
    match map.position(session.as_str()) {
        Some(i) => {
            proof {
                lemma_update_last(map.entries@, i as int, map.entries@[i as int].0, conversation);
            }
            let key = map.entries[i].0.clone();
            map.entries.set(i, (key, conversation));
        },
        None => {
            let ghost before = map.entries@;
            map.entries.push((session, conversation));
            assert(map.entries@.drop_last() =~= before);
        },
    }
}

/// Reading a session's conversation id gives back the id last recorded for
/// it (both trimmed), provided neither was blank.
pub proof fn law_conversation_read_after_write(
    m: Map<Seq<char>, Seq<char>>,
    session_id: Seq<char>,
    conversation_id: Seq<char>,
)
    requires
        trim(session_id).len() > 0,
        trim(conversation_id).len() > 0,
    ensures
        conversation_lookup(conversation_recorded(m, session_id, conversation_id), session_id)
            == trim(conversation_id),
{
}

/// Recording an id for one session leaves every other session's id as it
/// was.
pub proof fn law_conversation_other_sessions(
    m: Map<Seq<char>, Seq<char>>,
    session_id: Seq<char>,
    conversation_id: Seq<char>,
    other: Seq<char>,
)
    requires
        trim(other) != trim(session_id),
    ensures
        conversation_lookup(conversation_recorded(m, session_id, conversation_id), other)
            == conversation_lookup(m, other),
{
}

// ---------------------------------------------------------------------------
// Reporting a provider's failure
// ---------------------------------------------------------------------------

/// The message a provider's failure is reported with on its reply stream:
/// an empty system message whose extra member `error` is the error text
/// as a JSON string.
pub fn llm_error_message(err: &str) -> (r: ChatMessage)
    ensures
        r.role == MessageRole::System,
        r.content@.len() == 0,
        r.name is None,
        r.tool_call_id is None,
        r.extra@.len() == 1,
        r.extra@[0].0@ == crate::llm::provider::LLM_EXTRA_ERROR_KEY@,
        r.extra@[0].1@ == crate::json_fields::json_quoted(err@),
        crate::llm::message::extra_member(r.extra@, "error"@) == Some(crate::json_fields::json_quoted(err@)),
{
    proof {
        reveal_strlit("error");
        reveal_strlit("");
    }
    let mut msg = ChatMessage::system("");
    let value = crate::json_fields::json_quote(err);
    msg.extra.push((owned(crate::llm::provider::LLM_EXTRA_ERROR_KEY), value));
    assert(msg.extra@.drop_last().len() == 0);
    msg
}

} // verus!
