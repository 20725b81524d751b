//! Knowledge search: which provider serves a knowledge base and under which
//! external id.
use vstd::prelude::*;
use crate::json_fields::{json_top_field, read_json_field, JsonField, JsonFieldView};
use crate::text::{
    chars_of, char_is_whitespace, concat3, contains, contains_str, decimal, i64_to_string, is_white_space, lowercase,
    owned, push_char, to_lowercase, trim, trim_str,
};

verus! {

broadcast use vstd::string::group_string_axioms;

/// A provider name as stored: trimmed and lower-cased, with the empty name
/// meaning the local store.
pub open spec fn kb_provider(provider: Seq<char>) -> Seq<char> {
    let p = lowercase(trim(provider));
    if p.len() == 0 { "local"@ } else { p }
}

/// Normalises the provider of a knowledge base.
pub fn normalize_kb_provider(provider: &str) -> (r: String)
    ensures
        r@ == kb_provider(provider@),
{
    let p = to_lowercase(trim_str(provider).as_str());
    if p.as_str().is_empty() {
        owned("local")
    } else {
        p
    }
}

/// The keys under which a knowledge base's configuration may name its
/// external dataset, in order of preference.
pub open spec fn external_id_keys() -> Seq<Seq<char>> {
    seq!["external_kb_id"@, "dataset_id"@, "knowledge_base_id"@, "kb_id"@]
}

/// The trimmed, non-empty string under `key`, if any.
pub open spec fn nonempty_text(f: Option<JsonFieldView>) -> Option<Seq<char>> {
    match f {
        Some(JsonFieldView::Text(s)) => if trim(s).len() > 0 { Some(trim(s)) } else { None },
        _ => None,
    }
}

/// The first non-empty id among `keys[i..]`.
pub open spec fn first_external_id(config_json: Seq<char>, keys: Seq<Seq<char>>, i: nat) -> Option<Seq<char>>
    decreases keys.len() - i,
{
    if i >= keys.len() {
        None
    } else {
        match nonempty_text(json_top_field(config_json, keys[i as int])) {
            Some(s) => Some(s),
            None => first_external_id(config_json, keys, i + 1),
        }
    }
}

/// The external dataset id of a knowledge base: the first non-empty string
/// among the id keys of its configuration, else its local id in decimal.
pub open spec fn external_kb_id(config_json: Seq<char>, local_id: int) -> Seq<char> {
    match first_external_id(config_json, external_id_keys(), 0) {
        Some(s) => s,
        None => decimal(local_id),
    }
}

fn nonempty_text_field(config_json: &str, key: &str) -> (r: Option<String>)
    ensures
        crate::text::opt_view(r) == nonempty_text(json_top_field(config_json@, key@)),
{
    match read_json_field(config_json, key) {
        Some(JsonField::Text(s)) => {
            let t = trim_str(s.as_str());
            if t.as_str().is_empty() { None } else { Some(t) }
        },
        _ => None,
    }
}

/// Finds the external dataset id of a knowledge base.
pub fn external_kb_id_from_json(config_json: &str, local_id: i64) -> (r: String)
    ensures
        r@ == external_kb_id(config_json@, local_id as int),
{
    let keys: Vec<&'static str> = vec!["external_kb_id", "dataset_id", "knowledge_base_id", "kb_id"];
    let ghost kv = keys@.map_values(|s: &str| s@);
    assert(kv =~= external_id_keys());
    let mut i: usize = 0;
    while i < keys.len()
        invariant
            i <= keys.len(),
            kv == keys@.map_values(|s: &str| s@),
            kv == external_id_keys(),
            first_external_id(config_json@, kv, 0) == first_external_id(config_json@, kv, i as nat),
        decreases keys.len() - i,
    {
        assert(kv[i as int] == keys@[i as int]@);
        if let Some(s) = nonempty_text_field(config_json, keys[i]) {
            return s;
        }
        i = i + 1;
    }
    i64_to_string(local_id)
}


// ---------------------------------------------------------------------------
// Matching documents against a query
// ---------------------------------------------------------------------------

/// The words of a text as `str::split_whitespace` gives them, read from
/// the start: the words finished so far and the word under way.
pub open spec fn words_state(s: Seq<char>) -> (Seq<Seq<char>>, Seq<char>)
    decreases s.len(),
{
    if s.len() == 0 {
        (Seq::empty(), Seq::empty())
    } else {
        let (done, cur) = words_state(s.drop_last());
        if is_white_space(s.last()) {
            if cur.len() > 0 { (done.push(cur), Seq::empty()) } else { (done, Seq::empty()) }
        } else {
            (done, cur.push(s.last()))
        }
    }
}

/// The words of a text: its maximal runs of characters that are not white
/// space, in order.
pub open spec fn words_of(s: Seq<char>) -> Seq<Seq<char>> {
    let (done, cur) = words_state(s);
    if cur.len() > 0 { done.push(cur) } else { done }
}

/// Splits a text into its words.
pub fn split_words(s: &str) -> (r: Vec<String>)
    ensures
        r@.map_values(|w: String| w@) == words_of(s@),
{
    let cs = chars_of(s);
    let mut done: Vec<String> = Vec::new();
    let mut cur = String::new();
    let mut i: usize = 0;
    while i < cs.len()
        invariant
            0 <= i <= cs.len(),
            cs@ == s@,
            (done@.map_values(|w: String| w@), cur@) == words_state(s@.take(i as int)),
        decreases cs.len() - i,
    {
        let c = cs[i];
        proof {
            assert(s@.take(i + 1).drop_last() =~= s@.take(i as int));
            assert(s@.take(i + 1).last() == c);
        }
        if char_is_whitespace(c) {
            if !cur.as_str().is_empty() {
                let ghost prev = done@.map_values(|w: String| w@);
                let w = cur;
                done.push(w);
                cur = String::new();
                proof {
                    assert(done@.map_values(|w: String| w@) =~= prev.push(w@));
                }
            } else {
                cur = String::new();
            }
        } else {
            push_char(&mut cur, c);
        }
        i = i + 1;
    }
    proof {
        assert(s@.take(cs.len() as int) =~= s@);
    }
    if !cur.as_str().is_empty() {
        let ghost prev = done@.map_values(|w: String| w@);
        done.push(cur);
        proof {
            assert(done@.map_values(|w: String| w@) =~= prev.push(words_state(s@).1));
        }
    }
    done
}

/// How well a document matches a query, before it is turned into a score.
#[derive(Debug, Clone, Copy, PartialEq, Eq)]
pub enum KbMatch {
    /// The document holds the whole query.
    Whole,
    /// The query has no words.
    NoWords,
    /// `matched` of the query's `total` words occur in the document.
    Words { matched: usize, total: usize },
}

/// The number of words among the first `n` that occur in the text.
pub open spec fn words_found(text: Seq<char>, words: Seq<Seq<char>>, n: int) -> nat
    decreases n,
{
    if n <= 0 {
        0
    } else {
        words_found(text, words, n - 1) + if contains(text, words[n - 1]) { 1nat } else { 0nat }
    }
}

/// The text a document is searched in: its title, a space and its
/// content, lower-cased.
pub open spec fn searched_text(title: Seq<char>, content: Seq<char>) -> Seq<char> {
    lowercase(title + " "@ + content)
}

/// How a document (title and content) matches a query: the whole query
/// found in the searched text, else no words, else the number of the
/// query's words found.
pub open spec fn kb_match_of(title: Seq<char>, content: Seq<char>, query: Seq<char>) -> KbMatch {
    let text = searched_text(title, content);
    if contains(text, query) {
        KbMatch::Whole
    } else if words_of(query).len() == 0 {
        KbMatch::NoWords
    } else {
        KbMatch::Words {
            matched: words_found(text, words_of(query), words_of(query).len() as int) as usize,
            total: words_of(query).len() as usize,
        }
    }
}

/// Any piece of the document's title, a space and its content, lower-cased
/// together, is a whole match: the title is searched as well as the
/// content, in that order.
pub proof fn law_title_and_content_searched(title: Seq<char>, content: Seq<char>, i: int, j: int)
    requires
        0 <= i <= j <= lowercase(title + " "@ + content).len(),
    ensures
        kb_match_of(title, content, lowercase(title + " "@ + content).subrange(i, j)) == KbMatch::Whole,
{
    reveal_strlit(" ");
    let text = lowercase(title + " "@ + content);
    assert(crate::text::occurs_at(text, text.subrange(i, j), i));
}

proof fn lemma_words_found_bound(text: Seq<char>, words: Seq<Seq<char>>, n: int)
    ensures
        words_found(text, words, n) <= if n < 0 { 0 } else { n },
    decreases n,
{
    if n > 0 {
        lemma_words_found_bound(text, words, n - 1);
    }
}

/// A partial match counts the query's words, and never more of them than
/// the query has.
pub proof fn law_words_counted_within_query(title: Seq<char>, content: Seq<char>, query: Seq<char>)
    requires
        words_of(query).len() <= usize::MAX,
    ensures
        kb_match_of(title, content, query) matches KbMatch::Words { matched, total } ==> {
            &&& total == words_of(query).len()
            &&& matched <= total
        },
{
    lemma_words_found_bound(searched_text(title, content), words_of(query), words_of(query).len() as int);
}

/// How a document (title and content) matches a query, the query being
/// trimmed and lower-cased already: the whole query found in the
/// lower-cased text, else the number of its words found.
pub fn kb_text_match(title: &str, content: &str, query: &str) -> (r: KbMatch)
    ensures
        r == kb_match_of(title@, content@, query@),
        contains(searched_text(title@, content@), query@) ==> r == KbMatch::Whole,
        !contains(searched_text(title@, content@), query@) && words_of(query@).len() == 0 ==> r == KbMatch::NoWords,
        !contains(searched_text(title@, content@), query@) && words_of(query@).len() > 0 ==> r == (KbMatch::Words {
            matched: words_found(searched_text(title@, content@), words_of(query@), words_of(query@).len() as int) as usize,
            total: words_of(query@).len() as usize,
        }),
{
    let joined = concat3(title, " ", content);
    let text = to_lowercase(joined.as_str());
    proof {
        reveal_strlit(" ");
    }
    if contains_str(text.as_str(), query) {
        return KbMatch::Whole;
    }
    let words = split_words(query);
    if words.len() == 0 {
        return KbMatch::NoWords;
    }
    let ghost ws = words@.map_values(|w: String| w@);
    let mut matched: usize = 0;
    let mut i: usize = 0;
    while i < words.len()
        invariant
            0 <= i <= words.len(),
            ws == words@.map_values(|w: String| w@),
            matched == words_found(text@, ws, i as int),
            matched <= i,
        decreases words.len() - i,
    {
        if contains_str(text.as_str(), words[i].as_str()) {
            matched = matched + 1;
        }
        i = i + 1;
    }
    KbMatch::Words { matched, total: words.len() }
}

} // verus!
