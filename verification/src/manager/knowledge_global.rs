//! The knowledge-search settings the device server is given: one
//! configuration per provider, and the provider used by default.
use vstd::prelude::*;
use crate::json_fields::{canonical_json, is_json_object, json_canonical, json_is_object, json_quote, json_quoted};
use crate::manager::records::ConfigRow;
use crate::text::{concat3, eq_str, join, join_strings, lemma_lex_less_order, lemma_lex_less_total, lex_less, lowercase, owned, str_less, to_lowercase, trim, trim_str};

verus! {

broadcast use vstd::string::group_string_axioms;

/// The provider a configuration is filed under: trimmed, lower-cased.
pub open spec fn provider_key(c: ConfigRow) -> Seq<char> {
    lowercase(trim(c.provider@))
}

/// The configuration chosen per provider among the first `n`: enabled
/// ones with a provider only; the first one, unless a later one is marked
/// default while the chosen one is not.
pub open spec fn pick(cs: Seq<ConfigRow>, n: nat) -> Map<Seq<char>, int>
    decreases n,
{
    if n == 0 {
        Map::empty()
    } else {
        let m = pick(cs, (n - 1) as nat);
        let c = cs[n - 1];
        let k = provider_key(c);
        if !c.enabled || k.len() == 0 {
            m
        } else if !m.contains_key(k) {
            m.insert(k, n - 1)
        } else if !cs[m[k]].is_default && c.is_default {
            m.insert(k, n - 1)
        } else {
            m
        }
    }
}

/// `s` lists `m` in increasing key order.
pub open spec fn lists(s: Seq<(Seq<char>, int)>, m: Map<Seq<char>, int>) -> bool {
    &&& forall|i: int, j: int| 0 <= i < j < s.len() ==> lex_less(s[i].0, s[j].0)
    &&& forall|k: Seq<char>| m.contains_key(k) <==> exists|i: int| 0 <= i < s.len() && s[i].0 == k
    &&& forall|i: int| 0 <= i < s.len() ==> m[s[i].0] == s[i].1
}

/// Among the first `n` listed providers, the last whose configuration is
/// marked default.
pub open spec fn default_from(s: Seq<(Seq<char>, int)>, cs: Seq<ConfigRow>, n: nat) -> Option<Seq<char>>
    decreases n,
{
    if n == 0 {
        None
    } else if cs[s[n - 1].1].is_default {
        Some(s[n - 1].0)
    } else {
        default_from(s, cs, (n - 1) as nat)
    }
}

/// The default provider of a listing: the last one marked default, else
/// the first one.
pub open spec fn listed_default(s: Seq<(Seq<char>, int)>, cs: Seq<ConfigRow>) -> Seq<char> {
    match default_from(s, cs, s.len()) {
        Some(d) => d,
        None => s[0].0,
    }
}

/// The object a configuration's JSON text is, rendered as `serde_json`
/// renders objects; `None` when the text is not a JSON object.
pub open spec fn object_text(text: Seq<char>) -> Option<Seq<char>> {
    if is_json_object(text) { canonical_json(text) } else { None }
}

/// Renders a configuration's JSON object again, if it is one.
fn json_object_text(text: &str) -> (r: Option<String>)
    ensures
        crate::text::opt_view(r) == object_text(text@),
{
    if json_is_object(text) { json_canonical(text) } else { None }
}

/// The settings one provider gets: its configuration's JSON object, or an
/// empty object.
pub open spec fn payload(c: ConfigRow) -> Seq<char> {
    if trim(c.json_data@).len() > 0 && object_text(c.json_data@) is Some {
        object_text(c.json_data@).unwrap()
    } else {
        "{}"@
    }
}

/// The settings: the default provider and each provider's configuration.
#[derive(Debug, Clone)]
pub struct KnowledgeGlobal {
    pub default_provider: String,
    pub providers: Vec<(String, String)>,
}

/// The settings for the configurations (of type `knowledge_search`): `dify`
/// and no providers when none is enabled with a provider.
pub open spec fn knowledge_global_for(cs: Seq<ConfigRow>, s: Seq<(Seq<char>, int)>, r: KnowledgeGlobal) -> bool {
    let m = pick(cs, cs.len());
    &&& lists(s, m)
    &&& r.providers@.len() == s.len()
    &&& forall|q: int| 0 <= q < s.len() ==> r.providers@[q].0@ == s[q].0 && r.providers@[q].1@ == payload(cs[s[q].1])
    &&& r.default_provider@ == if s.len() == 0 { "dify"@ } else { listed_default(s, cs) }
}

/// Finds where key `k` belongs in a listing.
fn find_slot(v: &Vec<(String, usize)>, k: &str) -> (i: usize)
    ensures
        i <= v.len(),
        forall|j: int| 0 <= j < i ==> lex_less(listing(v@)[j].0, k@),
        i < v.len() ==> !lex_less(listing(v@)[i as int].0, k@),
{
    let mut i: usize = 0;
    while i < v.len() && str_less(v[i].0.as_str(), k)
        invariant
            i <= v.len(),
            forall|j: int| 0 <= j < i ==> lex_less(listing(v@)[j].0, k@),
        decreases v.len() - i,
    {
        assert(listing(v@)[i as int].0 == v@[i as int].0@);
        i = i + 1;
    }
    i
}

fn payload_of(c: &ConfigRow) -> (r: String)
    ensures
        r@ == payload(*c),
{
    if !trim_str(c.json_data.as_str()).as_str().is_empty() {
        match json_object_text(c.json_data.as_str()) {
            Some(t) => t,
            None => owned("{}"),
        }
    } else {
        owned("{}")
    }
}

/// The plain listing of a vector of (provider, position) pairs.
pub open spec fn listing(v: Seq<(String, usize)>) -> Seq<(Seq<char>, int)> {
    v.map_values(|e: (String, usize)| (e.0@, e.1 as int))
}

/// Builds the knowledge-search settings from the stored configurations.
pub fn build_knowledge_global(configs: &Vec<ConfigRow>) -> (r: KnowledgeGlobal)
    ensures
        exists|s: Seq<(Seq<char>, int)>| knowledge_global_for(configs@, s, r),
{
    let ghost cs = configs@;
    let mut sel: Vec<(String, usize)> = Vec::new();
    let mut n: usize = 0;
    assert(lists(listing(sel@), pick(cs, 0))) by {
        assert(listing(sel@) =~= Seq::empty());
    }
    while n < configs.len()
        invariant
            n <= configs.len(),
            cs == configs@,
            forall|i: int| 0 <= i < sel.len() ==> (sel@[i].1 as int) < n,
            lists(listing(sel@), pick(cs, n as nat)),
        decreases configs.len() - n,
    {
        let c = &configs[n];
        let key = to_lowercase(trim_str(c.provider.as_str()).as_str());
        let ghost m = pick(cs, n as nat);
        let ghost s = listing(sel@);
        if c.enabled && !key.as_str().is_empty() {
            let j = find_slot(&sel, key.as_str());
            if j < sel.len() && eq_str(sel[j].0.as_str(), key.as_str()) {
                let prev = sel[j].1;
                proof {
                    assert(s[j as int].0 == key@);
                    assert(m.contains_key(key@));
                    assert(m[key@] == prev as int);
                }
                if !configs[prev].is_default && c.is_default {
                    sel.set(j, (key, n));
                    let ghost t = listing(sel@);
                    assert(t =~= s.update(j as int, (key@, n as int)));
                    let ghost m2 = m.insert(key@, n as int);
                    assert forall|k: Seq<char>| m2.contains_key(k) <==> exists|i: int| 0 <= i < t.len() && t[i].0 == k by {
                        if m.contains_key(k) {
                            let i = choose|i: int| 0 <= i < s.len() && s[i].0 == k;
                            assert(t[i].0 == k);
                        }
                        if exists|i: int| 0 <= i < t.len() && t[i].0 == k {
                            let i = choose|i: int| 0 <= i < t.len() && t[i].0 == k;
                            if i != j {
                                assert(s[i].0 == k);
                            }
                        }
                    }
                    assert forall|i: int| 0 <= i < t.len() implies m2[t[i].0] == t[i].1 by {
                        if i != j {
                            assert(s[i] == t[i]);
                            assert(s[i].0 != key@) by {
                                lemma_lex_less_order(s[i].0, s[i].0, s[i].0);
                            }
                        }
                    }
                }
            } else {
                proof {
                    if j < sel.len() {
                        lemma_lex_less_total(s[j as int].0, key@);
                    }
                    assert(!m.contains_key(key@)) by {
                        if m.contains_key(key@) {
                            let i = choose|i: int| 0 <= i < s.len() && s[i].0 == key@;
                            if i < j {
                                lemma_lex_less_order(key@, key@, key@);
                            } else if i > j {
                                lemma_lex_less_order(key@, s[j as int].0, key@);
                                assert(lex_less(s[j as int].0, s[i].0));
                            }
                        }
                    }
                }
                sel.insert(j, (key, n));
                let ghost t = listing(sel@);
                assert(t =~= s.insert(j as int, (key@, n as int)));
                let ghost m2 = m.insert(key@, n as int);
                assert forall|a: int, b: int| 0 <= a < b < t.len() implies lex_less(t[a].0, t[b].0) by {
                    if a < j && b == j {
                    } else if a < j && b > j {
                        lemma_lex_less_order(t[a].0, key@, t[b].0);
                    } else if a == j && b > j {
                        lemma_lex_less_order(key@, s[j as int].0, t[b].0);
                        if b > j + 1 {
                            assert(lex_less(s[j as int].0, s[b - 1].0));
                        }
                    }
                }
                assert forall|k: Seq<char>| m2.contains_key(k) <==> exists|i: int| 0 <= i < t.len() && t[i].0 == k by {
                    if m.contains_key(k) {
                        let i = choose|i: int| 0 <= i < s.len() && s[i].0 == k;
                        if i < j {
                            assert(t[i].0 == k);
                        } else {
                            assert(t[i + 1].0 == k);
                        }
                    }
                    if k == key@ {
                        assert(t[j as int].0 == k);
                    }
                    if exists|i: int| 0 <= i < t.len() && t[i].0 == k {
                        let i = choose|i: int| 0 <= i < t.len() && t[i].0 == k;
                        if i < j {
                            assert(s[i].0 == k);
                        } else if i > j {
                            assert(s[i - 1].0 == k);
                        }
                    }
                }
                assert forall|i: int| 0 <= i < t.len() implies m2[t[i].0] == t[i].1 by {
                    if i < j {
                        assert(t[i] == s[i]);
                        assert(lex_less(s[i].0, key@));
                        lemma_lex_less_order(key@, key@, key@);
                    } else if i > j {
                        assert(t[i] == s[i - 1]);
                        assert(!lex_less(s[j as int].0, key@));
                        if s[i - 1].0 == key@ {
                            if i - 1 > j {
                                assert(lex_less(s[j as int].0, s[i - 1].0));
                            }
                        }
                    }
                }
            }
        }
        n = n + 1;
    }
    let ghost s = listing(sel@);
    assert(cs.len() == n);
    // The settings of each provider, and the default.
    let mut providers: Vec<(String, String)> = Vec::new();
    let mut default_provider = String::new();
    let mut found_default = false;
    let mut i: usize = 0;
    while i < sel.len()
        invariant
            i <= sel.len(),
            s == listing(sel@),
            cs == configs@,
            forall|q: int| 0 <= q < sel.len() ==> (sel@[q].1 as int) < configs.len(),
            providers@.len() == i,
            forall|q: int| 0 <= q < i ==> providers@[q].0@ == s[q].0 && providers@[q].1@ == payload(cs[s[q].1]),
            found_default == default_from(s, cs, i as nat) is Some,
            found_default ==> default_provider@ == default_from(s, cs, i as nat).unwrap(),
        decreases sel.len() - i,
    {
        let idx = sel[i].1;
        let c = &configs[idx];
        let text = payload_of(c);
        assert(s[i as int] == (sel@[i as int].0@, idx as int));
        providers.push((sel[i].0.clone(), text));
        if c.is_default {
            default_provider = sel[i].0.clone();
            found_default = true;
        }
        i = i + 1;
    }
    if sel.len() == 0 {
        let r = KnowledgeGlobal { default_provider: owned("dify"), providers };
        assert(knowledge_global_for(configs@, s, r));
        return r;
    }
    if !found_default {
        default_provider = sel[0].0.clone();
    }
    let r = KnowledgeGlobal { default_provider, providers };
    assert(knowledge_global_for(configs@, s, r));
    r
}

/// The provider used when none is named: the trimmed, lower-cased default,
/// or `dify` when that is blank.
pub open spec fn default_choice(d: Seq<char>) -> Seq<char> {
    let t = lowercase(trim(d));
    if t.len() > 0 { t } else { "dify"@ }
}

/// The knowledge provider used by default.
pub fn resolve_default_knowledge_provider(configs: &Vec<ConfigRow>) -> (r: String)
    ensures
        exists|g: KnowledgeGlobal, s: Seq<(Seq<char>, int)>| knowledge_global_for(configs@, s, g) && r@ == default_choice(g.default_provider@),
{
    let g = build_knowledge_global(configs);
    let t = to_lowercase(trim_str(g.default_provider.as_str()).as_str());
    if t.as_str().is_empty() { owned("dify") } else { t }
}

/// One provider's member of the settings object.
pub open spec fn provider_member(p: (Seq<char>, Seq<char>)) -> Seq<char> {
    json_quoted(p.0) + ":"@ + p.1
}

impl KnowledgeGlobal {
    /// The settings as JSON text, members in the order `serde_json` prints
    /// them.
    pub fn to_json(&self) -> (r: String)
        ensures
            r@ == "{\"default_provider\":"@ + json_quoted(self.default_provider@) + ",\"providers\":{"@
                + join(self.providers@.map_values(|p: (String, String)| provider_member((p.0@, p.1@))), ","@) + "}}"@,
    {
        let mut members: Vec<String> = Vec::new();
        let mut i: usize = 0;
        while i < self.providers.len()
            invariant
                i <= self.providers.len(),
                members@.map_values(|m: String| m@) == self.providers@.take(i as int).map_values(|p: (String, String)| provider_member((p.0@, p.1@))),
            decreases self.providers.len() - i,
        {
            let q = json_quote(self.providers[i].0.as_str());
            let m = concat3(q.as_str(), ":", self.providers[i].1.as_str());
            let ghost before = members@.map_values(|m: String| m@);
            members.push(m);
            assert(self.providers@.take(i + 1) =~= self.providers@.take(i as int).push(self.providers@[i as int]));
            assert(members@.map_values(|m: String| m@) =~= before.push(m@));
            i = i + 1;
        }
        assert(self.providers@.take(self.providers.len() as int) =~= self.providers@);
        let body = join_strings(&members, ",");
        let d = json_quote(self.default_provider.as_str());
        let head = concat3("{\"default_provider\":", d.as_str(), ",\"providers\":{");
        concat3(head.as_str(), body.as_str(), "}}")
    }
}

/// The default provider of a non-empty listing is one of the listed
/// providers.
pub proof fn law_default_is_listed(s: Seq<(Seq<char>, int)>, cs: Seq<ConfigRow>)
    requires
        s.len() > 0,
    ensures
        exists|i: int| 0 <= i < s.len() && s[i].0 == listed_default(s, cs),
{
    lemma_default_from_listed(s, cs, s.len());
    if default_from(s, cs, s.len()) is None {
        assert(s[0].0 == listed_default(s, cs));
    }
}

proof fn lemma_default_from_listed(s: Seq<(Seq<char>, int)>, cs: Seq<ConfigRow>, n: nat)
    requires
        n <= s.len(),
    ensures
        default_from(s, cs, n) matches Some(d) ==> exists|i: int| 0 <= i < n && s[i].0 == d,
    decreases n,
{
    if n > 0 {
        lemma_default_from_listed(s, cs, (n - 1) as nat);
        if cs[s[n - 1].1].is_default {
            assert(s[n - 1].0 == default_from(s, cs, n).unwrap());
        }
    }
}

} // verus!
