//! Administering users' voice-cloning allowances: what each allowance
//! shows, and what an administrator's edit changes.
use vstd::prelude::*;
use crate::manager::records::{ConfigRow, VoiceCloneQuotaRow};
use crate::manager::requests::VoiceCloneQuotaItem;
use crate::text::{concat, eq_str, owned, trim, trim_str};

verus! {

broadcast use vstd::string::group_string_axioms;

/// Allowances are for ordinary users only.
pub fn check_quota_user(role: &str) -> (r: Result<(), String>)
    ensures
        r is Ok <==> role@ == "user"@,
        r matches Err(m) ==> m@ == "仅支持为普通用户分配复刻额度"@,
{
    if eq_str(role, "user") {
        Ok(())
    } else {
        Err(owned("仅支持为普通用户分配复刻额度"))
    }
}

/// A user's allowance for one TTS configuration as listed.
#[derive(Debug, Clone)]
pub struct QuotaSummary {
    pub tts_config_id: String,
    pub tts_config_name: String,
    pub provider: String,
    pub enabled: bool,
    pub max_count: i64,
    pub used_count: i64,
    /// What is left, or -1 when the allowance is unlimited.
    pub remaining_count: i64,
}

/// The plain content of a listed allowance.
pub type QuotaView = (Seq<char>, Seq<char>, Seq<char>, bool, i64, i64, i64);

impl View for QuotaSummary {
    type V = QuotaView;

    open spec fn view(&self) -> QuotaView {
        (
            self.tts_config_id@,
            self.tts_config_name@,
            self.provider@,
            self.enabled,
            self.max_count,
            self.used_count,
            self.remaining_count,
        )
    }
}

/// The count recorded for a configuration id: the last entry for it.
pub open spec fn last_count(usage: Seq<(String, i64)>, id: Seq<char>) -> Option<i64>
    decreases usage.len(),
{
    if usage.len() == 0 {
        None
    } else if usage.last().0@ == id {
        Some(usage.last().1)
    } else {
        last_count(usage.drop_last(), id)
    }
}

/// The allowance stored for a configuration id: the last row for it.
pub open spec fn last_quota(quotas: Seq<VoiceCloneQuotaRow>, id: Seq<char>) -> Option<VoiceCloneQuotaRow>
    decreases quotas.len(),
{
    if quotas.len() == 0 {
        None
    } else if quotas.last().tts_config_id@ == id {
        Some(quotas.last())
    } else {
        last_quota(quotas.drop_last(), id)
    }
}

/// The clones counted for a configuration (0 when none).
pub open spec fn counted(usage: Seq<(String, i64)>, id: Seq<char>) -> i64 {
    match last_count(usage, id) {
        Some(n) => n,
        None => 0,
    }
}

/// The uses of an allowance: the larger of the clones counted and the uses
/// recorded with it.
pub open spec fn used_of(quota: Option<VoiceCloneQuotaRow>, counted: i64) -> i64 {
    match quota {
        Some(q) => if q.used_count > counted { q.used_count } else { counted },
        None => counted,
    }
}

/// What is left of an allowance: none below zero, -1 when unlimited.
pub open spec fn remaining_of(max: i64, used: i64) -> int {
    if max >= 0 {
        if max - used > 0 { max - used } else { 0 }
    } else {
        -1
    }
}

/// A listed allowance (no allowance means none: at most 0).
pub open spec fn summary(
    id: Seq<char>,
    name: Seq<char>,
    provider: Seq<char>,
    enabled: bool,
    quota: Option<VoiceCloneQuotaRow>,
    counted: i64,
) -> QuotaView {
    let max = match quota {
        Some(q) => q.max_count,
        None => 0,
    };
    let used = used_of(quota, counted);
    (id, name, provider, enabled, max, used, remaining_of(max, used) as i64)
}

/// The allowances of every TTS configuration, in order.
pub open spec fn config_summaries(
    configs: Seq<ConfigRow>,
    quotas: Seq<VoiceCloneQuotaRow>,
    usage: Seq<(String, i64)>,
) -> Seq<QuotaView> {
    configs.map_values(|c: ConfigRow| summary(
        c.config_id@,
        c.name@,
        c.provider@,
        c.enabled,
        last_quota(quotas, c.config_id@),
        counted(usage, c.config_id@),
    ))
}

/// Whether some configuration has the id.
pub open spec fn has_config(configs: Seq<ConfigRow>, id: Seq<char>) -> bool {
    exists|i: int| 0 <= i < configs.len() && configs[i].config_id@ == id
}

/// Whether a later allowance row has the same configuration id.
pub open spec fn superseded(quotas: Seq<VoiceCloneQuotaRow>, k: int) -> bool {
    exists|j: int| k < j < quotas.len() && quotas[j].tts_config_id@ == quotas[k].tts_config_id@
}

/// The allowances of configurations that are gone, among the first `n`
/// rows: each id once (its last row), in order, shown as deleted.
pub open spec fn orphan_summaries(
    quotas: Seq<VoiceCloneQuotaRow>,
    configs: Seq<ConfigRow>,
    usage: Seq<(String, i64)>,
    n: int,
) -> Seq<QuotaView>
    decreases n,
{
    if n <= 0 {
        Seq::empty()
    } else {
        let rest = orphan_summaries(quotas, configs, usage, n - 1);
        let q = quotas[n - 1];
        if has_config(configs, q.tts_config_id@) || superseded(quotas, n - 1) {
            rest
        } else {
            rest.push(summary(q.tts_config_id@, "(已删除配置)"@, Seq::empty(), false, Some(q), counted(usage, q.tts_config_id@)))
        }
    }
}

fn find_count(usage: &Vec<(String, i64)>, id: &str) -> (r: i64)
    requires
        forall|i: int| 0 <= i < usage@.len() ==> usage@[i].1 >= 0,
    ensures
        r == counted(usage@, id@),
        r >= 0,
{
    let mut i: usize = usage.len();
    proof {
        assert(usage@.take(i as int) =~= usage@);
    }
    while i > 0
        invariant
            i <= usage.len(),
            forall|k: int| 0 <= k < usage@.len() ==> usage@[k].1 >= 0,
            last_count(usage@, id@) == last_count(usage@.take(i as int), id@),
        decreases i,
    {
        proof {
            let t = usage@.take(i as int);
            assert(t.drop_last() =~= usage@.take(i - 1));
            assert(t.last() == usage@[i - 1]);
        }
        if eq_str(usage[i - 1].0.as_str(), id) {
            return usage[i - 1].1;
        }
        i = i - 1;
    }
    proof {
        assert(usage@.take(0) =~= Seq::<(String, i64)>::empty());
    }
    0
}

fn find_quota(quotas: &Vec<VoiceCloneQuotaRow>, id: &str) -> (r: Option<usize>)
    ensures
        match r {
            Some(k) => k < quotas.len() && last_quota(quotas@, id@) == Some(quotas@[k as int]),
            None => last_quota(quotas@, id@) is None,
        },
{
    let mut i: usize = quotas.len();
    proof {
        assert(quotas@.take(i as int) =~= quotas@);
    }
    while i > 0
        invariant
            i <= quotas.len(),
            last_quota(quotas@, id@) == last_quota(quotas@.take(i as int), id@),
        decreases i,
    {
        proof {
            let t = quotas@.take(i as int);
            assert(t.drop_last() =~= quotas@.take(i - 1));
            assert(t.last() == quotas@[i - 1]);
        }
        if eq_str(quotas[i - 1].tts_config_id.as_str(), id) {
            return Some(i - 1);
        }
        i = i - 1;
    }
    proof {
        assert(quotas@.take(0) =~= Seq::<VoiceCloneQuotaRow>::empty());
    }
    None
}

fn make_summary(
    id: &str,
    name: &str,
    provider: &str,
    enabled: bool,
    quota: Option<&VoiceCloneQuotaRow>,
    counted: i64,
) -> (r: QuotaSummary)
    requires
        counted >= 0,
    ensures
        r@ == summary(id@, name@, provider@, enabled, match quota { Some(q) => Some(*q), None => None }, counted),
{
    let (max, used) = match quota {
        Some(q) => (q.max_count, if q.used_count > counted { q.used_count } else { counted }),
        None => (0, counted),
    };
    let remaining = if max >= 0 {
        if max - used > 0 { max - used } else { 0 }
    } else {
        -1
    };
    QuotaSummary {
        tts_config_id: owned(id),
        tts_config_name: owned(name),
        provider: owned(provider),
        enabled,
        max_count: max,
        used_count: used,
        remaining_count: remaining,
    }
}

/// Lists a user's allowances: one for each TTS configuration, in order,
/// then those of configurations that are gone.  `usage` counts the user's
/// clones per configuration (counts are never negative).  Where a
/// configuration has several entries the last one counts.
pub fn voice_clone_quota_summaries(
    configs: &Vec<ConfigRow>,
    quotas: &Vec<VoiceCloneQuotaRow>,
    usage: &Vec<(String, i64)>,
) -> (r: Vec<QuotaSummary>)
    requires
        forall|i: int| 0 <= i < usage@.len() ==> usage@[i].1 >= 0,
    ensures
        r@.map_values(|s: QuotaSummary| s@) == config_summaries(configs@, quotas@, usage@)
            + orphan_summaries(quotas@, configs@, usage@, quotas@.len() as int),
{
    let mut out: Vec<QuotaSummary> = Vec::new();
    let mut i: usize = 0;
    while i < configs.len()
        invariant
            0 <= i <= configs.len(),
            forall|k: int| 0 <= k < usage@.len() ==> usage@[k].1 >= 0,
            out@.map_values(|s: QuotaSummary| s@) == config_summaries(configs@.take(i as int), quotas@, usage@),
        decreases configs.len() - i,
    {
        let c = &configs[i];
        let n = find_count(usage, c.config_id.as_str());
        let q = match find_quota(quotas, c.config_id.as_str()) {
            Some(k) => Some(&quotas[k]),
            None => None,
        };
        let s = make_summary(c.config_id.as_str(), c.name.as_str(), c.provider.as_str(), c.enabled, q, n);
        let ghost prev = out@;
        out.push(s);
        proof {
            let want = config_summaries(configs@.take(i + 1), quotas@, usage@);
            let have = out@.map_values(|s: QuotaSummary| s@);
            assert(prev.map_values(|s: QuotaSummary| s@).len() == i);
            assert(want.len() == i + 1);
            assert forall|j: int| 0 <= j < have.len() implies have[j] == want[j] by {
                if j < i {
                    assert(have[j] == prev.map_values(|s: QuotaSummary| s@)[j]);
                    assert(configs@.take(i + 1)[j] == configs@.take(i as int)[j]);
                } else {
                    assert(configs@.take(i + 1)[j] == configs@[i as int]);
                }
            }
            assert(have =~= want);
        }
        i = i + 1;
    }
    proof {
        assert(configs@.take(configs.len() as int) =~= configs@);
    }
    let ghost head = out@.map_values(|s: QuotaSummary| s@);
    let mut k: usize = 0;
    while k < quotas.len()
        invariant
            0 <= k <= quotas.len(),
            forall|x: int| 0 <= x < usage@.len() ==> usage@[x].1 >= 0,
            head == config_summaries(configs@, quotas@, usage@),
            out@.map_values(|s: QuotaSummary| s@) == head + orphan_summaries(quotas@, configs@, usage@, k as int),
        decreases quotas.len() - k,
    {
        let q = &quotas[k];
        let id = q.tts_config_id.as_str();
        let mut known = false;
        let mut j: usize = 0;
        while j < configs.len()
            invariant
                0 <= j <= configs.len(),
                known ==> has_config(configs@, id@),
                !known ==> forall|x: int| 0 <= x < j ==> configs@[x].config_id@ != id@,
            decreases configs.len() - j,
        {
            if eq_str(configs[j].config_id.as_str(), id) {
                known = true;
            }
            j = j + 1;
        }
        let mut later = false;
        let mut m: usize = k + 1;
        while m < quotas.len()
            invariant
                k < m <= quotas.len(),
                id@ == quotas@[k as int].tts_config_id@,
                later ==> superseded(quotas@, k as int),
                !later ==> forall|x: int| k < x < m ==> quotas@[x].tts_config_id@ != id@,
            decreases quotas.len() - m,
        {
            if eq_str(quotas[m].tts_config_id.as_str(), id) {
                later = true;
            }
            m = m + 1;
        }
        let ghost prev = out@.map_values(|s: QuotaSummary| s@);
        if !known && !later {
            let n = find_count(usage, id);
            let s = make_summary(id, "(已删除配置)", "", false, Some(q), n);
            out.push(s);
            proof {
                reveal_strlit("(已删除配置)");
                reveal_strlit("");
                assert(""@ =~= Seq::<char>::empty());
                assert(out@.map_values(|s: QuotaSummary| s@) =~= prev.push(s@));
                assert(prev.push(s@) =~= head + orphan_summaries(quotas@, configs@, usage@, k + 1));
            }
        }
        k = k + 1;
    }
    out
}

// ---------------------------------------------------------------------------
// Editing allowances
// ---------------------------------------------------------------------------

/// The first item of an edit that is refused, and why: a blank id, or a
/// limit below -1.
pub open spec fn items_verdict(items: Seq<VoiceCloneQuotaItem>) -> Result<(), Seq<char>>
    decreases items.len(),
{
    if items.len() == 0 {
        Ok(())
    } else if trim(items[0].tts_config_id@).len() == 0 {
        Err("tts_config_id不能为空"@)
    } else if items[0].max_count < -1 {
        Err("max_count 不能小于 -1"@)
    } else {
        items_verdict(items.drop_first())
    }
}

/// The limits an edit sets: for each id (trimmed) the limit of its last
/// item, ids in the order of their last items.
pub open spec fn edited_limits(items: Seq<VoiceCloneQuotaItem>, n: int) -> Seq<(Seq<char>, i64)>
    decreases n,
{
    if n <= 0 {
        Seq::empty()
    } else {
        let rest = edited_limits(items, n - 1);
        let id = trim(items[n - 1].tts_config_id@);
        if exists|j: int| n - 1 < j < items.len() && #[trigger] trim(items[j].tts_config_id@) == id {
            rest
        } else {
            rest.push((id, items[n - 1].max_count))
        }
    }
}

/// The plain form of the limits read from an edit.
pub open spec fn limits_view(v: Seq<(String, i64)>) -> Seq<(Seq<char>, i64)> {
    v.map_values(|e: (String, i64)| (e.0@, e.1))
}

/// Reads the limits an edit sets.  An edit must name at least one
/// allowance; the first refused item (see `items_verdict`) refuses it.
pub fn read_quota_items(items: &Vec<VoiceCloneQuotaItem>) -> (r: Result<Vec<(String, i64)>, String>)
    ensures
        items@.len() == 0 ==> (r matches Err(m) && m@ == "items不能为空"@),
        items@.len() > 0 ==> match items_verdict(items@) {
            Err(e) => (r matches Err(m) && m@ == e),
            Ok(()) => (r matches Ok(v) && limits_view(v@) == edited_limits(items@, items@.len() as int)),
        },
{
    if items.len() == 0 {
        return Err(owned("items不能为空"));
    }
    let mut i: usize = 0;
    proof {
        assert(items@.skip(0) =~= items@);
    }
    while i < items.len()
        invariant
            0 <= i <= items.len(),
            items_verdict(items@) == items_verdict(items@.skip(i as int)),
        decreases items.len() - i,
    {
        proof {
            assert(items@.skip(i as int).drop_first() =~= items@.skip(i + 1));
            assert(items@.skip(i as int)[0] == items@[i as int]);
        }
        if trim_str(items[i].tts_config_id.as_str()).as_str().is_empty() {
            return Err(owned("tts_config_id不能为空"));
        }
        if items[i].max_count < -1 {
            return Err(owned("max_count 不能小于 -1"));
        }
        i = i + 1;
    }
    proof {
        assert(items@.skip(items.len() as int) =~= Seq::<VoiceCloneQuotaItem>::empty());
    }
    let mut ids: Vec<String> = Vec::new();
    let mut k: usize = 0;
    while k < items.len()
        invariant
            0 <= k <= items.len(),
            ids@.len() == k,
            forall|x: int| 0 <= x < k ==> ids@[x]@ == trim(items@[x].tts_config_id@),
        decreases items.len() - k,
    {
        ids.push(trim_str(items[k].tts_config_id.as_str()));
        k = k + 1;
    }
    let mut out: Vec<(String, i64)> = Vec::new();
    let mut n: usize = 0;
    while n < items.len()
        invariant
            0 <= n <= items.len(),
            ids@.len() == items@.len(),
            forall|x: int| 0 <= x < items@.len() ==> ids@[x]@ == trim(items@[x].tts_config_id@),
            limits_view(out@) == edited_limits(items@, n as int),
        decreases items.len() - n,
    {
        let mut later = false;
        let mut m: usize = n + 1;
        while m < items.len()
            invariant
                n < m <= items.len(),
                ids@.len() == items@.len(),
                forall|x: int| 0 <= x < items@.len() ==> ids@[x]@ == trim(items@[x].tts_config_id@),
                later ==> exists|j: int| n < j < items@.len() && #[trigger] trim(items@[j].tts_config_id@) == trim(items@[n as int].tts_config_id@),
                !later ==> forall|x: int| n < x < m ==> trim(items@[x].tts_config_id@) != trim(items@[n as int].tts_config_id@),
            decreases items.len() - m,
        {
            if eq_str(ids[m].as_str(), ids[n].as_str()) {
                later = true;
            }
            m = m + 1;
        }
        if !later {
            let ghost prev = out@;
            out.push((owned(ids[n].as_str()), items[n].max_count));
            proof {
                assert(limits_view(out@) =~= limits_view(prev).push((trim(items@[n as int].tts_config_id@), items@[n as int].max_count)));
            }
        }
        n = n + 1;
    }
    Ok(out)
}

/// What saving an allowance does.
#[derive(Debug, Clone)]
pub enum QuotaChange {
    /// A limit of -1 removes the allowance.
    Remove(String),
    /// Any other limit is stored with the uses counted: (id, limit, uses).
    Store(String, i64, i64),
}

/// Whether a limit may be saved: its configuration exists, or it removes
/// the allowance.
pub open spec fn limit_allowed(limit: (Seq<char>, i64), valid: Seq<Seq<char>>) -> bool {
    valid.contains(limit.0) || limit.1 == -1
}

/// The changes of an edit: refused, naming a configuration that does not
/// exist, when some limit is not allowed; else, for each limit, removal or
/// storage with the clones counted.
pub fn quota_changes(
    limits: &Vec<(String, i64)>,
    valid: &Vec<String>,
    usage: &Vec<(String, i64)>,
) -> (r: Result<Vec<QuotaChange>, String>)
    requires
        forall|i: int| 0 <= i < usage@.len() ==> usage@[i].1 >= 0,
    ensures
        r is Err <==> exists|i: int| 0 <= i < limits@.len()
            && !limit_allowed((limits@[i].0@, limits@[i].1), valid@.map_values(|v: String| v@)),
        r matches Err(m) ==> exists|i: int| 0 <= i < limits@.len()
            && !limit_allowed((limits@[i].0@, limits@[i].1), valid@.map_values(|v: String| v@))
            && m@ == "TTS配置不存在: "@ + limits@[i].0@,
        r matches Ok(cs) ==> cs@.len() == limits@.len() && forall|i: int| 0 <= i < limits@.len() ==> match #[trigger] cs@[i] {
            QuotaChange::Remove(id) => limits@[i].1 == -1 && id@ == limits@[i].0@,
            QuotaChange::Store(id, max, used) => limits@[i].1 != -1 && id@ == limits@[i].0@ && max == limits@[i].1
                && used == counted(usage@, limits@[i].0@),
        },
{
    let ghost vv = valid@.map_values(|v: String| v@);
    let mut i: usize = 0;
    while i < limits.len()
        invariant
            0 <= i <= limits.len(),
            vv == valid@.map_values(|v: String| v@),
            forall|x: int| 0 <= x < i ==> limit_allowed((limits@[x].0@, limits@[x].1), vv),
        decreases limits.len() - i,
    {
        let id = limits[i].0.as_str();
        let mut found = false;
        let mut j: usize = 0;
        while j < valid.len()
            invariant
                0 <= j <= valid.len(),
                vv == valid@.map_values(|v: String| v@),
                found ==> vv.contains(id@),
                !found ==> forall|x: int| 0 <= x < j ==> valid@[x]@ != id@,
            decreases valid.len() - j,
        {
            if eq_str(valid[j].as_str(), id) {
                assert(vv[j as int] == id@);
                found = true;
            }
            j = j + 1;
        }
        if !found && limits[i].1 != -1 {
            proof {
                if vv.contains(id@) {
                    let x = choose|x: int| 0 <= x < vv.len() && vv[x] == id@;
                    assert(valid@[x]@ == id@);
                }
            }
            return Err(concat("TTS配置不存在: ", id));
        }
        i = i + 1;
    }
    let mut out: Vec<QuotaChange> = Vec::new();
    let mut k: usize = 0;
    while k < limits.len()
        invariant
            0 <= k <= limits.len(),
            forall|x: int| 0 <= x < usage@.len() ==> usage@[x].1 >= 0,
            out@.len() == k,
            forall|x: int| 0 <= x < k ==> match #[trigger] out@[x] {
                QuotaChange::Remove(id) => limits@[x].1 == -1 && id@ == limits@[x].0@,
                QuotaChange::Store(id, max, used) => limits@[x].1 != -1 && id@ == limits@[x].0@ && max == limits@[x].1
                    && used == counted(usage@, limits@[x].0@),
            },
        decreases limits.len() - k,
    {
        let id = limits[k].0.as_str();
        if limits[k].1 == -1 {
            out.push(QuotaChange::Remove(owned(id)));
        } else {
            let used = find_count(usage, id);
            out.push(QuotaChange::Store(owned(id), limits[k].1, used));
        }
        k = k + 1;
    }
    Ok(out)
}


/// A listed allowance is unlimited (-1 left) exactly when its limit is
/// negative; otherwise what is left is never negative and never more than
/// the limit.
pub proof fn law_remaining_within_limit(
    id: Seq<char>,
    name: Seq<char>,
    provider: Seq<char>,
    enabled: bool,
    quota: Option<VoiceCloneQuotaRow>,
    counted: i64,
)
    requires
        counted >= 0,
    ensures
        ({
            let s = summary(id, name, provider, enabled, quota, counted);
            &&& (s.6 == -1 <==> s.4 < 0)
            &&& s.4 >= 0 ==> 0 <= s.6 <= s.4
        }),
{
}

} // verus!
