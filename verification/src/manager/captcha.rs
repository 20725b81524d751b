//! Arithmetic captcha challenges for login and registration: each is
//! issued with an id, lives five minutes, and is answered once.
use vstd::prelude::*;
use rand::Rng;
use crate::text::{concat, concat3, i64_to_string, decimal, trim, trim_str};

verus! {

broadcast use vstd::string::group_string_axioms;

/// How long a challenge can be answered, in milliseconds.
pub const CHALLENGE_TTL_MS: i64 = 300000;

/// A uniformly drawn integer in `lo..hi` (`rand::Rng::gen_range` on the
/// thread-local generator; it panics on an empty range, which `requires`
/// rules out).
#[verifier::external_body]
fn random_in(lo: i32, hi: i32) -> (r: i32)
    requires
        lo < hi,
    ensures
        lo <= r < hi,
{
    rand::thread_rng().gen_range(lo..hi)
}

/// Whether a text is a UUID in hyphenated form: 36 characters, `-` at
/// positions 8, 13, 18 and 23, lower-case hex digits elsewhere.
pub open spec fn is_hyphenated_uuid(s: Seq<char>) -> bool {
    &&& s.len() == 36
    &&& forall|i: int| 0 <= i < 36 ==> if i == 8 || i == 13 || i == 18 || i == 23 {
        #[trigger] s[i] == '-'
    } else {
        ('0' <= s[i] <= '9') || ('a' <= s[i] <= 'f')
    }
}

/// A fresh random identifier: `uuid::Uuid::new_v4` written with
/// `to_string`, which `uuid` formats as its hyphenated lower-case hex form.
/// Only that shape is stated; which identifier comes out is chance.
#[verifier::external_body]
pub(crate) fn new_challenge_id() -> (r: String)
    ensures
        is_hyphenated_uuid(r@),
{
    uuid::Uuid::new_v4().to_string()
}

/// The current time in milliseconds since the Unix epoch
/// (`chrono::Utc::now().timestamp_millis()`); nothing is promised of it.
#[verifier::external_body]
pub(crate) fn now_millis() -> (r: i64) {
    chrono::Utc::now().timestamp_millis()
}

/// What `str::parse::<i32>` gives for a text: the number it writes in
/// decimal (with an optional sign), if it is one that fits.
pub uninterp spec fn parsed_i32(s: Seq<char>) -> Option<i32>;

/// `str::parse::<i32>`, as an option; the contract names the result.
#[verifier::external_body]
fn parse_i32(s: &str) -> (r: Option<i32>)
    ensures
        r == parsed_i32(s@),
{
    s.parse::<i32>().ok()
}

/// The challenges that can still be answered: id to answer and expiry.
pub type ChallengeMap = Map<Seq<char>, (i32, i64)>;

/// The challenges still live at `now`: those expiring after it.
pub open spec fn live(m: ChallengeMap, now: i64) -> ChallengeMap {
    Map::new(|k: Seq<char>| m.contains_key(k) && m[k].1 > now, |k: Seq<char>| m[k])
}

/// Answering challenge `id` at `now`: expired challenges are dropped, the
/// challenge is used up whatever the answer, and the answer passes when it
/// parses (trimmed) to the expected number.
pub open spec fn answered(m: ChallengeMap, id: Seq<char>, answer: Seq<char>, now: i64) -> (bool, ChallengeMap) {
    let l = live(m, now);
    if l.contains_key(id) {
        (parsed_i32(trim(answer)) == Some(l[id].0), l.remove(id))
    } else {
        (false, l)
    }
}

/// The challenges issued and not yet answered or expired.
pub struct CaptchaStore {
    entries: Vec<(String, i32, i64)>,
}

/// The plain content of the entries.
pub open spec fn plain(e: Seq<(String, i32, i64)>) -> Seq<(Seq<char>, i32, i64)> {
    e.map_values(|x: (String, i32, i64)| (x.0@, x.1, x.2))
}

/// No id occurs twice.
pub open spec fn distinct_ids(p: Seq<(Seq<char>, i32, i64)>) -> bool {
    forall|i: int, j: int| 0 <= i < p.len() && 0 <= j < p.len() && i != j ==> p[i].0 != p[j].0
}

/// Some entry has id `k`.
pub open spec fn has_id(p: Seq<(Seq<char>, i32, i64)>, k: Seq<char>) -> bool {
    exists|i: int| 0 <= i < p.len() && p[i].0 == k
}

/// The position of an entry with id `k`.
pub open spec fn id_index(p: Seq<(Seq<char>, i32, i64)>, k: Seq<char>) -> int {
    choose|i: int| 0 <= i < p.len() && p[i].0 == k
}

/// The map the entries stand for.
pub open spec fn as_map(p: Seq<(Seq<char>, i32, i64)>) -> ChallengeMap {
    Map::new(
        |k: Seq<char>| has_id(p, k),
        |k: Seq<char>| (p[id_index(p, k)].1, p[id_index(p, k)].2),
    )
}

proof fn lemma_at(p: Seq<(Seq<char>, i32, i64)>, i: int)
    requires
        distinct_ids(p),
        0 <= i < p.len(),
    ensures
        as_map(p).contains_key(p[i].0),
        as_map(p)[p[i].0] == (p[i].1, p[i].2),
{
    assert(has_id(p, p[i].0));
    let j = id_index(p, p[i].0);
    assert(p[j].0 == p[i].0);
}

impl View for CaptchaStore {
    type V = ChallengeMap;

    closed spec fn view(&self) -> ChallengeMap {
        as_map(plain(self.entries@))
    }
}

impl CaptchaStore {
    /// The store's entries have distinct ids.
    pub closed spec fn well_formed(&self) -> bool {
        distinct_ids(plain(self.entries@))
    }

    /// A store with no challenges.
    pub fn new() -> (r: Self)
        ensures
            r.well_formed(),
            r@ == Map::<Seq<char>, (i32, i64)>::empty(),
    {
        let r = CaptchaStore { entries: Vec::new() };
        assert(r@ =~= Map::<Seq<char>, (i32, i64)>::empty());
        r
    }

    /// Whether captchas are in use: always.
    pub fn enabled(&self) -> (r: bool)
        ensures
            r,
    {
        true
    }

    fn find(&self, id: &str) -> (r: Option<usize>)
        ensures
            match r {
                Some(i) => i < self.entries.len() && plain(self.entries@)[i as int].0 == id@,
                None => !has_id(plain(self.entries@), id@),
            },
    {
        let ghost p = plain(self.entries@);
        let mut i: usize = 0;
        while i < self.entries.len()
            invariant
                i <= self.entries.len(),
                p == plain(self.entries@),
                forall|j: int| 0 <= j < i ==> p[j].0 != id@,
            decreases self.entries.len() - i,
        {
            if crate::text::eq_str(self.entries[i].0.as_str(), id) {
                return Some(i);
            }
            i = i + 1;
        }
        None
    }

    /// Records challenge `id` with its answer, answerable until
    /// `expires_at`; an earlier challenge with the same id is replaced.
    pub fn insert_challenge(&mut self, id: String, answer: i32, expires_at: i64)
        requires
            old(self).well_formed(),
        ensures
            final(self).well_formed(),
            final(self)@ == old(self)@.insert(id@, (answer, expires_at)),
    {
        let ghost p = plain(self.entries@);
        let ghost k = id@;
        let ghost want = as_map(p).insert(k, (answer, expires_at));
        match self.find(id.as_str()) {
            Some(i) => {
                self.entries.set(i, (id, answer, expires_at));
                let ghost q = plain(self.entries@);
                assert(q =~= p.update(i as int, (k, answer, expires_at)));
                assert forall|a: Seq<char>| #[trigger] has_id(q, a) <==> want.contains_key(a) by {
                    assert(q[i as int].0 == k);
                    if has_id(p, a) {
                        let j = id_index(p, a);
                        assert(q[j].0 == a);
                    }
                    if has_id(q, a) {
                        let j = id_index(q, a);
                        if j != i {
                            assert(p[j].0 == a);
                        }
                    }
                }
                assert forall|a: Seq<char>| #[trigger] want.contains_key(a) implies as_map(q)[a] == want[a] by {
                    if a == k {
                        lemma_at(q, i as int);
                    } else {
                        let j = id_index(p, a);
                        assert(p[j].0 == a);
                        lemma_at(p, j);
                        lemma_at(q, j);
                    }
                }
                assert(as_map(q) =~= want);
            },
            None => {
                self.entries.push((id, answer, expires_at));
                let ghost q = plain(self.entries@);
                assert(q =~= p.push((k, answer, expires_at)));
                assert forall|a: Seq<char>| #[trigger] has_id(q, a) <==> want.contains_key(a) by {
                    assert(q[p.len() as int].0 == k);
                    if has_id(p, a) {
                        let j = id_index(p, a);
                        assert(q[j].0 == a);
                    }
                    if has_id(q, a) {
                        let j = id_index(q, a);
                        if j < p.len() {
                            assert(p[j].0 == a);
                        }
                    }
                }
                assert forall|a: Seq<char>| #[trigger] want.contains_key(a) implies as_map(q)[a] == want[a] by {
                    if a == k {
                        lemma_at(q, p.len() as int);
                    } else {
                        let j = id_index(p, a);
                        assert(p[j].0 == a);
                        lemma_at(p, j);
                        lemma_at(q, j);
                    }
                }
                assert(as_map(q) =~= want);
            },
        }
    }

    /// Drops the challenges that expired at or before `now`.
    fn drop_expired(&mut self, now: i64)
        requires
            old(self).well_formed(),
        ensures
            final(self).well_formed(),
            final(self)@ == live(old(self)@, now),
    {
        let ghost p = plain(self.entries@);
        let ghost mut src: Seq<int> = Seq::empty();
        let mut kept: Vec<(String, i32, i64)> = Vec::new();
        let mut i: usize = 0;
        while i < self.entries.len()
            invariant
                i <= self.entries.len(),
                p == plain(self.entries@),
                distinct_ids(p),
                src.len() == kept.len(),
                forall|j: int| 0 <= j < src.len() ==> 0 <= #[trigger] src[j] < i,
                forall|j: int, l: int| 0 <= j < l < src.len() ==> src[j] < src[l],
                forall|j: int| 0 <= j < src.len() ==> #[trigger] plain(kept@)[j] == p[src[j]],
                forall|j: int| 0 <= j < src.len() ==> p[#[trigger] src[j]].2 > now,
                forall|t: int| 0 <= t < i && p[t].2 > now ==> exists|j: int| 0 <= j < src.len() && #[trigger] src[j] == t,
            decreases self.entries.len() - i,
        {
            let e = &self.entries[i];
            let ghost old_src = src;
            if e.2 > now {
                let c = (e.0.clone(), e.1, e.2);
                let ghost before = kept@;
                kept.push(c);
                proof {
                    src = src.push(i as int);
                    assert(plain(kept@) =~= plain(before).push(p[i as int]));
                    assert(src[src.len() - 1] == i);
                }
            }
            proof {
                assert forall|t: int| 0 <= t < i + 1 && p[t].2 > now implies exists|j: int| 0 <= j < src.len() && #[trigger] src[j] == t by {
                    if t < i {
                        let j = choose|j: int| 0 <= j < old_src.len() && old_src[j] == t;
                        assert(src[j] == t);
                    } else {
                        assert(src[src.len() - 1] == t);
                    }
                }
            }
            i = i + 1;
        }
        let ghost q = plain(kept@);
        let ghost want = live(as_map(p), now);
        assert(distinct_ids(q)) by {
            assert forall|a: int, b: int| 0 <= a < q.len() && 0 <= b < q.len() && a != b implies q[a].0 != q[b].0 by {
                assert(q[a] == p[src[a]]);
                assert(q[b] == p[src[b]]);
                assert(src[a] != src[b]);
            }
        }
        assert forall|a: Seq<char>| #[trigger] has_id(q, a) <==> want.contains_key(a) by {
            if has_id(q, a) {
                let j = id_index(q, a);
                assert(q[j] == p[src[j]]);
                lemma_at(p, src[j]);
            }
            if want.contains_key(a) {
                let t = id_index(p, a);
                assert(p[t].0 == a);
                lemma_at(p, t);
                let j = choose|j: int| 0 <= j < src.len() && src[j] == t;
                assert(q[j] == p[t]);
            }
        }
        assert forall|a: Seq<char>| #[trigger] want.contains_key(a) implies as_map(q)[a] == want[a] by {
            let t = id_index(p, a);
            assert(p[t].0 == a);
            lemma_at(p, t);
            let j = choose|j: int| 0 <= j < src.len() && src[j] == t;
            assert(q[j] == p[t]);
            lemma_at(q, j);
        }
        assert(as_map(q) =~= want);
        self.entries = kept;
    }

    /// Removes challenge `id`, giving back its answer if it was there.
    fn take(&mut self, id: &str) -> (r: Option<i32>)
        requires
            old(self).well_formed(),
        ensures
            final(self).well_formed(),
            match r {
                Some(a) => old(self)@.contains_key(id@) && old(self)@[id@].0 == a && final(self)@ == old(self)@.remove(id@),
                None => !old(self)@.contains_key(id@) && final(self)@ == old(self)@,
            },
    {
        let ghost p = plain(self.entries@);
        let ghost k = id@;
        match self.find(id) {
            None => None,
            Some(i) => {
                let e = self.entries.remove(i);
                let ghost q = plain(self.entries@);
                let ghost want = as_map(p).remove(k);
                proof {
                    lemma_at(p, i as int);
                    assert(q =~= p.remove(i as int));
                }
                assert forall|a: Seq<char>| #[trigger] has_id(q, a) <==> want.contains_key(a) by {
                    if has_id(q, a) {
                        let j = id_index(q, a);
                        if j < i {
                            assert(p[j].0 == a);
                        } else {
                            assert(p[j + 1].0 == a);
                        }
                    }
                    if want.contains_key(a) {
                        let t = id_index(p, a);
                        assert(p[t].0 == a);
                        if t < i {
                            assert(q[t].0 == a);
                        } else {
                            assert(q[t - 1].0 == a);
                        }
                    }
                }
                assert forall|a: Seq<char>| #[trigger] want.contains_key(a) implies as_map(q)[a] == want[a] by {
                    let t = id_index(p, a);
                    assert(p[t].0 == a);
                    lemma_at(p, t);
                    if t < i {
                        lemma_at(q, t);
                    } else {
                        lemma_at(q, t - 1);
                    }
                }
                assert(as_map(q) =~= want);
                Some(e.1)
            },
        }
    }

    /// Answers challenge `id` at time `now` (milliseconds): expired
    /// challenges are dropped first, and the challenge is used up whether
    /// or not the answer is right.
    pub fn verify_at(&mut self, id: &str, answer: &str, now: i64) -> (r: bool)
        requires
            old(self).well_formed(),
        ensures
            final(self).well_formed(),
            (r, final(self)@) == answered(old(self)@, id@, answer@, now),
    {
        self.drop_expired(now);
        match self.take(id) {
            None => false,
            Some(a) => {
                let t = trim_str(answer);
                parse_i32(t.as_str()) == Some(a)
            },
        }
    }

    /// Answers challenge `id` now.
    pub fn verify(&mut self, id: &str, answer: &str) -> (r: bool)
        requires
            old(self).well_formed(),
        ensures
            final(self).well_formed(),
            exists|now: i64| (r, final(self)@) == answered(old(self)@, id@, answer@, now),
    {
        let now = now_millis();
        self.verify_at(id, answer, now)
    }

    /// Issues challenge `id` asking for `a + b`, answerable for five
    /// minutes after `now` (a clock at the end of time saturates); gives
    /// back the question.
    pub fn issue_challenge(&mut self, id: String, a: i32, b: i32, now: i64) -> (r: String)
        requires
            old(self).well_formed(),
            i32::MIN <= a + b <= i32::MAX,
        ensures
            final(self).well_formed(),
            final(self)@ == old(self)@.insert(id@, ((a + b) as i32, expiry(now))),
            r@ == challenge_prompt(a as int, b as int),
    {
        let expires = if now > i64::MAX - CHALLENGE_TTL_MS { i64::MAX } else { now + CHALLENGE_TTL_MS };
        self.insert_challenge(id, a + b, expires);
        let sa = i64_to_string(a as i64);
        let sb = i64_to_string(b as i64);
        let head = concat3(sa.as_str(), " + ", sb.as_str());
        concat(head.as_str(), " = ?")
    }

    /// Issues a fresh challenge: two random digits from 1 to 9 and a random
    /// id; gives back the id and the question.
    pub fn new_challenge(&mut self) -> (r: (String, String))
        requires
            old(self).well_formed(),
        ensures
            final(self).well_formed(),
            exists|a: i32, b: i32, now: i64| {
                &&& 1 <= a < 10
                &&& 1 <= b < 10
                &&& final(self)@ == old(self)@.insert(r.0@, ((a + b) as i32, expiry(now)))
                &&& r.1@ == challenge_prompt(a as int, b as int)
            },
    {
        let a = random_in(1, 10);
        let b = random_in(1, 10);
        let id = new_challenge_id();
        let id_out = id.clone();
        let now = now_millis();
        let prompt = self.issue_challenge(id, a, b, now);
        (id_out, prompt)
    }
}

/// When a challenge issued at `now` expires.
pub open spec fn expiry(now: i64) -> i64 {
    if now + CHALLENGE_TTL_MS > i64::MAX { i64::MAX } else { (now + CHALLENGE_TTL_MS) as i64 }
}

/// The question of a challenge: `a + b = ?`.
pub open spec fn challenge_prompt(a: int, b: int) -> Seq<char> {
    decimal(a) + " + "@ + decimal(b) + " = ?"@
}

/// The captcha step of login and registration: without a challenge id it
/// passes only when captchas are optional; with one, the answer must pass.
pub fn verify_captcha(store: &mut CaptchaStore, id: &str, answer: &str, required: bool) -> (r: Result<(), String>)
    requires
        old(store).well_formed(),
    ensures
        final(store).well_formed(),
        id@.len() == 0 ==> final(store)@ == old(store)@ && match r {
            Ok(()) => !required,
            Err(m) => required && m@ == "请完成人机验证"@,
        },
        id@.len() > 0 ==> exists|now: i64| {
            &&& final(store)@ == (#[trigger] answered(old(store)@, id@, answer@, now)).1
            &&& match r {
                Ok(()) => answered(old(store)@, id@, answer@, now).0,
                Err(m) => !answered(old(store)@, id@, answer@, now).0 && m@ == "验证码错误"@,
            }
        },
{
    if id.is_empty() {
        if required {
            return Err(crate::text::owned("请完成人机验证"));
        }
        return Ok(());
    }
    if !store.verify(id, answer) {
        return Err(crate::text::owned("验证码错误"));
    }
    Ok(())
}

/// A challenge is answered at most once: after any answer to it, every
/// later answer to it fails, whatever the answer and the time.
pub proof fn law_challenge_single_use(m: ChallengeMap, id: Seq<char>, a1: Seq<char>, t1: i64, a2: Seq<char>, t2: i64)
    ensures
        !answered(answered(m, id, a1, t1).1, id, a2, t2).0,
{
}

/// A challenge answered at or after its expiry fails.
pub proof fn law_expired_challenge_refused(m: ChallengeMap, id: Seq<char>, answer: Seq<char>, now: i64)
    requires
        m.contains_key(id),
        m[id].1 <= now,
    ensures
        !answered(m, id, answer, now).0,
{
}

/// A challenge that was never issued fails.
pub proof fn law_unknown_challenge_refused(m: ChallengeMap, id: Seq<char>, answer: Seq<char>, now: i64)
    requires
        !m.contains_key(id),
    ensures
        !answered(m, id, answer, now).0,
{
}

/// A challenge answered before it expires, with text that reads as its
/// number, passes.
pub proof fn law_right_answer_accepted(m: ChallengeMap, id: Seq<char>, expected: i32, expires: i64, answer: Seq<char>, now: i64)
    requires
        now < expires,
        parsed_i32(trim(answer)) == Some(expected),
    ensures
        answered(m.insert(id, (expected, expires)), id, answer, now).0,
{
    assert(live(m.insert(id, (expected, expires)), now).contains_key(id));
}

/// Answering keeps exactly the other challenges that are still live.
pub proof fn law_answer_keeps_other_live_challenges(m: ChallengeMap, id: Seq<char>, answer: Seq<char>, now: i64)
    ensures
        answered(m, id, answer, now).1 == live(m, now).remove(id),
{
    let l = live(m, now);
    if !l.contains_key(id) {
        assert(l.remove(id) =~= l);
    }
}

} // verus!
