//! Governance: rate limits, content checks and policy evaluation.
use vstd::prelude::*;
use crate::casemap::{lower_case, to_lower};
use crate::clock::now_ms;
use crate::strmap::StrMap;
use crate::text::{
    contains_text, insert_sorted_unique, join_texts, join_with, join2, strictly_sorted, views,
};

verus! {

// ── Policies ──────────────────────────────────────────────

/// What a policy does when it applies.
#[derive(Debug, Clone, Copy, PartialEq, Eq, Structural)]
pub enum PolicyAction {
    Allow,
    Deny,
    Flag,
}

/// A governance policy.
pub struct Policy {
    pub id: String,
    pub name: String,
    pub action: PolicyAction,
}

/// The verdict of one policy.
pub struct PolicyResult {
    pub policy_id: String,
    pub passed: bool,
    pub action: PolicyAction,
}

/// The facts that policies are evaluated against: each key with the JSON
/// text of its value.
pub struct PolicyContext {
    values: StrMap<String>,
}

impl PolicyContext {
    /// An empty context.
    pub fn new() -> (c: Self)
        ensures
            c.view() == Map::<Seq<char>, Seq<char>>::empty(),
    {
        let c = PolicyContext { values: StrMap::new() };
        assert(c.view() =~= Map::<Seq<char>, Seq<char>>::empty());
        c
    }

    /// The facts, each key with the JSON text of its value.
    pub closed spec fn view(&self) -> Map<Seq<char>, Seq<char>> {
        self.values@.map_values(|s: String| s@)
    }

    /// Records the JSON text `value` under `key`.
    pub fn insert(&mut self, key: String, value: String)
        ensures
            final(self).view() == old(self).view().insert(key@, value@),
    {
        let ghost k = key@;
        let ghost v = value@;
        self.values.insert(key, value);
        assert(self.view() =~= old(self).view().insert(k, v));
    }
}

/// Evaluates each policy against `context`: every policy passes, with its
/// own action; the context is not consulted.
pub fn evaluate_policies(policies: &[Policy], context: &PolicyContext) -> (r: Vec<PolicyResult>)
    ensures
        r@.len() == policies@.len(),
        forall|i: int| 0 <= i < r@.len() ==> {
            &&& (#[trigger] r@[i]).policy_id@ == policies@[i].id@
            &&& r@[i].passed
            &&& r@[i].action == policies@[i].action
        },
{
    let mut r: Vec<PolicyResult> = Vec::new();
    let mut i: usize = 0;
    while i < policies.len()
        invariant
            0 <= i <= policies@.len(),
            r@.len() == i,
            forall|k: int| 0 <= k < i ==> {
                &&& (#[trigger] r@[k]).policy_id@ == policies@[k].id@
                &&& r@[k].passed
                &&& r@[k].action == policies@[k].action
            },
        decreases policies@.len() - i,
    {
        r.push(PolicyResult { policy_id: policies[i].id.clone(), passed: true, action: policies[i].action });
        i = i + 1;
    }
    r
}

// ── Rate limits ───────────────────────────────────────────

/// The requests counted for a key in its current window.
#[derive(Debug, Clone, Copy, PartialEq, Eq, Structural)]
pub struct RateLimitRecord {
    pub count: u64,
    pub reset_time: u64,
}

/// Whether a request is allowed, and how many more the window allows.
#[derive(Debug, Clone, Copy, PartialEq, Eq, Structural)]
pub struct RateLimitResult {
    pub allowed: bool,
    pub remaining: u64,
}

/// Whether a request, by its content.
#[derive(Debug)]
pub struct ContentFilterResult {
    pub flagged: bool,
    pub reason: Option<String>,
}

/// Rate limits per key, and content checks.
pub struct GovernanceEngine {
    rate_limit_store: StrMap<RateLimitRecord>,
}

/// A request at `now` opens a new window for `key`: the key has no window
/// yet, or its window has ended.
pub open spec fn opens_window(store: Map<Seq<char>, RateLimitRecord>, key: Seq<char>, now: u64) -> bool {
    !store.contains_key(key) || now >= store[key].reset_time
}

/// A request for `key` at `now`, under at most `limit` requests per window of
/// `window` milliseconds: the records afterwards, and the answer.
pub open spec fn rate_limit_step(
    store: Map<Seq<char>, RateLimitRecord>,
    key: Seq<char>,
    limit: u64,
    window: u64,
    now: u64,
) -> (Map<Seq<char>, RateLimitRecord>, RateLimitResult) {
    if opens_window(store, key, now) {
        (
            store.insert(key, RateLimitRecord { count: 1, reset_time: (now + window) as u64 }),
            RateLimitResult { allowed: true, remaining: (limit - 1) as u64 },
        )
    } else if store[key].count >= limit {
        (store, RateLimitResult { allowed: false, remaining: 0 })
    } else {
        let count = (store[key].count + 1) as u64;
        (
            store.insert(key, RateLimitRecord { count, reset_time: store[key].reset_time }),
            RateLimitResult { allowed: true, remaining: (limit - count) as u64 },
        )
    }
}

/// The inputs on which a request can be counted without overflow: a new
/// window needs a limit of at least one and a reset time that fits.
pub open spec fn rate_limit_defined(
    store: Map<Seq<char>, RateLimitRecord>,
    key: Seq<char>,
    limit: u64,
    window: u64,
    now: u64,
) -> bool {
    opens_window(store, key, now) ==> limit >= 1 && now + window <= u64::MAX
}

impl GovernanceEngine {
    /// The records per key.
    pub closed spec fn view(&self) -> Map<Seq<char>, RateLimitRecord> {
        self.rate_limit_store@
    }

    /// An engine with no records.
    pub fn new() -> (g: Self)
        ensures
            g.view() == Map::<Seq<char>, RateLimitRecord>::empty(),
    {
        GovernanceEngine { rate_limit_store: StrMap::new() }
    }

    /// Counts a request for `key` made at `now` (milliseconds).
    pub fn check_rate_limit_at(&mut self, key: &str, limit: u64, window_ms: u64, now: u64) -> (r: RateLimitResult)
        requires
            rate_limit_defined(old(self).view(), key@, limit, window_ms, now),
        ensures
            (final(self).view(), r) == rate_limit_step(old(self).view(), key@, limit, window_ms, now),
    {
        let record = match self.rate_limit_store.get(key) {
            Some(rec) => Some(*rec),
            None => None,
        };
        match record {
            Some(rec) if now < rec.reset_time => {
                if rec.count >= limit {
                    return RateLimitResult { allowed: false, remaining: 0 };
                }
                let count = rec.count + 1;
                self.rate_limit_store.insert(
                    key.to_owned(),
                    RateLimitRecord { count, reset_time: rec.reset_time },
                );
                RateLimitResult { allowed: true, remaining: limit - count }
            },
            _ => {
                self.rate_limit_store.insert(
                    key.to_owned(),
                    RateLimitRecord { count: 1, reset_time: now + window_ms },
                );
                RateLimitResult { allowed: true, remaining: limit - 1 }
            },
        }
    }

    /// Counts a request for `key` made now, under at most `limit` requests
    /// per window of `window_ms` milliseconds. A clock reading so late that
    /// the window's end would not fit in 64 bits counts as the latest time
    /// for which it fits.
    pub fn check_rate_limit(&mut self, key: &str, limit: u64, window_ms: u64) -> (r: RateLimitResult)
        requires
            limit >= 1,
        ensures
            exists|t: u64| t + window_ms <= u64::MAX
                && (final(self).view(), r) == rate_limit_step(old(self).view(), key@, limit, window_ms, t),
    {
        let read = now_ms();
        let now = if read > u64::MAX - window_ms { u64::MAX - window_ms } else { read };
        self.check_rate_limit_at(key, limit, window_ms, now)
    }

    /// Whether `text` is at most `max_length` bytes long in UTF-8.
    pub fn check_content_length(&self, text: &str, max_length: usize) -> (r: bool)
        ensures
            r == (vstd::utf8::encode_utf8(text@).len() as usize <= max_length),
    {
        text.len() <= max_length
    }

    /// Flags `text` when it holds a forbidden term (spam, abuse, hate,
    /// violence: whole words, any case), naming the terms found.
    pub fn check_content_filter(&self, text: &str) -> (r: ContentFilterResult)
        ensures
            regex_find_all(forbidden_terms_pattern(), text@) matches Some(found) && filter_verdict(found, r),
    {
        match find_all_matches(FORBIDDEN_TERMS, text) {
            Some(found) => content_filter_result(&found),
            None => ContentFilterResult { flagged: false, reason: None },
        }
    }
}

impl Default for GovernanceEngine {
    fn default() -> (g: Self)
        ensures
            g.view() == Map::<Seq<char>, RateLimitRecord>::empty(),
    {
        GovernanceEngine::new()
    }
}

// ── Content filter ────────────────────────────────────────

/// The pattern of the forbidden terms.
pub const FORBIDDEN_TERMS: &'static str = "(?i)\\b(spam|abuse|hate|violence)\\b";

pub open spec fn forbidden_terms_pattern() -> Seq<char> {
    FORBIDDEN_TERMS@
}

/// What `regex` finds of `pattern` in `text`: the texts of the successive
/// non-overlapping matches; `None` when `pattern` does not compile.
pub uninterp spec fn regex_find_all(pattern: Seq<char>, text: Seq<char>) -> Option<Seq<Seq<char>>>;

/// Compiles `pattern` with `regex::Regex::new` and collects the text of
/// each match that `find_iter` yields in `text`. Claimed: the result is
/// `regex_find_all(pattern, text)`, a function of both alone, and each match
/// is a piece of `text`; the forbidden-terms pattern, a valid expression of
/// `regex`'s syntax, compiles.
#[verifier::external_body]
fn find_all_matches(pattern: &str, text: &str) -> (r: Option<Vec<String>>)
    ensures
        pattern@ == FORBIDDEN_TERMS@ ==> r is Some,
        match r {
            Some(v) => regex_find_all(pattern@, text@) == Some(views(v@)),
            None => regex_find_all(pattern@, text@) is None,
        },
        r matches Some(v) ==> forall|i: int| 0 <= i < v@.len() ==> contains_text(text@, #[trigger] v@[i]@),
{
    match regex::Regex::new(pattern) {
        Ok(re) => {
            let mut out = Vec::new();
            for m in re.find_iter(text) {
                out.push(m.as_str().to_string());
            }
            Some(out)
        },
        Err(_) => None,
    }
}

/// The lower-case forms of the terms found.
pub open spec fn lowered(found: Seq<Seq<char>>) -> Seq<Seq<char>> {
    found.map_values(|m: Seq<char>| lower_case(m))
}

/// The verdict on a text in which `found` are the forbidden terms: flagged
/// exactly when there is one, with a reason that names the distinct terms in
/// lower case, in order, separated by commas.
pub open spec fn filter_verdict(found: Seq<Seq<char>>, r: ContentFilterResult) -> bool {
    &&& r.flagged == (found.len() > 0)
    &&& found.len() == 0 ==> r.reason is None
    &&& found.len() > 0 ==> exists|terms: Seq<Seq<char>>| {
        &&& strictly_sorted(terms)
        &&& terms.to_set() == lowered(found).to_set()
        &&& r.reason matches Some(reason) && reason@ == "Contains forbidden terms: "@ + join_texts(terms, ", "@)
    }
}

/// The verdict on a text in which `found` are the forbidden terms.
pub fn content_filter_result(found: &Vec<String>) -> (r: ContentFilterResult)
    ensures
        filter_verdict(views(found@), r),
{
    if found.len() == 0 {
        return ContentFilterResult { flagged: false, reason: None };
    }
    let mut unique: Vec<String> = Vec::new();
    let mut i: usize = 0;
    assert(views(unique@).to_set() =~= lowered(views(found@)).take(0).to_set());
    while i < found.len()
        invariant
            0 <= i <= found@.len(),
            strictly_sorted(views(unique@)),
            views(unique@).to_set() == lowered(views(found@)).take(i as int).to_set(),
        decreases found@.len() - i,
    {
        let low = to_lower(found[i].as_str());
        let ghost before = lowered(views(found@)).take(i as int);
        insert_sorted_unique(&mut unique, low);
        assert(lowered(views(found@)).take(i + 1) =~= before.push(lower_case(found@[i as int]@)));
        proof {
            let x = lower_case(found@[i as int]@);
            Seq::lemma_to_set_insert_commutes(before, x);
            assert(before + seq![x] =~= before.push(x));
        }
        i = i + 1;
    }
    assert(lowered(views(found@)).take(found@.len() as int) =~= lowered(views(found@)));
    let joined = join_with(&unique, ", ");
    let reason = join2("Contains forbidden terms: ", joined.as_str());
    let r = ContentFilterResult { flagged: true, reason: Some(reason) };
    assert(strictly_sorted(views(unique@)) && views(unique@).to_set() == lowered(views(found@)).to_set()
        && (r.reason matches Some(reason) && reason@ == "Contains forbidden terms: "@ + join_texts(views(unique@), ", "@)));
    r
}


// ── Laws of the rate limit ────────────────────────────────

/// Requests for `key` at the successive times `times`: the records
/// afterwards, and how many of the requests were allowed.
pub open spec fn run_requests(
    store: Map<Seq<char>, RateLimitRecord>,
    key: Seq<char>,
    limit: u64,
    window: u64,
    times: Seq<u64>,
) -> (Map<Seq<char>, RateLimitRecord>, nat)
    decreases times.len(),
{
    if times.len() == 0 {
        (store, 0)
    } else {
        let (before, allowed) = run_requests(store, key, limit, window, times.drop_last());
        let (after, r) = rate_limit_step(before, key, limit, window, times.last());
        (after, if r.allowed { allowed + 1 } else { allowed })
    }
}

proof fn lemma_first_window(
    store: Map<Seq<char>, RateLimitRecord>,
    key: Seq<char>,
    limit: u64,
    window: u64,
    times: Seq<u64>,
)
    requires
        !store.contains_key(key) || times[0] >= store[key].reset_time,
        limit >= 1,
        times.len() > 0,
        times[0] + window <= u64::MAX,
        forall|i: int| 0 <= i < times.len() ==> #[trigger] times[i] < times[0] + window,
    ensures
        ({
            let (after, allowed) = run_requests(store, key, limit, window, times);
            &&& after.contains_key(key)
            &&& after[key].reset_time == times[0] + window
            &&& after[key].count == if times.len() <= limit { times.len() } else { limit as nat }
            &&& allowed == after[key].count
        }),
    decreases times.len(),
{
    let rest = times.drop_last();
    let t = times.last();
    assert(t < times[0] + window);
    if rest.len() > 0 {
        assert forall|i: int| 0 <= i < rest.len() implies #[trigger] rest[i] < rest[0] + window by {
            assert(rest[i] == times[i]);
        }
        lemma_first_window(store, key, limit, window, rest);
        let (before, a) = run_requests(store, key, limit, window, rest);
        assert(rest[0] == times[0]);
        assert(!opens_window(before, key, t));
        assert(run_requests(store, key, limit, window, times) == ({
            let (after, r) = rate_limit_step(before, key, limit, window, t);
            (after, if r.allowed { a + 1 } else { a })
        }));
    } else {
        assert(run_requests(store, key, limit, window, rest) == (store, 0nat));
        assert(t == times[0]);
    }
}

/// Within a window, at most `limit` requests are allowed: when the first of
/// some requests for a key opens a window (the key has none, or its window
/// has ended), then of the requests before that window's end the number
/// allowed is the number made, capped at `limit`.
pub proof fn law_rate_limit_caps_a_window(
    store: Map<Seq<char>, RateLimitRecord>,
    key: Seq<char>,
    limit: u64,
    window: u64,
    times: Seq<u64>,
)
    requires
        !store.contains_key(key) || times[0] >= store[key].reset_time,
        limit >= 1,
        times.len() > 0,
        times[0] + window <= u64::MAX,
        forall|i: int| 0 <= i < times.len() ==> #[trigger] times[i] < times[0] + window,
    ensures
        run_requests(store, key, limit, window, times).1 <= limit,
        run_requests(store, key, limit, window, times).1 == if times.len() <= limit {
            times.len()
        } else {
            limit as nat
        },
{
    lemma_first_window(store, key, limit, window, times);
}

/// The answer to the `i`-th request (counting from 1) for `key` at the
/// successive times `times`, all within the first window of the key.
pub open spec fn nth_answer(
    store: Map<Seq<char>, RateLimitRecord>,
    key: Seq<char>,
    limit: u64,
    window: u64,
    times: Seq<u64>,
    i: int,
) -> RateLimitResult {
    rate_limit_step(run_requests(store, key, limit, window, times.take(i - 1)).0, key, limit, window, times[i - 1]).1
}

/// Within a window that the first of some requests opens (every request
/// before that window's end), the `i`-th request (counting from 1) is
/// allowed exactly when `i <= limit`, and leaves `limit - i` requests
/// remaining (none once refused): the remaining count only goes down.
pub proof fn law_rate_limit_nth_request(
    store: Map<Seq<char>, RateLimitRecord>,
    key: Seq<char>,
    limit: u64,
    window: u64,
    times: Seq<u64>,
    i: int,
)
    requires
        !store.contains_key(key) || times[0] >= store[key].reset_time,
        limit >= 1,
        1 <= i <= times.len(),
        times[0] + window <= u64::MAX,
        forall|j: int| 0 <= j < times.len() ==> #[trigger] times[j] < times[0] + window,
    ensures
        nth_answer(store, key, limit, window, times, i).allowed == (i <= limit),
        nth_answer(store, key, limit, window, times, i).remaining == if i <= limit { (limit - i) as u64 } else { 0u64 },
{
    let before = times.take(i - 1);
    let t = times[i - 1];
    assert(t < times[0] + window);
    if i > 1 {
        assert(before[0] == times[0]);
        assert forall|j: int| 0 <= j < before.len() implies #[trigger] before[j] < before[0] + window by {
            assert(before[j] == times[j]);
        }
        lemma_first_window(store, key, limit, window, before);
    } else {
        assert(before.len() == 0);
        assert(run_requests(store, key, limit, window, before) == (store, 0nat));
    }
}

/// A request for a key that has no window, or whose window has ended,
/// opens a new window from its own time: the key's record afterwards counts
/// one request and ends `window` after `now`, and the request is allowed
/// with `limit - 1` remaining.
pub proof fn law_rate_limit_new_window(
    store: Map<Seq<char>, RateLimitRecord>,
    key: Seq<char>,
    limit: u64,
    window: u64,
    now: u64,
)
    requires
        !store.contains_key(key) || now >= store[key].reset_time,
        limit >= 1,
        now + window <= u64::MAX,
    ensures
        rate_limit_step(store, key, limit, window, now).0.contains_key(key),
        rate_limit_step(store, key, limit, window, now).0[key] == (RateLimitRecord { count: 1, reset_time: (now + window) as u64 }),
        rate_limit_step(store, key, limit, window, now).1 == (RateLimitResult { allowed: true, remaining: (limit - 1) as u64 }),
{
}

/// A request changes the record of its own key only.
pub proof fn law_rate_limit_other_keys_unchanged(
    store: Map<Seq<char>, RateLimitRecord>,
    key: Seq<char>,
    other: Seq<char>,
    limit: u64,
    window: u64,
    now: u64,
)
    requires
        other != key,
    ensures
        rate_limit_step(store, key, limit, window, now).0.contains_key(other) == store.contains_key(other),
        store.contains_key(other) ==> rate_limit_step(store, key, limit, window, now).0[other] == store[other],
{
}

/// A refused request changes nothing and leaves nothing remaining; an allowed
/// one leaves the key's count at most `limit` with `limit - count` remaining.
pub proof fn law_rate_limit_answer(
    store: Map<Seq<char>, RateLimitRecord>,
    key: Seq<char>,
    limit: u64,
    window: u64,
    now: u64,
)
    requires
        rate_limit_defined(store, key, limit, window, now),
    ensures
        ({
            let (after, r) = rate_limit_step(store, key, limit, window, now);
            &&& !r.allowed ==> after == store && r.remaining == 0
            &&& r.allowed ==> after[key].count <= limit && r.remaining == limit - after[key].count
            &&& opens_window(store, key, now) ==> r.allowed && r.remaining == limit - 1
        }),
{
}

} // verus!
