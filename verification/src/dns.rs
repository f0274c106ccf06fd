//! DNS candidate selection and ranking: candidates filtered by category and
//! address family, ranked preferred-country first, then reachable, then by
//! latency; and latency extraction from `ping` output.
use vstd::prelude::*;
use vstd::string::*;

use crate::seqs::{first_such, lemma_filter_take_step, lemma_first_hit, lemma_take_all};
use crate::text::{chars_of, parse_u32, parse_u32_chars};
use crate::command::{console, CmdSpec};
use crate::netsh::runs;
use crate::topology::{string_is, views};

verus! {

broadcast use vstd::seq_lib::group_seq_properties;

/// A DNS category (kind x protocol).
#[derive(Debug, Clone)]
pub struct DnsCategory {
    pub id: String,
    pub protocol: String,
    pub kind: String,
    pub label: String,
}

/// A DNS candidate.
#[derive(Debug, Clone)]
pub struct DnsProvider {
    pub country: String,
    pub name: String,
    pub category: String,
    pub primary: String,
    pub secondary: String,
    pub recommended: bool,
}

impl DnsProvider {
    /// A field-by-field copy.
    pub fn copied(&self) -> (r: DnsProvider)
        ensures
            r == *self,
    {
        DnsProvider {
            country: self.country.clone(),
            name: self.name.clone(),
            category: self.category.clone(),
            primary: self.primary.clone(),
            secondary: self.secondary.clone(),
            recommended: self.recommended,
        }
    }
}

/// The DNS candidate database.
#[derive(Debug, Clone)]
pub struct DnsDb {
    pub categories: Vec<DnsCategory>,
    pub providers: Vec<DnsProvider>,
}

/// Whether a category has the id.
pub open spec fn category_has_id(id: Seq<char>) -> spec_fn(DnsCategory) -> bool {
    |c: DnsCategory| c.id@ == id
}

/// Whether a provider is kept: its category is known, of one of the kinds, and
/// of the preferred protocol (any protocol when the preference is `both`).
pub open spec fn provider_selected(
    cats: Seq<DnsCategory>,
    kinds: Seq<Seq<char>>,
    prefer_ipv: Seq<char>,
    p: DnsProvider,
) -> bool {
    match first_such(cats, category_has_id(p.category@)) {
        Some(cat) => kinds.contains(cat.kind@) && (prefer_ipv == "both"@ || cat.protocol@
            == prefer_ipv),
        None => false,
    }
}

/// Whether a list of strings holds the given one.
fn strings_contain(v: &[String], s: &String) -> (r: bool)
    ensures
        r == v@.map_values(|x: String| x@).contains(s@),
{
    let ghost vv = v@.map_values(|x: String| x@);
    let mut i: usize = 0;
    while i < v.len()
        invariant
            i <= v@.len(),
            vv == v@.map_values(|x: String| x@),
            forall|k: int| 0 <= k < i ==> vv[k] != s@,
        decreases v@.len() - i,
    {
        if v[i] == *s {
            assert(vv[i as int] == s@);
            return true;
        }
        i = i + 1;
    }
    false
}

impl DnsDb {
    /// The first category with the id.
    fn category(&self, id: &String) -> (r: Option<&DnsCategory>)
        ensures
            match r {
                Some(c) => first_such(self.categories@, category_has_id(id@)) == Some(*c),
                None => first_such(self.categories@, category_has_id(id@)) is None,
            },
    {
        let ghost p = category_has_id(id@);
        let mut i: usize = 0;
        while i < self.categories.len()
            invariant
                i <= self.categories@.len(),
                p == category_has_id(id@),
                self.categories@.take(i as int).filter(p).len() == 0,
            decreases self.categories@.len() - i,
        {
            proof {
                lemma_filter_take_step(self.categories@, p, i as int);
            }
            if self.categories[i].id == *id {
                proof {
                    lemma_first_hit(self.categories@, p, i as int);
                }
                return Some(&self.categories[i]);
            }
            i = i + 1;
        }
        proof {
            lemma_take_all(self.categories@);
        }
        None
    }

    /// The candidates of the given kinds (`default` / `family` / `secure`)
    /// and protocol (`ipv4` / `ipv6` / `both`), in database order.
    pub fn filter(&self, kinds: &[String], prefer_ipv: &str) -> (r: Vec<DnsProvider>)
        ensures
            r@ == self.providers@.filter(
                |p: DnsProvider|
                    provider_selected(
                        self.categories@,
                        kinds@.map_values(|x: String| x@),
                        prefer_ipv@,
                        p,
                    ),
            ),
    {
        let ghost sel = |p: DnsProvider|
            provider_selected(self.categories@, kinds@.map_values(|x: String| x@), prefer_ipv@, p);
        let both = crate::text::str_eq(prefer_ipv, "both");
        let mut out: Vec<DnsProvider> = Vec::new();
        let mut i: usize = 0;
        while i < self.providers.len()
            invariant
                i <= self.providers@.len(),
                both == (prefer_ipv@ == "both"@),
                sel == (|p: DnsProvider|
                    provider_selected(
                        self.categories@,
                        kinds@.map_values(|x: String| x@),
                        prefer_ipv@,
                        p,
                    )),
                out@ == self.providers@.take(i as int).filter(sel),
            decreases self.providers@.len() - i,
        {
            proof {
                lemma_filter_take_step(self.providers@, sel, i as int);
            }
            let p = &self.providers[i];
            match self.category(&p.category) {
                Some(cat) => {
                    if strings_contain(kinds, &cat.kind) && (both || string_is(
                        &cat.protocol,
                        prefer_ipv,
                    )) {
                        out.push(p.copied());
                    }
                },
                None => {},
            }
            i = i + 1;
        }
        proof {
            lemma_take_all(self.providers@);
        }
        out
    }
}

/// A speed-test result for one candidate.
#[derive(Debug, Clone)]
pub struct DnsBench {
    pub provider: DnsProvider,
    pub latency_ms: Option<u32>,
    pub reachable: bool,
}

/// The ranking key of a result: preferred country first, then reachable
/// ones, then lower latency (unknown latency counts as the largest).
pub open spec fn rank_key(b: DnsBench, country: Seq<char>) -> (int, int, int) {
    (
        if b.provider.country@ == country {
            0
        } else {
            1
        },
        if b.reachable {
            0
        } else {
            1
        },
        match b.latency_ms {
            Some(l) => l as int,
            None => u32::MAX as int,
        },
    )
}

/// Lexicographic order on ranking keys.
pub open spec fn key_le(a: (int, int, int), b: (int, int, int)) -> bool {
    a.0 < b.0 || (a.0 == b.0 && (a.1 < b.1 || (a.1 == b.1 && a.2 <= b.2)))
}

/// Inserts `x` after the last element whose key does not exceed its own.
pub open spec fn insert_ranked(sorted: Seq<DnsBench>, x: DnsBench, country: Seq<char>) -> Seq<DnsBench>
    decreases sorted.len(),
{
    if sorted.len() == 0 {
        seq![x]
    } else if key_le(rank_key(sorted.last(), country), rank_key(x, country)) {
        sorted.push(x)
    } else {
        insert_ranked(sorted.drop_last(), x, country).push(sorted.last())
    }
}

/// The stable sort of `s` by ranking key.
pub open spec fn ranked(s: Seq<DnsBench>, country: Seq<char>) -> Seq<DnsBench>
    decreases s.len(),
{
    if s.len() == 0 {
        s
    } else {
        insert_ranked(ranked(s.drop_last(), country), s.last(), country)
    }
}

/// Executable ranking-key comparison: whether `a` may stay before `b`.
fn bench_le(a: &DnsBench, b: &DnsBench, country: &str) -> (r: bool)
    ensures
        r == key_le(rank_key(*a, country@), rank_key(*b, country@)),
{
    let a0: u8 = if string_is(&a.provider.country, country) { 0 } else { 1 };
    let b0: u8 = if string_is(&b.provider.country, country) { 0 } else { 1 };
    let a1: u8 = if a.reachable { 0 } else { 1 };
    let b1: u8 = if b.reachable { 0 } else { 1 };
    let a2: u32 = match a.latency_ms { Some(l) => l, None => u32::MAX };
    let b2: u32 = match b.latency_ms { Some(l) => l, None => u32::MAX };
    a0 < b0 || (a0 == b0 && (a1 < b1 || (a1 == b1 && a2 <= b2)))
}

proof fn lemma_insert_at(sorted: Seq<DnsBench>, x: DnsBench, country: Seq<char>, j: int)
    requires
        0 <= j <= sorted.len(),
        j == 0 || key_le(rank_key(sorted[j - 1], country), rank_key(x, country)),
        forall|k: int| j <= k < sorted.len() ==> !key_le(
            rank_key(#[trigger] sorted[k], country),
            rank_key(x, country),
        ),
    ensures
        insert_ranked(sorted, x, country) == sorted.take(j).push(x) + sorted.skip(j),
    decreases sorted.len(),
{
    if sorted.len() == 0 {
        assert(sorted.take(j).push(x) + sorted.skip(j) =~= seq![x]);
    } else if j == sorted.len() {
        assert(sorted.take(j) =~= sorted);
        assert(sorted.take(j).push(x) + sorted.skip(j) =~= sorted.push(x));
    } else {
        let d = sorted.drop_last();
        lemma_insert_at(d, x, country, j);
        assert(d.take(j) =~= sorted.take(j));
        assert(d.skip(j).push(sorted.last()) =~= sorted.skip(j));
        assert((d.take(j).push(x) + d.skip(j)).push(sorted.last()) =~= sorted.take(j).push(x)
            + sorted.skip(j));
    }
}

/// Ranks speed-test results: preferred country first, then reachable ones,
/// then by ascending latency; equal keys keep their order.
pub fn rank(results: Vec<DnsBench>, prefer_country: &str) -> (r: Vec<DnsBench>)
    ensures
        r@ == ranked(results@, prefer_country@),
{
    let ghost orig = results@;
    assert(orig.len() == results.len());
    let mut input = results;
    let mut out: Vec<DnsBench> = Vec::new();
    let mut k: usize = 0;
    assert(orig.take(0) =~= Seq::<DnsBench>::empty());
    assert(orig.skip(0) =~= orig);
    while input.len() > 0
        invariant
            k <= orig.len(),
            input@.len() + k == orig.len(),
            orig.len() <= usize::MAX,
            input@ == orig.skip(k as int),
            out@ == ranked(orig.take(k as int), prefer_country@),
        decreases input@.len(),
    {
        let x = input.remove(0);
        assert(orig.take(k + 1).drop_last() =~= orig.take(k as int));
        assert(orig.take(k + 1).last() == x);
        assert(input@ =~= orig.skip(k + 1));
        let mut j: usize = out.len();
        while j > 0 && !bench_le(&out[j - 1], &x, prefer_country)
            invariant
                j <= out@.len(),
                forall|q: int| j <= q < out@.len() ==> !key_le(
                    rank_key(#[trigger] out@[q], prefer_country@),
                    rank_key(x, prefer_country@),
                ),
            decreases j,
        {
            j = j - 1;
        }
        proof {
            lemma_insert_at(out@, x, prefer_country@, j as int);
            assert(out@.insert(j as int, x) =~= out@.take(j as int).push(x) + out@.skip(j as int));
        }
        out.insert(j, x);
        k = k + 1;
    }
    assert(orig.take(k as int) =~= orig);
    out
}

/// The ranking is ordered by key.
pub open spec fn key_sorted(s: Seq<DnsBench>, country: Seq<char>) -> bool {
    forall|i: int, j: int|
        0 <= i < j < s.len() ==> key_le(
            #[trigger] rank_key(s[i], country),
            #[trigger] rank_key(s[j], country),
        )
}

proof fn lemma_insert_sorted(sorted: Seq<DnsBench>, x: DnsBench, country: Seq<char>)
    requires
        key_sorted(sorted, country),
    ensures
        key_sorted(insert_ranked(sorted, x, country), country),
        insert_ranked(sorted, x, country).to_multiset() == sorted.to_multiset().insert(x),
    decreases sorted.len(),
{
    broadcast use vstd::multiset::group_multiset_axioms;
    broadcast use vstd::seq_lib::group_to_multiset_ensures;

    let r = insert_ranked(sorted, x, country);
    if sorted.len() == 0 {
        assert(r =~= seq![x]);
        assert(seq![x] =~= Seq::<DnsBench>::empty().push(x));
    } else if key_le(rank_key(sorted.last(), country), rank_key(x, country)) {
        assert forall|i: int, j: int| 0 <= i < j < r.len() implies key_le(
            #[trigger] rank_key(r[i], country),
            #[trigger] rank_key(r[j], country),
        ) by {
            if j == r.len() - 1 && i < sorted.len() - 1 {
                assert(key_le(rank_key(sorted[i], country), rank_key(sorted[sorted.len() - 1], country)));
            }
        }
    } else {
        let d = sorted.drop_last();
        assert(key_sorted(d, country));
        lemma_insert_sorted(d, x, country);
        let r0 = insert_ranked(d, x, country);
        assert(r0.to_multiset() == d.to_multiset().insert(x));
        assert(sorted =~= d.push(sorted.last()));
        assert forall|i: int, j: int| 0 <= i < j < r.len() implies key_le(
            #[trigger] rank_key(r[i], country),
            #[trigger] rank_key(r[j], country),
        ) by {
            if j == r.len() - 1 {
                // r0[i] is either x or an element of d; both are no greater than sorted.last()
                assert(r0.to_multiset().count(r0[i]) > 0);
                assert(r0.contains(r0[i]));
                if r0[i] == x {
                } else {
                    assert(d.to_multiset().count(r0[i]) > 0);
                    assert(d.contains(r0[i]));
                    let m = choose|m: int| 0 <= m < d.len() && d[m] == r0[i];
                    assert(key_le(rank_key(sorted[m], country), rank_key(sorted[sorted.len() - 1], country)));
                }
            }
        }
    }
}

/// Whether a result has ranking key `k`.
pub open spec fn has_key(country: Seq<char>, k: (int, int, int)) -> spec_fn(DnsBench) -> bool {
    |b: DnsBench| rank_key(b, country) == k
}

proof fn lemma_insert_stable(sorted: Seq<DnsBench>, x: DnsBench, country: Seq<char>, k: (int, int, int))
    ensures
        insert_ranked(sorted, x, country).filter(has_key(country, k)) == sorted.push(x).filter(
            has_key(country, k),
        ),
    decreases sorted.len(),
{
    let p = has_key(country, k);
    if sorted.len() == 0 {
    } else if key_le(rank_key(sorted.last(), country), rank_key(x, country)) {
    } else {
        let d = sorted.drop_last();
        let l = sorted.last();
        lemma_insert_stable(d, x, country, k);
        let r0 = insert_ranked(d, x, country);
        r0.lemma_filter_push(l, p);
        d.lemma_filter_push(x, p);
        d.lemma_filter_push(l, p);
        d.push(l).lemma_filter_push(x, p);
        assert(sorted =~= d.push(l));
        // the key of `l` exceeds that of `x`, so at most one of them has key `k`
        assert(rank_key(l, country) != rank_key(x, country));
        if p(x) && !p(l) {
            assert(r0.push(l).filter(p) =~= d.filter(p).push(x));
        } else if p(l) && !p(x) {
            assert(r0.push(l).filter(p) =~= d.filter(p).push(l));
        }
    }
}

/// Ranking is stable: the results that share a ranking key come out in the
/// order they went in.
pub proof fn lemma_ranked_stable(s: Seq<DnsBench>, country: Seq<char>, k: (int, int, int))
    ensures
        ranked(s, country).filter(has_key(country, k)) == s.filter(has_key(country, k)),
    decreases s.len(),
{
    if s.len() > 0 {
        let d = s.drop_last();
        lemma_ranked_stable(d, country, k);
        lemma_insert_stable(ranked(d, country), s.last(), country, k);
        ranked(d, country).lemma_filter_push(s.last(), has_key(country, k));
        d.lemma_filter_push(s.last(), has_key(country, k));
        assert(s =~= d.push(s.last()));
    }
}

/// Ranking reorders the results without adding or losing any, orders them
/// by key, and keeps the input order among results with equal keys.
pub proof fn lemma_ranked_sorted_permutation(s: Seq<DnsBench>, country: Seq<char>)
    ensures
        key_sorted(ranked(s, country), country),
        ranked(s, country).to_multiset() == s.to_multiset(),
        forall|k: (int, int, int)|
            #[trigger] ranked(s, country).filter(has_key(country, k)) == s.filter(
                has_key(country, k),
            ),
    decreases s.len(),
{
    assert forall|k: (int, int, int)|
        #[trigger] ranked(s, country).filter(has_key(country, k)) == s.filter(
            has_key(country, k),
        ) by {
        lemma_ranked_stable(s, country, k);
    }
    broadcast use vstd::seq_lib::group_to_multiset_ensures;

    if s.len() == 0 {
    } else {
        lemma_ranked_sorted_permutation(s.drop_last(), country);
        lemma_insert_sorted(ranked(s.drop_last(), country), s.last(), country);
        assert(s =~= s.drop_last().push(s.last()));
    }
}

/// What `regex::Regex::new(pattern)` followed by `is_match(text)` answers;
/// `None` where the pattern does not compile.
pub uninterp spec fn regex_is_match(pattern: Seq<char>, text: Seq<char>) -> Option<bool>;

/// The text of capture group 1 in the first match of `pattern` in `text`, as
/// `regex::Regex::captures` gives it; `None` where the pattern does not
/// compile, nothing matches, or the group took no part in the match.
pub uninterp spec fn regex_group1(pattern: Seq<char>, text: Seq<char>) -> Option<Seq<char>>;

/// Compiles `pattern` with `regex::Regex::new` and tests `text` with
/// `Regex::is_match`. The contract only names the answer.
#[verifier::external_body]
fn regex_match(pattern: &str, text: &str) -> (r: Option<bool>)
    ensures
        r == regex_is_match(pattern@, text@),
{
    match regex::Regex::new(pattern) {
        Ok(re) => Some(re.is_match(text)),
        Err(_) => None,
    }
}

/// Compiles `pattern` with `regex::Regex::new` and takes capture group 1 of
/// the first match in `text` (`Regex::captures`, `Captures::get`,
/// `Match::as_str`). The contract only names the answer.
#[verifier::external_body]
fn regex_capture1(pattern: &str, text: &str) -> (r: Option<String>)
    ensures
        match r {
            Some(g) => regex_group1(pattern@, text@) == Some(g@),
            None => regex_group1(pattern@, text@) is None,
        },
{
    let re = match regex::Regex::new(pattern) {
        Ok(re) => re,
        Err(_) => return None,
    };
    match re.captures(text) {
        Some(c) => match c.get(1) {
            Some(m) => Some(m.as_str().to_string()),
            None => None,
        },
        None => None,
    }
}

/// The pattern of a sub-millisecond reply (`时间<1ms` / `time<1ms`).
pub open spec fn below_one_pattern() -> Seq<char> {
    "(?:时间|[Tt]ime)\\s*<\\s*1"@
}

/// The pattern of a timed reply (`时间=8ms` / `time=8ms`), the digits in group 1.
pub open spec fn timed_pattern() -> Seq<char> {
    "(?:时间|[Tt]ime)\\s*=\\s*(\\d+)"@
}

/// The round-trip time read from the two pattern probes: 0 for a
/// sub-millisecond reply, else the decimal value of the timed reply's digits
/// where they fit in a `u32`, else none.
pub open spec fn rtt_from(below_one: Option<bool>, digits: Option<Seq<char>>) -> Option<u32> {
    if below_one == Some(true) {
        Some(0)
    } else {
        match digits {
            Some(d) => parse_u32(d),
            None => None,
        }
    }
}

/// The round-trip time given what the two pattern probes found in a `ping` line.
pub fn rtt_from_probes(below_one: Option<bool>, digits: Option<&str>) -> (r: Option<u32>)
    ensures
        r == rtt_from(
            below_one,
            match digits {
                Some(d) => Some(d@),
                None => None,
            },
        ),
{
    if below_one == Some(true) {
        return Some(0);
    }
    match digits {
        Some(d) => parse_u32_chars(&chars_of(d)),
        None => None,
    }
}

/// Reads the round-trip time from `ping` output (Chinese `时间=8ms`, English
/// `time=12ms`, or `时间<1ms`, which counts as 0).
pub fn parse_rtt(stdout: &str) -> (r: Option<u32>)
    ensures
        r == rtt_from(
            regex_is_match(below_one_pattern(), stdout@),
            regex_group1(timed_pattern(), stdout@),
        ),
{
    let below = regex_match("(?:时间|[Tt]ime)\\s*<\\s*1", stdout);
    if below == Some(true) {
        return rtt_from_probes(below, None);
    }
    let group = regex_capture1("(?:时间|[Tt]ime)\\s*=\\s*(\\d+)", stdout);
    match group {
        Some(g) => rtt_from_probes(below, Some(g.as_str())),
        None => rtt_from_probes(below, None),
    }
}

/// At most this many candidates are timed in one speed test.
pub const BENCH_LIMIT: usize = 15;

/// The candidates timed by a speed test: the first `max`, in order.
pub fn bench_candidates(providers: &[DnsProvider], max: usize) -> (r: Vec<DnsProvider>)
    ensures
        r@ == providers@.take(if max < providers@.len() { max as int } else { providers@.len() as int }),
{
    let n = if max < providers.len() { max } else { providers.len() };
    let mut r: Vec<DnsProvider> = Vec::new();
    let mut i: usize = 0;
    while i < n
        invariant
            i <= n <= providers@.len(),
            r@ == providers@.take(i as int),
        decreases n - i,
    {
        r.push(providers[i].copied());
        assert(r@ =~= providers@.take(i + 1));
        i = i + 1;
    }
    r
}

/// One ping of a DNS server, answered within a second.
pub fn dns_ping_command(ip: &str) -> (r: CmdSpec)
    ensures
        runs(r, "ping"@, seq!["-n"@, "1"@, "-w"@, "1000"@, ip@], 4),
{
    let r = console("ping", &["-n", "1", "-w", "1000", ip], 4);
    assert(views(r.args@) =~= seq!["-n"@, "1"@, "-w"@, "1000"@, ip@]);
    r
}

/// The speed-test result of a candidate whose ping took `rtt` (none: no answer).
pub fn bench_result(provider: DnsProvider, rtt: Option<u32>) -> (r: DnsBench)
    ensures
        r.provider == provider,
        r.latency_ms == rtt,
        r.reachable == rtt is Some,
{
    DnsBench { provider, latency_ms: rtt, reachable: rtt.is_some() }
}

} // verus!
