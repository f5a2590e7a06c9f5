//! Aggregation of a dispatch's results into a report.
//!
//! Latency averages are taken over successful attempts only; a provider
//! without a success reports an average of zero.
use vstd::prelude::*;
use crate::dispatch::{
    belongs_to, breakers_before, lemma_all_succeed_all_submit, provider_at, records,
    AttemptOutcome, SubmissionResult, SubmissionTask, SubmitError,
};
use crate::health::ServiceHealth;

verus! {

/// Number of successful results in `s`.
pub open spec fn success_count(s: Seq<SubmissionResult>) -> nat
    decreases s.len(),
{
    if s.len() == 0 {
        0
    } else {
        success_count(s.drop_last()) + if s.last().success { 1nat } else { 0nat }
    }
}

/// Number of results in `s` that were skipped because the breaker was open,
/// without any submission being tried.
pub open spec fn skipped_count(s: Seq<SubmissionResult>) -> nat
    decreases s.len(),
{
    if s.len() == 0 {
        0
    } else {
        skipped_count(s.drop_last()) + if s.last().error == Some(SubmitError::CircuitOpen) {
            1nat
        } else {
            0nat
        }
    }
}

/// Sum of the latencies of the successful results in `s`.
pub open spec fn success_latency(s: Seq<SubmissionResult>) -> nat
    decreases s.len(),
{
    if s.len() == 0 {
        0
    } else {
        success_latency(s.drop_last()) + if s.last().success {
            s.last().latency_us as nat
        } else {
            0nat
        }
    }
}

/// Only the results of provider `p`.
pub open spec fn of_provider(s: Seq<SubmissionResult>, p: int) -> Seq<SubmissionResult> {
    s.filter(|r: SubmissionResult| r.provider == p)
}

/// Per-provider figures of a dispatch.
#[derive(Debug, Clone)]
pub struct ServiceStats {
    pub service_name: String,
    pub successes: usize,
    pub attempts: usize,
    pub skipped: usize,
    pub success_latency_us: u128,
}

/// Summary of a dispatch.
#[derive(Debug, Clone)]
pub struct DispatchReport {
    pub total_submissions: usize,
    pub success_count: usize,
    pub skipped_count: usize,
    pub success_latency_us: u128,
    pub wall_time_us: u64,
    pub services: Vec<ServiceStats>,
}

/// Average of `total` over `count` items, zero when there are none.
pub open spec fn average(total: int, count: int) -> int {
    if count == 0 {
        0
    } else {
        total / count
    }
}

impl ServiceStats {
    /// Average latency of the provider's successful attempts.
    pub fn average_latency_us(&self) -> (r: u128)
        ensures
            r == average(self.success_latency_us as int, self.successes as int),
    {
        if self.successes == 0 {
            0
        } else {
            self.success_latency_us / (self.successes as u128)
        }
    }
}

impl DispatchReport {
    /// Average latency of all successful attempts.
    pub fn average_latency_us(&self) -> (r: u128)
        ensures
            r == average(self.success_latency_us as int, self.success_count as int),
    {
        if self.success_count == 0 {
            0
        } else {
            self.success_latency_us / (self.success_count as u128)
        }
    }
}

proof fn lemma_bounds(s: Seq<SubmissionResult>)
    ensures
        success_count(s) <= s.len(),
        skipped_count(s) <= s.len(),
        success_latency(s) <= s.len() * (u64::MAX as nat),
    decreases s.len(),
{
    if s.len() > 0 {
        lemma_bounds(s.drop_last());
        assert((s.len() - 1) * (u64::MAX as nat) + u64::MAX as nat == s.len() * (u64::MAX as nat))
            by (nonlinear_arith);
    }
}

proof fn lemma_filter_push(s: Seq<SubmissionResult>, x: SubmissionResult, p: int)
    ensures
        of_provider(s.push(x), p) == if x.provider == p {
            of_provider(s, p).push(x)
        } else {
            of_provider(s, p)
        },
{
    reveal(Seq::filter);
    assert(s.push(x).drop_last() =~= s);
}

proof fn lemma_of_provider_len(s: Seq<SubmissionResult>, p: int)
    ensures
        of_provider(s, p).len() <= s.len(),
{
    s.lemma_filter_len(|r: SubmissionResult| r.provider == p);
}

/// Summarises `results`, which a dispatch over the providers named in
/// `names` produced in `wall_time_us` microseconds: overall counts, and for
/// each provider its successes, its attempts, the attempts skipped by its
/// breaker and the summed latency of its successes.
pub fn aggregate(names: &Vec<String>, results: &Vec<SubmissionResult>, wall_time_us: u64) -> (r:
    DispatchReport)
    ensures
        r.total_submissions == results@.len(),
        r.success_count == success_count(results@),
        r.skipped_count == skipped_count(results@),
        r.success_latency_us == success_latency(results@),
        r.wall_time_us == wall_time_us,
        r.services@.len() == names@.len(),
        forall|p: int|
            0 <= p < names@.len() ==> {
                &&& (#[trigger] r.services@[p]).service_name@ == names@[p]@
                &&& r.services@[p].successes == success_count(of_provider(results@, p))
                &&& r.services@[p].attempts == of_provider(results@, p).len()
                &&& r.services@[p].skipped == skipped_count(of_provider(results@, p))
                &&& r.services@[p].success_latency_us == success_latency(of_provider(results@, p))
            },
{
    let np = names.len();
    let mut succ: Vec<usize> = Vec::new();
    let mut att: Vec<usize> = Vec::new();
    let mut lat: Vec<u128> = Vec::new();
    let mut skip: Vec<usize> = Vec::new();
    let mut q: usize = 0;
    while q < np
        invariant
            np == names@.len(),
            q <= np,
            succ@.len() == q && att@.len() == q && lat@.len() == q && skip@.len() == q,
            forall|j: int| 0 <= j < q ==> #[trigger] succ@[j] == 0,
            forall|j: int| 0 <= j < q ==> #[trigger] skip@[j] == 0,
            forall|j: int| 0 <= j < q ==> #[trigger] att@[j] == 0,
            forall|j: int| 0 <= j < q ==> #[trigger] lat@[j] == 0,
        decreases np - q,
    {
        succ.push(0);
        att.push(0);
        lat.push(0);
        skip.push(0);
        q = q + 1;
    }
    proof {
        assert forall|j: int| 0 <= j < np implies of_provider(results@.subrange(0, 0), j).len() == 0 by {
            reveal(Seq::filter);
        }
    }
    let mut total_succ: usize = 0;
    let mut total_lat: u128 = 0;
    let mut total_skip: usize = 0;
    let mut i: usize = 0;
    while i < results.len()
        invariant
            np == names@.len(),
            i <= results@.len(),
            succ@.len() == np && att@.len() == np && lat@.len() == np && skip@.len() == np,
            total_succ == success_count(results@.subrange(0, i as int)),
            total_skip == skipped_count(results@.subrange(0, i as int)),
            forall|j: int|
                0 <= j < np ==> #[trigger] skip@[j] == skipped_count(
                    of_provider(results@.subrange(0, i as int), j),
                ),
            total_lat == success_latency(results@.subrange(0, i as int)),
            forall|j: int|
                0 <= j < np ==> #[trigger] succ@[j] == success_count(
                    of_provider(results@.subrange(0, i as int), j),
                ),
            forall|j: int|
                0 <= j < np ==> #[trigger] att@[j] == of_provider(
                    results@.subrange(0, i as int),
                    j,
                ).len(),
            forall|j: int|
                0 <= j < np ==> #[trigger] lat@[j] == success_latency(
                    of_provider(results@.subrange(0, i as int), j),
                ),
        decreases results@.len() - i,
    {
        let ghost pre = results@.subrange(0, i as int);
        let ghost next = results@.subrange(0, i as int + 1);
        proof {
            assert(next =~= pre.push(results@[i as int]));
            assert(next.drop_last() =~= pre);
            lemma_bounds(next);
            assert(next.len() * (u64::MAX as nat) <= usize::MAX as nat * (u64::MAX as nat))
                by (nonlinear_arith)
                requires
                    next.len() <= usize::MAX,
            ;
        }
        let r = &results[i];
        if r.success {
            total_succ = total_succ + 1;
            total_lat = total_lat + r.latency_us as u128;
        }
        let skipped = match r.error {
            Some(SubmitError::CircuitOpen) => true,
            _ => false,
        };
        if skipped {
            total_skip = total_skip + 1;
        }
        let p = r.provider;
        let ghost succ0 = succ@;
        let ghost att0 = att@;
        let ghost lat0 = lat@;
        let ghost skip0 = skip@;
        if p < np {
            proof {
                let f = of_provider(next, p as int);
                lemma_filter_push(pre, results@[i as int], p as int);
                lemma_bounds(f);
                lemma_of_provider_len(next, p as int);
                assert(f == of_provider(pre, p as int).push(results@[i as int]));
                assert(att@[p as int] == of_provider(pre, p as int).len());
                assert(f.len() == att@[p as int] + 1);
                assert(f.drop_last() =~= of_provider(pre, p as int));
                assert(f.len() * (u64::MAX as nat) <= usize::MAX as nat * (u64::MAX as nat))
                    by (nonlinear_arith)
                    requires
                        f.len() <= usize::MAX,
                ;
            }
            att.set(p, att[p] + 1);
            if r.success {
                succ.set(p, succ[p] + 1);
                lat.set(p, lat[p] + r.latency_us as u128);
            }
            if skipped {
                skip.set(p, skip[p] + 1);
            }
        }
        proof {
            assert forall|j: int| 0 <= j < np implies #[trigger] succ@[j] == success_count(
                of_provider(next, j),
            ) && att@[j] == of_provider(next, j).len() && lat@[j] == success_latency(
                of_provider(next, j),
            ) && skip@[j] == skipped_count(of_provider(next, j)) by {
                assert(succ0[j] == success_count(of_provider(pre, j)));
                assert(att0[j] == of_provider(pre, j).len());
                assert(lat0[j] == success_latency(of_provider(pre, j)));
                assert(skip0[j] == skipped_count(of_provider(pre, j)));
                lemma_filter_push(pre, results@[i as int], j);
                if j == p {
                    assert(of_provider(next, j).drop_last() =~= of_provider(pre, j));
                }
            }
            assert forall|j: int| 0 <= j < np implies #[trigger] att@[j] == of_provider(next, j).len() by {
                assert(succ@[j] == success_count(of_provider(next, j)));
            }
            assert forall|j: int| 0 <= j < np implies #[trigger] lat@[j] == success_latency(of_provider(next, j)) by {
                assert(succ@[j] == success_count(of_provider(next, j)));
            }
            assert forall|j: int| 0 <= j < np implies #[trigger] skip@[j] == skipped_count(of_provider(next, j)) by {
                assert(succ@[j] == success_count(of_provider(next, j)));
            }
        }
        i = i + 1;
    }
    let mut services: Vec<ServiceStats> = Vec::new();
    let mut k: usize = 0;
    while k < np
        invariant
            np == names@.len(),
            k <= np,
            succ@.len() == np && att@.len() == np && lat@.len() == np && skip@.len() == np,
            services@.len() == k,
            forall|j: int|
                0 <= j < k ==> {
                    &&& (#[trigger] services@[j]).service_name@ == names@[j]@
                    &&& services@[j].successes == succ@[j]
                    &&& services@[j].attempts == att@[j]
                    &&& services@[j].skipped == skip@[j]
                    &&& services@[j].success_latency_us == lat@[j]
                },
        decreases np - k,
    {
        services.push(
            ServiceStats {
                service_name: names[k].clone(),
                successes: succ[k],
                attempts: att[k],
                skipped: skip[k],
                success_latency_us: lat[k],
            },
        );
        k = k + 1;
    }
    assert(results@.subrange(0, results@.len() as int) =~= results@);
    DispatchReport {
        total_submissions: results.len(),
        success_count: total_succ,
        skipped_count: total_skip,
        success_latency_us: total_lat,
        wall_time_us,
        services,
    }
}

proof fn lemma_uniform_successes(s: Seq<SubmissionResult>, latency: u64)
    requires
        forall|k: int| 0 <= k < s.len() ==> (#[trigger] s[k]).success && s[k].latency_us == latency,
    ensures
        success_count(s) == s.len(),
        success_latency(s) == s.len() * (latency as nat),
    decreases s.len(),
{
    if s.len() > 0 {
        let t = s.drop_last();
        assert forall|k: int| 0 <= k < t.len() implies (#[trigger] t[k]).success && t[k].latency_us
            == latency by {
            assert(t[k] == s[k]);
        }
        lemma_uniform_successes(t, latency);
        assert(s.last() == s[s.len() - 1]);
        assert((s.len() - 1) * (latency as nat) + latency as nat == s.len() * (latency as nat))
            by (nonlinear_arith);
    }
}

/// When every attempt of a dispatch succeeds with the same latency, the
/// report counts every attempt as a success, overall and for each
/// provider, and each average is that latency.
pub proof fn lemma_all_succeed_report(s: Seq<SubmissionResult>, latency: u64, p: int)
    requires
        forall|k: int| 0 <= k < s.len() ==> (#[trigger] s[k]).success && s[k].latency_us == latency,
    ensures
        success_count(s) == s.len(),
        s.len() > 0 ==> average(success_latency(s) as int, success_count(s) as int) == latency,
        success_count(of_provider(s, p)) == of_provider(s, p).len(),
        of_provider(s, p).len() > 0 ==> average(
            success_latency(of_provider(s, p)) as int,
            success_count(of_provider(s, p)) as int,
        ) == latency,
{
    lemma_uniform_successes(s, latency);
    let f = of_provider(s, p);
    assert forall|k: int| 0 <= k < f.len() implies (#[trigger] f[k]).success && f[k].latency_us
        == latency by {
        assert(f.contains(f[k]));
        s.lemma_filter_contains_rev(|r: SubmissionResult| r.provider == p, f[k]);
        let i = choose|i: int| 0 <= i < s.len() && s[i] == f[k];
        assert(s[i].success);
    }
    lemma_uniform_successes(f, latency);
    let n = s.len() as int;
    let m = f.len() as int;
    let l = latency as int;
    assert(n > 0 ==> (n * l) / n == l) by (nonlinear_arith);
    assert(m > 0 ==> (m * l) / m == l) by (nonlinear_arith);
}

spec fn block_count(n: int, p: int, r: int) -> int {
    if n <= p * r {
        0
    } else if n >= (p + 1) * r {
        r
    } else {
        n - p * r
    }
}

proof fn lemma_block_prefix(s: Seq<SubmissionResult>, r: nat, p: int, n: int)
    requires
        r > 0,
        0 <= p,
        0 <= n <= s.len(),
        forall|k: int| 0 <= k < s.len() ==> (#[trigger] s[k]).provider == k / (r as int),
    ensures
        of_provider(s.subrange(0, n), p).len() == block_count(n, p, r as int),
    decreases n,
{
    let ri = r as int;
    if n == 0 {
        reveal(Seq::filter);
        assert(p * ri >= 0) by (nonlinear_arith)
            requires
                0 <= p,
                ri > 0,
        ;
    } else {
        lemma_block_prefix(s, r, p, n - 1);
        let pre = s.subrange(0, n - 1);
        assert(s.subrange(0, n) =~= pre.push(s[n - 1]));
        lemma_filter_push(pre, s[n - 1], p);
        let k = n - 1;
        vstd::arithmetic::div_mod::lemma_fundamental_div_mod(k, ri);
        vstd::arithmetic::div_mod::lemma_mod_pos_bound(k, ri);
        let q = k / ri;
        assert((p + 1) * ri == p * ri + ri) by (nonlinear_arith);
        assert(s[k].provider == q);
        if q == p {
            assert(p * ri <= k < (p + 1) * ri) by (nonlinear_arith)
                requires
                    k == ri * q + k % ri,
                    0 <= k % ri < ri,
                    q == p,
            ;
        } else if q < p {
            assert(k < p * ri) by (nonlinear_arith)
                requires
                    k == ri * q + k % ri,
                    0 <= k % ri < ri,
                    q < p,
            ;
        } else {
            assert(k >= (p + 1) * ri) by (nonlinear_arith)
                requires
                    k == ri * q + k % ri,
                    0 <= k % ri,
                    q >= p + 1,
                    ri > 0,
            ;
        }
    }
}

/// In the results of a dispatch over `providers` providers with `retries`
/// attempts each, result `p * retries + a` being attempt `a` of provider
/// `p`, each provider has exactly `retries` attempts.
pub proof fn lemma_attempts_per_provider(s: Seq<SubmissionResult>, providers: nat, retries: nat, p: int)
    requires
        s.len() == providers * retries,
        0 <= p < providers,
        forall|q: int, a: int|
            0 <= q < providers && 0 <= a < retries ==> (#[trigger] s[q * retries + a]).provider == q,
    ensures
        of_provider(s, p).len() == retries,
{
    if retries == 0 {
        reveal(Seq::filter);
        assert(s.len() == 0) by (nonlinear_arith)
            requires
                s.len() == providers * retries,
                retries == 0,
        ;
        assert(s =~= Seq::<SubmissionResult>::empty());
        assert(of_provider(s, p) =~= Seq::<SubmissionResult>::empty());
    } else {
        let ri = retries as int;
        assert forall|k: int| 0 <= k < s.len() implies (#[trigger] s[k]).provider == k / ri by {
            vstd::arithmetic::div_mod::lemma_fundamental_div_mod(k, ri);
            vstd::arithmetic::div_mod::lemma_mod_pos_bound(k, ri);
            let q = k / ri;
            let a = k % ri;
            assert(0 <= q < providers) by (nonlinear_arith)
                requires
                    k == ri * q + a,
                    0 <= a < ri,
                    0 <= k < providers * ri,
            ;
            assert(q * ri + a == k) by (nonlinear_arith)
                requires
                    k == ri * q + a,
            ;
            assert(s[q * retries + a].provider == q);
        }
        lemma_block_prefix(s, retries, p, s.len() as int);
        assert(s.subrange(0, s.len() as int) =~= s);
        assert(s.len() >= (p + 1) * ri) by (nonlinear_arith)
            requires
                s.len() == providers * ri,
                p + 1 <= providers,
                ri > 0,
        ;
        assert(p * ri < (p + 1) * ri) by (nonlinear_arith)
            requires
                ri > 0,
        ;
        assert(block_count(s.len() as int, p, ri) == ri);
    }
}

/// A dispatch in plan order over `names` with `retries` attempts each, whose
/// breakers all start closed and whose submissions all succeed with the same
/// latency, reports every attempt as a success: `names.len() * retries` in
/// all, `retries` of `retries` for each provider, and that latency as every
/// average. `results` and `final_health` are what `dispatch_in_order`
/// returns; its guarantees are the requirements here.
pub proof fn lemma_all_succeed_dispatch(
    names: Seq<String>,
    health: Seq<ServiceHealth>,
    retries: nat,
    outcomes: Seq<AttemptOutcome>,
    results: Seq<SubmissionResult>,
    latency: u64,
    p: int,
)
    requires
        health.len() == names.len(),
        retries <= u32::MAX,
        names.len() <= usize::MAX,
        0 <= p < names.len(),
        outcomes.len() == names.len() * retries,
        forall|q: int| 0 <= q < health.len() ==> !(#[trigger] health[q]).circuit_open,
        forall|j: int|
            0 <= j < outcomes.len() ==> (#[trigger] outcomes[j]).result is Ok
                && outcomes[j].latency_us == latency,
        results.len() == names.len() * retries,
        forall|q: int, a: int|
            0 <= q < names.len() && 0 <= a < retries ==> belongs_to(
                #[trigger] results[q * retries + a],
                names[q]@,
                SubmissionTask { provider: q as usize, attempt: a as u32 },
            ),
        forall|k: int|
            0 <= k < results.len() ==> records(
                #[trigger] results[k],
                breakers_before(health, retries, outcomes, k as nat)[provider_at(k, retries)],
                outcomes[k],
            ),
    ensures
        success_count(results) == names.len() * retries,
        results.len() > 0 ==> average(
            success_latency(results) as int,
            success_count(results) as int,
        ) == latency,
        of_provider(results, p).len() == retries,
        success_count(of_provider(results, p)) == retries,
        retries > 0 ==> average(
            success_latency(of_provider(results, p)) as int,
            success_count(of_provider(results, p)) as int,
        ) == latency,
{
    if retries > 0 {
        assert forall|k: int| 0 <= k < results.len() implies (#[trigger] results[k]).success
            && results[k].latency_us == latency by {
            lemma_all_succeed_all_submit(health, retries, outcomes, k);
            assert(records(
                results[k],
                breakers_before(health, retries, outcomes, k as nat)[provider_at(k, retries)],
                outcomes[k],
            ));
        }
    } else {
        assert(results.len() == 0) by (nonlinear_arith)
            requires
                results.len() == names.len() * retries,
                retries == 0,
        ;
    }
    assert forall|q: int, a: int| 0 <= q < names.len() && 0 <= a < retries implies (#[trigger] results[q
        * retries + a]).provider == q by {
        assert(belongs_to(
            results[q * retries + a],
            names[q]@,
            SubmissionTask { provider: q as usize, attempt: a as u32 },
        ));
    }
    lemma_attempts_per_provider(results, names.len(), retries, p);
    lemma_all_succeed_report(results, latency, p);
}

} // verus!
