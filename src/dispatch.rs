//! Fan-out of submissions over providers and attempts.
//!
//! A dispatch over `P` providers with `R` attempts each plans `P * R`
//! independent tasks, task `p * R + a` being attempt `a` of provider `p`.
//! Every task is gated by its provider's circuit breaker before it may touch
//! the network, and every task ends with exactly one result.
use vstd::prelude::*;
use crate::health::{ServiceHealth, COOLDOWN_MS};
use crate::tip::ConfigError;

verus! {

/// Why a submission did not succeed.
#[derive(Debug, Clone, PartialEq, Eq)]
pub enum SubmitError {
    /// Skipped locally: the provider's circuit breaker was open.
    CircuitOpen,
    /// The provider's configuration cannot serve the submission.
    Config(ConfigError),
    /// Connection, timeout or TLS failure, with the transport's message.
    Transport(String),
    /// The provider answered with an HTML error page.
    HtmlPage,
    /// The provider rejected the credentials; the body is kept.
    AuthRejected(String),
    /// The provider answered with a JSON object carrying an error member.
    ErrorObject(String),
    /// The body matched no known shape; it is kept as it came.
    Unparseable(String),
    /// The task never reported back.
    NotCompleted,
}

/// One planned submission: attempt `attempt` of provider `provider`.
#[derive(Debug, Clone, Copy, PartialEq, Eq)]
pub struct SubmissionTask {
    pub provider: usize,
    pub attempt: u32,
}

/// The outcome of one task.
#[derive(Debug, Clone)]
pub struct SubmissionResult {
    pub service_name: String,
    pub provider: usize,
    pub attempt: u32,
    pub success: bool,
    pub latency_us: u64,
    pub error: Option<SubmitError>,
}

/// Whether `tasks` is the plan for `providers` providers with `retries`
/// attempts each, provider by provider.
pub open spec fn is_plan(tasks: Seq<SubmissionTask>, providers: nat, retries: nat) -> bool {
    &&& tasks.len() == providers * retries
    &&& forall|k: int| 0 <= k < tasks.len() ==> (#[trigger] tasks[k]).provider < providers
        && tasks[k].attempt < retries
    &&& forall|p: int, a: int|
        0 <= p < providers && 0 <= a < retries ==> #[trigger] tasks[p * retries + a]
            == (SubmissionTask { provider: p as usize, attempt: a as u32 })
}

proof fn lemma_plan_index(p: int, a: int, q: int, r: int)
    requires
        0 <= a < r,
        0 <= q < p,
    ensures
        0 <= q * r + a < p * r,
{
    assert(q * r + a < (q + 1) * r) by (nonlinear_arith)
        requires
            a < r,
    ;
    assert((q + 1) * r <= p * r) by (nonlinear_arith)
        requires
            q + 1 <= p,
            0 < r,
    ;
    assert(0 <= q * r) by (nonlinear_arith)
        requires
            0 <= q,
            0 < r,
    ;
}

/// Plans every submission: for each provider, every attempt index below
/// `retry_count`.
pub fn plan_submissions(provider_count: usize, retry_count: u32) -> (r: Vec<SubmissionTask>)
    requires
        provider_count * retry_count <= usize::MAX,
    ensures
        is_plan(r@, provider_count as nat, retry_count as nat),
{
    let mut tasks: Vec<SubmissionTask> = Vec::new();
    let mut p: usize = 0;
    let ghost rr = retry_count as int;
    while p < provider_count
        invariant
            p <= provider_count,
            rr == retry_count,
            provider_count * retry_count <= usize::MAX,
            tasks@.len() == p * rr,
            forall|k: int| 0 <= k < tasks@.len() ==> (#[trigger] tasks@[k]).provider < p
                && tasks@[k].attempt < rr,
            forall|q: int, a: int|
                0 <= q < p && 0 <= a < rr ==> #[trigger] tasks@[q * rr + a] == (SubmissionTask {
                    provider: q as usize,
                    attempt: a as u32,
                }),
        decreases provider_count - p,
    {
        let mut a: u32 = 0;
        assert(p * rr + rr == (p + 1) * rr) by (nonlinear_arith);
        assert((p + 1) * rr <= provider_count * rr) by (nonlinear_arith)
            requires
                p + 1 <= provider_count,
                0 <= rr,
        ;
        while a < retry_count
            invariant
                p < provider_count,
                a <= retry_count,
                rr == retry_count,
                (p + 1) * rr <= usize::MAX,
                p * rr + rr == (p + 1) * rr,
                tasks@.len() == p * rr + a,
                forall|k: int| 0 <= k < tasks@.len() ==> (#[trigger] tasks@[k]).provider < p + 1
                    && tasks@[k].attempt < rr,
                forall|q: int, b: int|
                    0 <= q < p && 0 <= b < rr ==> #[trigger] tasks@[q * rr + b] == (SubmissionTask {
                        provider: q as usize,
                        attempt: b as u32,
                    }),
                forall|b: int|
                    0 <= b < a ==> #[trigger] tasks@[p * rr + b] == (SubmissionTask {
                        provider: p,
                        attempt: b as u32,
                    }),
            decreases retry_count - a,
        {
            let ghost before = tasks@;
            tasks.push(SubmissionTask { provider: p, attempt: a });
            assert forall|q: int, b: int| 0 <= q < p && 0 <= b < rr implies #[trigger] tasks@[q
                * rr + b] == (SubmissionTask { provider: q as usize, attempt: b as u32 }) by {
                lemma_plan_index(p as int, b, q, rr);
                assert(tasks@[q * rr + b] == before[q * rr + b]);
            }
            a = a + 1;
        }
        assert forall|q: int, b: int| 0 <= q < p + 1 && 0 <= b < rr implies #[trigger] tasks@[q * rr
            + b] == (SubmissionTask { provider: q as usize, attempt: b as u32 }) by {
            if q == p {
                assert(tasks@[p * rr + b] == (SubmissionTask { provider: p, attempt: b as u32 }));
            }
        }
        p = p + 1;
    }
    tasks
}

/// Whether `r` is the result of task `task` of the provider named `name`,
/// with the given outcome.
pub open spec fn result_is(
    r: SubmissionResult,
    name: Seq<char>,
    task: SubmissionTask,
    success: bool,
    latency_us: u64,
    error: Option<SubmitError>,
) -> bool {
    &&& r.service_name@ == name
    &&& r.provider == task.provider
    &&& r.attempt == task.attempt
    &&& r.success == success
    &&& r.latency_us == latency_us
    &&& r.error == error
}

/// Whether `r` is a result of task `task` of the provider named `name`.
pub open spec fn belongs_to(r: SubmissionResult, name: Seq<char>, task: SubmissionTask) -> bool {
    &&& r.service_name@ == name
    &&& r.provider == task.provider
    &&& r.attempt == task.attempt
}

/// The state of one dispatch: the providers' names and breakers, the planned
/// tasks, and one result slot per task.
pub struct Dispatcher {
    pub names: Vec<String>,
    pub health: Vec<ServiceHealth>,
    pub retry_count: u32,
    pub tasks: Vec<SubmissionTask>,
    pub slots: Vec<Option<SubmissionResult>>,
}

impl Dispatcher {
    pub open spec fn wf(&self) -> bool {
        &&& self.health@.len() == self.names@.len()
        &&& forall|p: int| 0 <= p < self.health@.len() ==> (#[trigger] self.health@[p]).wf()
        &&& is_plan(self.tasks@, self.names@.len(), self.retry_count as nat)
        &&& self.slots@.len() == self.tasks@.len()
        &&& forall|k: int|
            0 <= k < self.slots@.len() && (#[trigger] self.slots@[k]).is_some() ==> belongs_to(
                self.slots@[k].unwrap(),
                self.names@[self.tasks@[k].provider as int]@,
                self.tasks@[k],
            )
    }

    /// The provider that task `k` belongs to.
    pub open spec fn provider_of(&self, k: int) -> int {
        self.tasks@[k].provider as int
    }

    /// Whether slot `k` holds the result of task `k` with the given outcome.
    pub open spec fn slot_is(
        &self,
        k: int,
        success: bool,
        latency_us: u64,
        error: Option<SubmitError>,
    ) -> bool {
        &&& self.slots@[k].is_some()
        &&& result_is(
            self.slots@[k].unwrap(),
            self.names@[self.provider_of(k)]@,
            self.tasks@[k],
            success,
            latency_us,
            error,
        )
    }

    /// Starts a dispatch of `retry_count` attempts on each provider named in
    /// `names`, whose breakers are `health`. No task has a result yet.
    pub fn new(names: Vec<String>, health: Vec<ServiceHealth>, retry_count: u32) -> (r: Dispatcher)
        requires
            health@.len() == names@.len(),
            forall|p: int| 0 <= p < health@.len() ==> (#[trigger] health@[p]).wf(),
            names@.len() * retry_count <= usize::MAX,
        ensures
            r.wf(),
            r.names@ == names@,
            r.health@ == health@,
            r.retry_count == retry_count,
            r.tasks@.len() == names@.len() * retry_count,
            forall|k: int| 0 <= k < r.slots@.len() ==> (#[trigger] r.slots@[k]).is_none(),
    {
        let tasks = plan_submissions(names.len(), retry_count);
        let mut slots: Vec<Option<SubmissionResult>> = Vec::new();
        let mut k: usize = 0;
        while k < tasks.len()
            invariant
                k <= tasks@.len(),
                slots@.len() == k,
                forall|j: int| 0 <= j < k ==> (#[trigger] slots@[j]).is_none(),
            decreases tasks@.len() - k,
        {
            slots.push(None);
            k = k + 1;
        }
        Dispatcher { names, health, retry_count, tasks, slots }
    }

    /// The number of planned tasks.
    pub fn task_count(&self) -> (r: usize)
        ensures
            r == self.tasks@.len(),
    {
        self.tasks.len()
    }

    /// Whether task `k` is planned and has no result yet.
    pub fn is_pending(&self, k: usize) -> (r: bool)
        requires
            self.wf(),
        ensures
            r == (k < self.tasks@.len() && self.slots@[k as int].is_none()),
    {
        k < self.slots.len() && self.slots[k].is_none()
    }

    /// The task planned at index `k`.
    pub fn task(&self, k: usize) -> (r: SubmissionTask)
        requires
            k < self.tasks@.len(),
        ensures
            r == self.tasks@[k as int],
    {
        self.tasks[k]
    }

    /// Gates task `k` at `now` on its provider's breaker. Returns whether the
    /// task may submit; when it may not, the task's result is recorded as
    /// skipped because the breaker was open, and no network call is owed.
    pub fn begin(&mut self, k: usize, now: u64) -> (go: bool)
        requires
            old(self).wf(),
            k < old(self).tasks@.len(),
            old(self).slots@[k as int].is_none(),
        ensures
            final(self).wf(),
            go == old(self).health@[old(self).provider_of(k as int)].allows(now),
            final(self).health@ == old(self).health@.update(
                old(self).provider_of(k as int),
                old(self).health@[old(self).provider_of(k as int)].after_check(now),
            ),
            final(self).names@ == old(self).names@,
            final(self).tasks@ == old(self).tasks@,
            final(self).retry_count == old(self).retry_count,
            go ==> final(self).slots@ == old(self).slots@,
            !go ==> final(self).slot_is(k as int, false, 0, Some(SubmitError::CircuitOpen)),
            forall|j: int| 0 <= j < old(self).slots@.len() && j != k ==> #[trigger] final(self).slots@[j]
                == old(self).slots@[j],
    {
        let p = self.tasks[k].provider;
        let mut h = self.health[p];
        let go = h.should_attempt_request(now);
        self.health.set(p, h);
        if !go {
            let r = SubmissionResult {
                service_name: self.names[p].clone(),
                provider: p,
                attempt: self.tasks[k].attempt,
                success: false,
                latency_us: 0,
                error: Some(SubmitError::CircuitOpen),
            };
            self.slots.set(k, Some(r));
        }
        go
    }

    /// Records, at `now`, what the submission of task `k` came to after
    /// `latency_us` microseconds: its provider's breaker learns of the
    /// success or failure, and the task's result is recorded.
    pub fn complete(&mut self, k: usize, outcome: Result<(), SubmitError>, latency_us: u64, now: u64)
        requires
            old(self).wf(),
            k < old(self).tasks@.len(),
            old(self).slots@[k as int].is_none(),
        ensures
            final(self).wf(),
            final(self).health@ == old(self).health@.update(
                old(self).provider_of(k as int),
                match outcome {
                    Ok(_) => old(self).health@[old(self).provider_of(k as int)].after_success(),
                    Err(_) => old(self).health@[old(self).provider_of(k as int)].after_failure(now),
                },
            ),
            final(self).names@ == old(self).names@,
            final(self).tasks@ == old(self).tasks@,
            final(self).retry_count == old(self).retry_count,
            final(self).slot_is(
                k as int,
                outcome.is_ok(),
                latency_us,
                match outcome {
                    Ok(_) => None,
                    Err(e) => Some(e),
                },
            ),
            forall|j: int| 0 <= j < old(self).slots@.len() && j != k ==> #[trigger] final(self).slots@[j]
                == old(self).slots@[j],
    {
        let p = self.tasks[k].provider;
        let mut h = self.health[p];
        let success = outcome.is_ok();
        let error = match outcome {
            Ok(_) => None,
            Err(e) => Some(e),
        };
        if success {
            h.record_success();
        } else {
            h.record_failure(now);
        }
        self.health.set(p, h);
        let r = SubmissionResult {
            service_name: self.names[p].clone(),
            provider: p,
            attempt: self.tasks[k].attempt,
            success,
            latency_us,
            error,
        };
        self.slots.set(k, Some(r));
    }

    /// Ends the dispatch: one result per planned task, in plan order, a task
    /// that never reported back counting as not completed; and the
    /// providers' breakers as they now stand.
    pub fn finish(self) -> (r: (Vec<SubmissionResult>, Vec<ServiceHealth>))
        requires
            self.wf(),
        ensures
            r.0@.len() == self.names@.len() * self.retry_count,
            r.0@.len() == self.tasks@.len(),
            forall|k: int|
                0 <= k < r.0@.len() ==> match self.slots@[k] {
                    Some(x) => #[trigger] r.0@[k] == x,
                    None => result_is(
                        r.0@[k],
                        self.names@[self.provider_of(k)]@,
                        self.tasks@[k],
                        false,
                        0,
                        Some(SubmitError::NotCompleted),
                    ),
                },
            forall|k: int|
                0 <= k < r.0@.len() ==> belongs_to(
                    #[trigger] r.0@[k],
                    self.names@[self.provider_of(k)]@,
                    self.tasks@[k],
                ),
            forall|p: int, a: int|
                0 <= p < self.names@.len() && 0 <= a < self.retry_count ==> belongs_to(
                    #[trigger] r.0@[p * self.retry_count + a],
                    self.names@[p]@,
                    SubmissionTask { provider: p as usize, attempt: a as u32 },
                ),
            r.1@ == self.health@,
            forall|p: int| 0 <= p < r.1@.len() ==> (#[trigger] r.1@[p]).wf(),
    {
        let np = self.names.len();
        let ghost me = self;
        let Dispatcher { names, health, retry_count, tasks, mut slots } = self;
        let ghost old_slots = slots@;
        let mut results: Vec<SubmissionResult> = Vec::new();
        let mut k: usize = 0;
        while k < tasks.len()
            invariant
                k <= tasks@.len(),
                slots@.len() == tasks@.len(),
                old_slots.len() == tasks@.len(),
                is_plan(tasks@, names@.len(), retry_count as nat),
                results@.len() == k,
                forall|j: int| k <= j < slots@.len() ==> #[trigger] slots@[j] == old_slots[j],
                forall|j: int|
                    0 <= j < k ==> match old_slots[j] {
                        Some(x) => #[trigger] results@[j] == x,
                        None => result_is(
                            results@[j],
                            names@[tasks@[j].provider as int]@,
                            tasks@[j],
                            false,
                            0,
                            Some(SubmitError::NotCompleted),
                        ),
                    },
            decreases tasks@.len() - k,
        {
            let slot = slots[k].take();
            let r = match slot {
                Some(x) => x,
                None => {
                    let p = tasks[k].provider;
                    SubmissionResult {
                        service_name: names[p].clone(),
                        provider: p,
                        attempt: tasks[k].attempt,
                        success: false,
                        latency_us: 0,
                        error: Some(SubmitError::NotCompleted),
                    }
                },
            };
            results.push(r);
            k = k + 1;
        }
        proof {
            assert forall|j: int| 0 <= j < results@.len() implies belongs_to(
                #[trigger] results@[j],
                names@[tasks@[j].provider as int]@,
                tasks@[j],
            ) by {
                if old_slots[j].is_some() {
                    assert(me.slots@[j].is_some());
                }
            }
            assert forall|p: int, a: int| 0 <= p < names@.len() && 0 <= a < retry_count implies belongs_to(
                #[trigger] results@[p * retry_count + a],
                names@[p]@,
                SubmissionTask { provider: p as usize, attempt: a as u32 },
            ) by {
                let idx = p * retry_count + a;
                assert(0 <= idx < tasks@.len()) by (nonlinear_arith)
                    requires
                        idx == p * retry_count + a,
                        0 <= p < names@.len(),
                        0 <= a < retry_count,
                        tasks@.len() == names@.len() * retry_count,
                ;
                assert(names@.len() == np);
                assert(tasks@[idx] == (SubmissionTask { provider: p as usize, attempt: a as u32 }));
            }
        }
        (results, health)
    }
}

/// What one submission came to, for a dispatch run in plan order: its
/// result, its latency, and the time in milliseconds at which it ran.
#[derive(Debug)]
pub struct AttemptOutcome {
    pub result: Result<(), SubmitError>,
    pub latency_us: u64,
    pub at_ms: u64,
}

/// The error that an attempt's result carries, if any.
pub open spec fn error_of(result: Result<(), SubmitError>) -> Option<SubmitError> {
    match result {
        Ok(_) => None,
        Err(e) => Some(e),
    }
}

/// The provider of task `k` in a plan with `retries` attempts per provider.
pub open spec fn provider_at(k: int, retries: nat) -> int {
    k / (retries as int)
}

/// A breaker after one task of a dispatch in plan order: it is asked at
/// `o.at_ms` whether the task may submit and, when it may, learns whether
/// the submission succeeded.
pub open spec fn after_attempt(h: ServiceHealth, o: AttemptOutcome) -> ServiceHealth {
    let checked = h.after_check(o.at_ms);
    if !h.allows(o.at_ms) {
        checked
    } else {
        match o.result {
            Ok(_) => checked.after_success(),
            Err(_) => checked.after_failure(o.at_ms),
        }
    }
}

/// The breakers before task `k` of a dispatch in plan order that started
/// from `health`, task `j` having come to `outcomes[j]`.
pub open spec fn breakers_before(
    health: Seq<ServiceHealth>,
    retries: nat,
    outcomes: Seq<AttemptOutcome>,
    k: nat,
) -> Seq<ServiceHealth>
    decreases k,
{
    if k == 0 {
        health
    } else {
        let prev = breakers_before(health, retries, outcomes, (k - 1) as nat);
        let p = provider_at(k - 1, retries);
        prev.update(p, after_attempt(prev[p], outcomes[k - 1]))
    }
}

/// Whether `r` records a task whose provider's breaker stood at `h` and
/// whose submission would come to `o`: skipped exactly when the breaker
/// refuses at `o.at_ms`, and otherwise what `o` came to.
pub open spec fn records(r: SubmissionResult, h: ServiceHealth, o: AttemptOutcome) -> bool {
    if h.allows(o.at_ms) {
        r.success == o.result.is_ok() && r.latency_us == o.latency_us && r.error == error_of(
            o.result,
        )
    } else {
        !r.success && r.latency_us == 0 && r.error == Some(SubmitError::CircuitOpen)
    }
}

proof fn lemma_task_position(tasks: Seq<SubmissionTask>, providers: nat, retries: nat, k: int)
    requires
        is_plan(tasks, providers, retries),
        0 <= k < tasks.len(),
        providers <= usize::MAX,
        retries <= u32::MAX,
    ensures
        retries > 0,
        tasks[k].provider == provider_at(k, retries),
        tasks[k].attempt == k % (retries as int),
{
    let r = retries as int;
    assert(r > 0) by (nonlinear_arith)
        requires
            0 <= k < providers * r,
            r >= 0,
    ;
    vstd::arithmetic::div_mod::lemma_fundamental_div_mod(k, r);
    vstd::arithmetic::div_mod::lemma_mod_pos_bound(k, r);
    let p = k / r;
    let a = k % r;
    assert(0 <= p < providers) by (nonlinear_arith)
        requires
            k == r * p + a,
            0 <= a < r,
            0 <= k < providers * r,
    ;
    assert(p * r + a == k) by (nonlinear_arith)
        requires
            k == r * p + a,
    ;
    assert(tasks[p * r + a] == (SubmissionTask { provider: p as usize, attempt: a as u32 }));
}

/// Runs a whole dispatch one task after another, in plan order. Task `k` is
/// gated at `outcomes[k].at_ms` by its provider's breaker as the earlier
/// tasks left it; when it may submit, `outcomes[k]` is what its submission
/// came to. Every task yields exactly one result, `names.len() * retry_count`
/// in all, result `p * retry_count + a` being attempt `a` of provider `p`.
pub fn dispatch_in_order(
    names: Vec<String>,
    health: Vec<ServiceHealth>,
    retry_count: u32,
    outcomes: Vec<AttemptOutcome>,
) -> (r: (Vec<SubmissionResult>, Vec<ServiceHealth>))
    requires
        health@.len() == names@.len(),
        forall|p: int| 0 <= p < health@.len() ==> (#[trigger] health@[p]).wf(),
        names@.len() * retry_count <= usize::MAX,
        outcomes@.len() == names@.len() * retry_count,
    ensures
        r.0@.len() == names@.len() * retry_count,
        forall|p: int, a: int|
            0 <= p < names@.len() && 0 <= a < retry_count ==> belongs_to(
                #[trigger] r.0@[p * retry_count + a],
                names@[p]@,
                SubmissionTask { provider: p as usize, attempt: a as u32 },
            ),
        forall|k: int|
            0 <= k < r.0@.len() ==> records(
                #[trigger] r.0@[k],
                breakers_before(health@, retry_count as nat, outcomes@, k as nat)[provider_at(
                    k,
                    retry_count as nat,
                )],
                outcomes@[k],
            ),
        r.1@ == breakers_before(health@, retry_count as nat, outcomes@, outcomes@.len()),
        forall|p: int| 0 <= p < r.1@.len() ==> (#[trigger] r.1@[p]).wf(),
{
    let n = outcomes.len();
    let ghost all = outcomes@;
    let ghost h0 = health@;
    let ghost rc = retry_count as nat;
    let mut rest = outcomes;
    let mut reversed: Vec<AttemptOutcome> = Vec::new();
    while rest.len() > 0
        invariant
            rest@.len() + reversed@.len() == n,
            n == all.len(),
            rest@ == all.subrange(0, rest@.len() as int),
            forall|j: int| 0 <= j < reversed@.len() ==> #[trigger] reversed@[j] == all[n - 1 - j],
        decreases rest@.len(),
    {
        let o = rest.pop().unwrap();
        reversed.push(o);
    }
    let np = names.len();
    let ghost nm = names@;
    let mut d = Dispatcher::new(names, health, retry_count);
    let mut k: usize = 0;
    while k < n
        invariant
            d.wf(),
            d.names@ == nm,
            nm.len() == np,
            rc == retry_count as nat,
            d.retry_count == retry_count,
            n == d.tasks@.len(),
            n == all.len(),
            k <= n,
            reversed@.len() == n - k,
            forall|j: int| 0 <= j < reversed@.len() ==> #[trigger] reversed@[j] == all[n - 1 - j],
            forall|j: int| k <= j < n ==> (#[trigger] d.slots@[j]).is_none(),
            d.health@ == breakers_before(h0, rc, all, k as nat),
            forall|j: int|
                0 <= j < k ==> (#[trigger] d.slots@[j]).is_some() && records(
                    d.slots@[j].unwrap(),
                    breakers_before(h0, rc, all, j as nat)[provider_at(j, rc)],
                    all[j],
                ),
        decreases n - k,
    {
        let o = reversed.pop().unwrap();
        assert(o == all[k as int]);
        proof {
            assert(is_plan(d.tasks@, d.names@.len(), d.retry_count as nat));
            lemma_task_position(d.tasks@, d.names@.len(), rc, k as int);
        }
        let ghost prev = d.health@;
        let ghost p = provider_at(k as int, rc);
        if d.begin(k, o.at_ms) {
            d.complete(k, o.result, o.latency_us, o.at_ms);
        }
        proof {
            assert(d.health@ =~= prev.update(p, after_attempt(prev[p], all[k as int])));
        }
        k = k + 1;
    }
    d.finish()
}

proof fn lemma_breakers_len(health: Seq<ServiceHealth>, retries: nat, outcomes: Seq<AttemptOutcome>, k: nat)
    requires
        retries > 0,
        k <= health.len() * retries,
    ensures
        breakers_before(health, retries, outcomes, k).len() == health.len(),
    decreases k,
{
    if k > 0 {
        lemma_breakers_len(health, retries, outcomes, (k - 1) as nat);
        lemma_provider_bound(k - 1, health.len(), retries);
    }
}

proof fn lemma_provider_bound(k: int, providers: nat, retries: nat)
    requires
        retries > 0,
        0 <= k < providers * retries,
    ensures
        0 <= provider_at(k, retries) < providers,
{
    let r = retries as int;
    vstd::arithmetic::div_mod::lemma_fundamental_div_mod(k, r);
    vstd::arithmetic::div_mod::lemma_mod_pos_bound(k, r);
    let q = k / r;
    assert(0 <= q < providers) by (nonlinear_arith)
        requires
            k == r * q + k % r,
            0 <= k % r < r,
            0 <= k < providers * r,
    ;
}

proof fn lemma_provider_at(p: int, a: int, retries: nat)
    requires
        retries > 0,
        0 <= a < retries,
    ensures
        provider_at(p * retries + a, retries) == p,
{
    vstd::arithmetic::div_mod::lemma_fundamental_div_mod_converse(
        p * retries + a,
        retries as int,
        p,
        a,
    );
}

/// Tasks of earlier providers leave provider `p`'s breaker as it started.
proof fn lemma_untouched_before(
    health: Seq<ServiceHealth>,
    retries: nat,
    outcomes: Seq<AttemptOutcome>,
    p: int,
    k: nat,
)
    requires
        retries > 0,
        0 <= p < health.len(),
        k <= p * retries,
    ensures
        breakers_before(health, retries, outcomes, k)[p] == health[p],
    decreases k,
{
    if k > 0 {
        lemma_untouched_before(health, retries, outcomes, p, (k - 1) as nat);
        assert(p * retries <= health.len() * retries) by (nonlinear_arith)
            requires
                p < health.len(),
        ;
        lemma_breakers_len(health, retries, outcomes, (k - 1) as nat);
        lemma_provider_bound(k - 1, p as nat, retries);
    }
}

/// A provider's fourth attempt is refused by its breaker, and so makes no
/// network call, when it starts closed with no failures, its first three
/// attempts of the dispatch fail, and the fourth is checked before the
/// cooldown, counted from the first failure, has run out.
pub proof fn lemma_fourth_attempt_skipped(
    health: Seq<ServiceHealth>,
    retries: nat,
    outcomes: Seq<AttemptOutcome>,
    p: int,
)
    requires
        retries >= 4,
        0 <= p < health.len(),
        health[p].wf(),
        !health[p].circuit_open,
        health[p].consecutive_failures == 0,
        forall|i: int| 0 <= i < 3 ==> (#[trigger] outcomes[p * retries + i]).result is Err,
        outcomes[p * retries].at_ms <= outcomes[p * retries + 1].at_ms,
        outcomes[p * retries + 1].at_ms <= outcomes[p * retries + 2].at_ms,
        outcomes[p * retries + 2].at_ms <= outcomes[p * retries + 3].at_ms,
        (outcomes[p * retries + 3].at_ms as int) < outcomes[p * retries].at_ms as int
            + COOLDOWN_MS as int,
    ensures
        !breakers_before(health, retries, outcomes, (p * retries + 3) as nat)[provider_at(
            p * retries + 3,
            retries,
        )].allows(outcomes[p * retries + 3].at_ms),
{
    let base = p * retries;
    assert(0 <= base) by (nonlinear_arith)
        requires
            base == p * retries,
            0 <= p,
    ;
    assert(base + retries <= health.len() * retries) by (nonlinear_arith)
        requires
            base == p * retries,
            p + 1 <= health.len(),
    ;
    lemma_untouched_before(health, retries, outcomes, p, base as nat);
    lemma_provider_at(p, 0, retries);
    lemma_provider_at(p, 1, retries);
    lemma_provider_at(p, 2, retries);
    lemma_provider_at(p, 3, retries);
    lemma_breakers_len(health, retries, outcomes, base as nat);
    lemma_breakers_len(health, retries, outcomes, (base + 1) as nat);
    lemma_breakers_len(health, retries, outcomes, (base + 2) as nat);
    let o0 = outcomes[base];
    let o1 = outcomes[base + 1];
    let o2 = outcomes[base + 2];
    assert(o0.result is Err);
    assert(outcomes[p * retries + 1].result is Err);
    assert(outcomes[p * retries + 2].result is Err);
    let b0 = breakers_before(health, retries, outcomes, base as nat);
    let b1 = breakers_before(health, retries, outcomes, (base + 1) as nat);
    let b2 = breakers_before(health, retries, outcomes, (base + 2) as nat);
    let b3 = breakers_before(health, retries, outcomes, (base + 3) as nat);
    assert(b1[p] == after_attempt(b0[p], o0));
    assert(b1[p].consecutive_failures == 1 && !b1[p].circuit_open);
    assert(b2[p] == after_attempt(b1[p], o1));
    assert(b2[p].consecutive_failures == 2 && !b2[p].circuit_open);
    assert(b3[p] == after_attempt(b2[p], o2));
    assert(b3[p].circuit_open && b3[p].circuit_opened_at == Some(o2.at_ms));
}

proof fn lemma_all_stay_closed(
    health: Seq<ServiceHealth>,
    retries: nat,
    outcomes: Seq<AttemptOutcome>,
    k: nat,
)
    requires
        retries > 0,
        outcomes.len() == health.len() * retries,
        k <= outcomes.len(),
        forall|q: int| 0 <= q < health.len() ==> !(#[trigger] health[q]).circuit_open,
        forall|j: int| 0 <= j < outcomes.len() ==> (#[trigger] outcomes[j]).result is Ok,
    ensures
        breakers_before(health, retries, outcomes, k).len() == health.len(),
        forall|q: int|
            0 <= q < health.len() ==> !(#[trigger] breakers_before(health, retries, outcomes, k)[q]).circuit_open,
    decreases k,
{
    lemma_breakers_len(health, retries, outcomes, k);
    if k > 0 {
        lemma_all_stay_closed(health, retries, outcomes, (k - 1) as nat);
        lemma_provider_bound(k - 1, health.len(), retries);
        assert(outcomes[k - 1].result is Ok);
    }
}

/// When every breaker starts closed and every submission succeeds, no task
/// of a dispatch in plan order is refused: each one submits.
pub proof fn lemma_all_succeed_all_submit(
    health: Seq<ServiceHealth>,
    retries: nat,
    outcomes: Seq<AttemptOutcome>,
    k: int,
)
    requires
        retries > 0,
        outcomes.len() == health.len() * retries,
        0 <= k < outcomes.len(),
        forall|q: int| 0 <= q < health.len() ==> !(#[trigger] health[q]).circuit_open,
        forall|j: int| 0 <= j < outcomes.len() ==> (#[trigger] outcomes[j]).result is Ok,
    ensures
        breakers_before(health, retries, outcomes, k as nat)[provider_at(k, retries)].allows(
            outcomes[k].at_ms,
        ),
{
    lemma_all_stay_closed(health, retries, outcomes, k as nat);
    lemma_provider_bound(k, health.len(), retries);
}

} // verus!
