//! Per-provider circuit breaker.
//!
//! A provider's breaker is closed while requests may go out, and opens after
//! a run of consecutive failures. An open breaker closes by itself once the
//! cooldown has elapsed since the moment it opened; that check happens lazily,
//! the next time a caller asks whether to attempt a request.
use vstd::prelude::*;

verus! {

/// Consecutive failures after which the breaker opens.
pub const FAILURE_THRESHOLD: u32 = 3;

/// Time in milliseconds for which an open breaker stays open.
pub const COOLDOWN_MS: u64 = 30_000;

/// Health of one provider, with timestamps in milliseconds.
#[derive(Debug, Clone, Copy)]
pub struct ServiceHealth {
    pub consecutive_failures: u32,
    pub last_failure: Option<u64>,
    pub circuit_open: bool,
    pub circuit_opened_at: Option<u64>,
}

impl ServiceHealth {
    /// An open breaker has seen at least the threshold of failures and knows
    /// when it opened; a closed one has seen fewer.
    pub open spec fn wf(self) -> bool {
        &&& self.circuit_open ==> self.consecutive_failures >= FAILURE_THRESHOLD
            && self.circuit_opened_at.is_some()
        &&& !self.circuit_open ==> self.consecutive_failures < FAILURE_THRESHOLD
    }

    /// Whether the cooldown of an open breaker has run out at `now`.
    pub open spec fn cooldown_elapsed(self, now: u64) -> bool {
        match self.circuit_opened_at {
            Some(t) => now as int >= t as int + COOLDOWN_MS as int,
            None => true,
        }
    }

    /// The state after one failed submission at `now`.
    pub open spec fn after_failure(self, now: u64) -> ServiceHealth {
        let n = if self.consecutive_failures == u32::MAX {
            u32::MAX
        } else {
            (self.consecutive_failures + 1) as u32
        };
        let opens = !self.circuit_open && n >= FAILURE_THRESHOLD;
        ServiceHealth {
            consecutive_failures: n,
            last_failure: Some(now),
            circuit_open: self.circuit_open || opens,
            circuit_opened_at: if opens { Some(now) } else { self.circuit_opened_at },
        }
    }

    /// The state after one successful submission.
    pub open spec fn after_success(self) -> ServiceHealth {
        ServiceHealth {
            consecutive_failures: 0,
            last_failure: self.last_failure,
            circuit_open: false,
            circuit_opened_at: None,
        }
    }

    /// Whether a request may go out at `now`.
    pub open spec fn allows(self, now: u64) -> bool {
        !self.circuit_open || self.cooldown_elapsed(now)
    }

    /// The state after asking, at `now`, whether a request may go out.
    pub open spec fn after_check(self, now: u64) -> ServiceHealth {
        if self.circuit_open && self.cooldown_elapsed(now) {
            ServiceHealth {
                consecutive_failures: 0,
                last_failure: self.last_failure,
                circuit_open: false,
                circuit_opened_at: None,
            }
        } else {
            self
        }
    }

    /// A closed breaker with no failures seen.
    pub fn new() -> (r: ServiceHealth)
        ensures
            r.wf(),
            r.consecutive_failures == 0,
            !r.circuit_open,
            r.last_failure.is_none(),
            r.circuit_opened_at.is_none(),
    {
        ServiceHealth {
            consecutive_failures: 0,
            last_failure: None,
            circuit_open: false,
            circuit_opened_at: None,
        }
    }

    /// Records a failed submission at `now`; the breaker opens when the run
    /// of failures reaches the threshold.
    pub fn record_failure(&mut self, now: u64)
        requires
            old(self).wf(),
        ensures
            *final(self) == old(self).after_failure(now),
            final(self).wf(),
    {
        if self.consecutive_failures < u32::MAX {
            self.consecutive_failures = self.consecutive_failures + 1;
        }
        self.last_failure = Some(now);
        if !self.circuit_open && self.consecutive_failures >= FAILURE_THRESHOLD {
            self.circuit_open = true;
            self.circuit_opened_at = Some(now);
        }
    }

    /// Records a successful submission: the run of failures is over and the
    /// breaker is closed.
    pub fn record_success(&mut self)
        requires
            old(self).wf(),
        ensures
            *final(self) == old(self).after_success(),
            final(self).wf(),
    {
        self.consecutive_failures = 0;
        self.circuit_open = false;
        self.circuit_opened_at = None;
    }

    /// Whether a request may be attempted at `now`. An open breaker whose
    /// cooldown has run out is closed here, with its failure count reset.
    pub fn should_attempt_request(&mut self, now: u64) -> (r: bool)
        requires
            old(self).wf(),
        ensures
            r == old(self).allows(now),
            *final(self) == old(self).after_check(now),
            final(self).wf(),
    {
        if !self.circuit_open {
            return true;
        }
        let elapsed = match self.circuit_opened_at {
            Some(t) => now >= t && now - t >= COOLDOWN_MS,
            None => true,
        };
        if elapsed {
            self.consecutive_failures = 0;
            self.circuit_open = false;
            self.circuit_opened_at = None;
            true
        } else {
            false
        }
    }
}

/// Three consecutive failures leave the breaker refusing requests: a check at
/// any time from the last failure until the cooldown, counted from the first
/// of the three, has run out returns false. This holds from every state but
/// one whose breaker was already open and whose cooldown has run out by then.
pub proof fn lemma_three_failures_refuse(h: ServiceHealth, t1: u64, t2: u64, t3: u64, now: u64)
    requires
        h.wf(),
        t1 <= t2 <= t3 <= now,
        (now as int) < t1 as int + COOLDOWN_MS as int,
        h.circuit_open ==> !h.cooldown_elapsed(now),
    ensures
        !h.after_failure(t1).after_failure(t2).after_failure(t3).allows(now),
        h.after_failure(t1).after_failure(t2).after_failure(t3).circuit_open,
{
}

/// A single success resets the run of failures to zero, from any state, and
/// the next check allows the request.
pub proof fn lemma_success_resets(h: ServiceHealth, now: u64)
    requires
        h.wf(),
    ensures
        h.after_success().consecutive_failures == 0,
        h.after_success().allows(now),
        h.after_success().wf(),
{
}

/// Once a failure at `t` opens the breaker, a check at `now` allows the
/// request exactly when the cooldown counted from `t` has elapsed.
pub proof fn lemma_cooldown(h: ServiceHealth, t: u64, now: u64)
    requires
        h.wf(),
        !h.circuit_open,
        h.after_failure(t).circuit_open,
    ensures
        h.after_failure(t).allows(now) <==> now as int >= t as int + COOLDOWN_MS as int,
        h.after_failure(t).allows(now) ==> !h.after_failure(t).after_check(now).circuit_open,
{
}

} // verus!
