use vstd::prelude::*;
use crate::fault::ScenarioFault;

verus! {

/// What one probe attempt reported. `NotYet` covers every benign, transient
/// condition (resource not visible yet, connection hiccup) and is retried;
/// `Terminal` ends the wait with a value; `Fatal` is a state that is present
/// but definitively wrong, which must never be retried.
#[derive(Clone, Copy, Debug, PartialEq, Eq, Structural)]
pub enum ProbeResult<T> {
    NotYet,
    Terminal(T),
    Fatal,
}

/// Outcome of one bounded convergence wait: either a terminal value observed
/// before the deadline, or a timeout signal.
#[derive(Clone, Copy, Debug, PartialEq, Eq, Structural)]
pub enum PollOutcome<T> {
    Observed(T),
    TimeoutExceeded,
}

impl<T> PollOutcome<T> {
    /// True when the wait ended with an observed terminal value.
    pub fn is_observed(&self) -> (r: bool)
        ensures
            r == (self is Observed),
    {
        match self {
            PollOutcome::Observed(_) => true,
            PollOutcome::TimeoutExceeded => false,
        }
    }
}

/// A bounded-retry schedule: probe once immediately, then once per `interval`
/// until the next attempt would fall past `deadline`. Both are in the same
/// time unit; the unit itself is the caller's business.
#[derive(Clone, Copy, Debug, PartialEq, Eq, Structural)]
pub struct PollPlan {
    pub deadline: u64,
    pub interval: u64,
}

impl PollPlan {
    /// A plan is well formed when its interval is positive — a zero interval
    /// would poll forever without consuming the deadline — and its deadline
    /// leaves room for the attempt count to be represented.
    pub open spec fn wf(self) -> bool {
        self.interval >= 1 && self.deadline < 0xffff_ffff_ffff_ffff_u64
    }

    /// How many probe attempts the plan admits: one at time zero, then one
    /// every `interval` while the attempt time is still within `deadline`.
    pub open spec fn spec_attempts(self) -> nat
        recommends
            self.wf(),
    {
        (self.deadline / self.interval + 1) as nat
    }

    /// Executable attempt budget, equal to the specification-level one.
    pub fn attempts(&self) -> (n: u64)
        requires
            self.wf(),
        ensures
            n == self.spec_attempts(),
    {
        assert(self.deadline / self.interval <= self.deadline) by (nonlinear_arith)
            requires
                self.interval >= 1,
        ;
        self.deadline / self.interval + 1
    }
}

/// Every probe attempt strictly before `k` reported a transient condition.
pub open spec fn all_transient_until<T>(trace: Seq<ProbeResult<T>>, k: int) -> bool {
    forall|j: int| 0 <= j < k ==> trace[j] is NotYet
}

/// Run one bounded convergence wait over the probe reports in `trace`,
/// attempt `i` standing for the probe made at time `i * interval`. Reports
/// past the deadline are never examined: a wait that saw only transient
/// conditions within its budget times out even if a later report would have
/// been terminal. A `Fatal` report aborts immediately with an invariant
/// violation; it is never swallowed by a retry.
pub fn run_poll<T: Copy>(trace: &Vec<ProbeResult<T>>, plan: PollPlan) -> (r: Result<
    PollOutcome<T>,
    ScenarioFault,
>)
    requires
        plan.wf(),
    ensures
        match r {
            Ok(PollOutcome::Observed(v)) => exists|i: int|
                0 <= i < trace@.len() && i < plan.spec_attempts() && trace@[i]
                    == ProbeResult::Terminal(v) && all_transient_until(trace@, i),
            Ok(PollOutcome::TimeoutExceeded) => forall|i: int|
                0 <= i < trace@.len() && i < plan.spec_attempts() ==> trace@[i] is NotYet,
            Err(f) => {
                &&& f == ScenarioFault::InvariantViolation
                &&& exists|i: int|
                    0 <= i < trace@.len() && i < plan.spec_attempts() && trace@[i]
                        is Fatal && all_transient_until(trace@, i)
            },
        },
{
    let budget = plan.attempts();
    let mut i: usize = 0;
    loop
        invariant
            0 <= i <= trace@.len(),
            i <= budget,
            budget == plan.spec_attempts(),
            all_transient_until(trace@, i as int),
        decreases trace@.len() - i,
    {
        if i >= trace.len() || (i as u64) >= budget {
            return Ok(PollOutcome::TimeoutExceeded);
        }
        match trace[i] {
            ProbeResult::NotYet => {
                i = i + 1;
            },
            ProbeResult::Terminal(v) => {
                return Ok(PollOutcome::Observed(v));
            },
            ProbeResult::Fatal => {
                return Err(ScenarioFault::InvariantViolation);
            },
        }
    }
}

/// Wait for a query that may answer "not found" to produce its first value:
/// the shared shape of the adoption wait and the funding-visibility check.
/// `queries` holds one answer per poll tick; a missing answer is a
/// transient condition, never a fatal one. Returns the first value seen
/// within the budget of `plan`, or `None` when every in-budget answer was
/// "not found".
pub fn await_first_found<H: Copy>(queries: &Vec<Option<H>>, plan: PollPlan) -> (r: Option<H>)
    requires
        plan.wf(),
    ensures
        match r {
            Some(h) => exists|i: int|
                0 <= i < queries@.len() && i < plan.spec_attempts() && queries@[i] == Some(h) && (
                forall|j: int| 0 <= j < i ==> queries@[j] is None),
            None => forall|i: int|
                0 <= i < queries@.len() && i < plan.spec_attempts() ==> queries@[i] is None,
        },
{
    let mut trace: Vec<ProbeResult<H>> = Vec::new();
    let mut i: usize = 0;
    while i < queries.len()
        invariant
            0 <= i <= queries@.len(),
            trace@.len() == i,
            forall|j: int|
                0 <= j < i ==> trace@[j] == (match queries@[j] {
                    Some(h) => ProbeResult::Terminal(h),
                    None => ProbeResult::<H>::NotYet,
                }),
        decreases queries@.len() - i,
    {
        let c = match queries[i] {
            Some(h) => ProbeResult::Terminal(h),
            None => ProbeResult::NotYet,
        };
        trace.push(c);
        i = i + 1;
    }
    match run_poll(&trace, plan) {
        Ok(PollOutcome::Observed(h)) => {
            proof {
                let i = choose|i: int|
                    0 <= i < trace@.len() && i < plan.spec_attempts() && trace@[i]
                        == ProbeResult::Terminal(h) && all_transient_until(trace@, i);
                assert(queries@[i] == Some(h));
                assert forall|j: int| 0 <= j < i implies queries@[j] is None by {
                    assert(trace@[j] is NotYet);
                }
                assert(exists|k: int|
                    0 <= k < queries@.len() && k < plan.spec_attempts() && queries@[k] == Some(h)
                        && (forall|j: int| 0 <= j < k ==> queries@[j] is None));
            }
            Some(h)
        },
        Ok(PollOutcome::TimeoutExceeded) => {
            proof {
                assert forall|k: int|
                    0 <= k < queries@.len() && k < plan.spec_attempts() implies queries@[k]
                        is None by {
                    assert(trace@[k] is NotYet);
                }
            }
            None
        },
        Err(_) => {
            // a "not found" answer is never classified as fatal
            proof {
                let i = choose|i: int|
                    0 <= i < trace@.len() && i < plan.spec_attempts() && trace@[i]
                        is Fatal && all_transient_until(trace@, i);
                assert(trace@[i] is Fatal);
                assert(false);
            }
            None
        },
    }
}

} // verus!
