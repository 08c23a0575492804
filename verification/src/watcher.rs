use vstd::prelude::*;
use crate::poll::{all_transient_until, run_poll, PollOutcome, PollPlan, ProbeResult};

verus! {

/// Classify one reading of a progress counter against the baseline taken
/// just before the triggering action. Any change is progress: the relay's
/// post-action value cannot be predicted, so inequality, not a target value,
/// is the completion signal. An unchanged counter is a transient condition,
/// never a fatal one.
pub fn classify_counter_reading(baseline: u64, current: u64) -> (r: ProbeResult<u64>)
    ensures
        current != baseline ==> r == ProbeResult::Terminal(current),
        current == baseline ==> r == ProbeResult::<u64>::NotYet,
{
    if current != baseline {
        ProbeResult::Terminal(current)
    } else {
        ProbeResult::NotYet
    }
}

/// Everything the watcher promises of its verdict `r`, over the baseline,
/// the counter readings (reading `i` made at time `i * interval`), and the
/// schedule: success is exactly the first in-budget reading that differs
/// from the baseline; a timeout means every in-budget reading was unchanged.
pub open spec fn watch_post(
    baseline: u64,
    readings: Seq<u64>,
    plan: PollPlan,
    r: PollOutcome<u64>,
) -> bool {
    match r {
        PollOutcome::Observed(c) => {
            &&& c != baseline
            &&& exists|i: int|
                0 <= i < readings.len() && i < plan.spec_attempts() && readings[i] == c
                    && (forall|j: int| 0 <= j < i ==> readings[j] == baseline)
        },
        PollOutcome::TimeoutExceeded => forall|i: int|
            0 <= i < readings.len() && i < plan.spec_attempts() ==> readings[i] == baseline,
    }
}

/// Watch a progress counter for a change away from `baseline`, one reading
/// per poll tick, within the attempt budget of `plan`.
pub fn watch_counter(baseline: u64, readings: &Vec<u64>, plan: PollPlan) -> (r: PollOutcome<u64>)
    requires
        plan.wf(),
    ensures
        watch_post(baseline, readings@, plan, r),
{
    let mut trace: Vec<ProbeResult<u64>> = Vec::new();
    let mut i: usize = 0;
    while i < readings.len()
        invariant
            0 <= i <= readings@.len(),
            trace@.len() == i,
            forall|j: int|
                0 <= j < i ==> trace@[j] == (if readings@[j] == baseline {
                    ProbeResult::<u64>::NotYet
                } else {
                    ProbeResult::Terminal(readings@[j])
                }),
        decreases readings@.len() - i,
    {
        let c = classify_counter_reading(baseline, readings[i]);
        trace.push(c);
        i = i + 1;
    }
    match run_poll(&trace, plan) {
        Ok(PollOutcome::Observed(c)) => PollOutcome::Observed(c),
        Ok(PollOutcome::TimeoutExceeded) => PollOutcome::TimeoutExceeded,
        Err(_) => {
            // a counter reading is never classified as fatal
            proof {
                let i = choose|i: int|
                    0 <= i < trace@.len() && i < plan.spec_attempts() && trace@[i] is Fatal
                        && all_transient_until(trace@, i);
                assert(trace@[i] is Fatal);
            }
            PollOutcome::TimeoutExceeded
        },
    }
}

/// The watcher never reports success while the counter value is unchanged
/// from the baseline: when every reading equals the baseline — even readings
/// made past the deadline — the verdict is a timeout, not a false success.
pub proof fn lemma_watcher_never_false_success(
    baseline: u64,
    readings: Seq<u64>,
    plan: PollPlan,
    r: PollOutcome<u64>,
)
    requires
        watch_post(baseline, readings, plan, r),
        forall|i: int| 0 <= i < readings.len() ==> readings[i] == baseline,
    ensures
        r is TimeoutExceeded,
{
}

/// The watcher reports success on the first in-budget reading that differs
/// from the baseline, whatever the direction of the change, and the observed
/// value is exactly that reading.
pub proof fn lemma_watcher_detects_first_change(
    baseline: u64,
    readings: Seq<u64>,
    plan: PollPlan,
    r: PollOutcome<u64>,
    i: int,
)
    requires
        watch_post(baseline, readings, plan, r),
        0 <= i < readings.len(),
        i < plan.spec_attempts(),
        readings[i] != baseline,
        forall|j: int| 0 <= j < i ==> readings[j] == baseline,
    ensures
        r == PollOutcome::Observed(readings[i]),
{
    match r {
        PollOutcome::Observed(c) => {
            let k = choose|k: int|
                0 <= k < readings.len() && k < plan.spec_attempts() && readings[k] == c
                    && (forall|j: int| 0 <= j < k ==> readings[j] == baseline);
            if k < i {
                assert(readings[k] == baseline);
            }
            if i < k {
                assert(readings[i] == baseline);
            }
            assert(k == i);
        },
        PollOutcome::TimeoutExceeded => {
            assert(readings[i] == baseline);
        },
    }
}

} // verus!
