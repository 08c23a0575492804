use vstd::prelude::*;

verus! {

/// A fatal harness failure. `TimeoutExceeded` is reported distinctly from
/// `InvariantViolation` so an operator can tell "bridge too slow" from
/// "bridge wrong" without re-running the scenario.
#[derive(Clone, Copy, Debug, PartialEq, Eq, Structural)]
pub enum ScenarioFault {
    /// A deadline elapsed while only transient conditions were observed.
    TimeoutExceeded,
    /// An observed value was present but definitively wrong.
    InvariantViolation,
    /// An action that was required to be rejected succeeded instead.
    ExpectedRejectionViolated,
    /// A preparatory step failed; the scenario never reached its subject.
    SetupFailure,
    /// The bridge was not in the state a scenario demands at its start,
    /// usually left over from an earlier aborted run.
    DirtyStartingState,
}

} // verus!
