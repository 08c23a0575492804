use vstd::prelude::*;
use crate::amount::AssetAmount;
use crate::fault::ScenarioFault;
use crate::poll::{all_transient_until, run_poll, PollOutcome, PollPlan, ProbeResult};

verus! {

/// How one observation of the user's destination balance is classified
/// while the transfer is awaited: a query error or a still-zero balance is
/// transient — the relay may simply not have landed yet; the expected
/// amount is terminal; any other nonzero balance means the bridge converged
/// to the wrong state, which is fatal and never retried.
pub open spec fn classify_arrival(expected: nat, obs: Option<AssetAmount>) -> ProbeResult<
    AssetAmount,
> {
    match obs {
        None => ProbeResult::NotYet,
        Some(b) => if b.value() == expected {
            ProbeResult::Terminal(b)
        } else if b.value() == 0 {
            ProbeResult::NotYet
        } else {
            ProbeResult::Fatal
        },
    }
}

/// Executable arrival classification, equal to `classify_arrival`.
pub fn classify_destination_balance(expected: &AssetAmount, observed: &Option<AssetAmount>) -> (r:
    ProbeResult<AssetAmount>)
    ensures
        r == classify_arrival(expected.value(), *observed),
{
    match observed {
        None => ProbeResult::NotYet,
        Some(b) => {
            proof {
                b.lemma_value_injective(*expected);
            }
            if *b == *expected {
                ProbeResult::Terminal(*b)
            } else if b.is_zero() {
                ProbeResult::NotYet
            } else {
                ProbeResult::Fatal
            }
        },
    }
}

/// Wait for the bridged amount to arrive on the destination chain.
/// `observations` holds one balance query answer per poll tick, `None`
/// standing for a query error. Succeeds only on a balance equal to
/// `expected`; times out when only transient observations fell within the
/// budget of `plan`; aborts with an invariant violation on the first
/// nonzero-but-wrong balance.
pub fn await_arrival(
    expected: &AssetAmount,
    observations: &Vec<Option<AssetAmount>>,
    plan: PollPlan,
) -> (r: Result<AssetAmount, ScenarioFault>)
    requires
        plan.wf(),
    ensures
        match r {
            Ok(b) => {
                &&& b.value() == expected.value()
                &&& exists|i: int|
                    0 <= i < observations@.len() && i < plan.spec_attempts() && classify_arrival(
                        expected.value(),
                        observations@[i],
                    ) == ProbeResult::Terminal(b) && (forall|j: int|
                        0 <= j < i ==> classify_arrival(expected.value(), observations@[j])
                            is NotYet)
            },
            Err(f) => {
                ||| {
                    &&& f == ScenarioFault::TimeoutExceeded
                    &&& forall|i: int|
                        0 <= i < observations@.len() && i < plan.spec_attempts()
                            ==> classify_arrival(expected.value(), observations@[i]) is NotYet
                }
                ||| {
                    &&& f == ScenarioFault::InvariantViolation
                    &&& exists|i: int|
                        0 <= i < observations@.len() && i < plan.spec_attempts()
                            && classify_arrival(expected.value(), observations@[i]) is Fatal && (
                        forall|j: int|
                            0 <= j < i ==> classify_arrival(expected.value(), observations@[j])
                                is NotYet)
                }
            },
        },
{
    let mut trace: Vec<ProbeResult<AssetAmount>> = Vec::new();
    let mut i: usize = 0;
    while i < observations.len()
        invariant
            0 <= i <= observations@.len(),
            trace@.len() == i,
            forall|j: int|
                0 <= j < i ==> trace@[j] == classify_arrival(expected.value(), observations@[j]),
        decreases observations@.len() - i,
    {
        let c = classify_destination_balance(expected, &observations[i]);
        trace.push(c);
        i = i + 1;
    }
    match run_poll(&trace, plan) {
        Ok(PollOutcome::Observed(b)) => {
            proof {
                let i = choose|i: int|
                    0 <= i < trace@.len() && i < plan.spec_attempts() && trace@[i]
                        == ProbeResult::Terminal(b) && all_transient_until(trace@, i);
                assert(classify_arrival(expected.value(), observations@[i])
                    == ProbeResult::Terminal(b));
                assert(b.value() == expected.value());
                assert forall|j: int| 0 <= j < i implies classify_arrival(
                    expected.value(),
                    observations@[j],
                ) is NotYet by {
                    assert(trace@[j] is NotYet);
                }
            }
            Ok(b)
        },
        Ok(PollOutcome::TimeoutExceeded) => {
            proof {
                assert forall|k: int|
                    0 <= k < observations@.len() && k < plan.spec_attempts()
                        implies classify_arrival(expected.value(), observations@[k]) is NotYet by {
                    assert(trace@[k] is NotYet);
                }
            }
            Err(ScenarioFault::TimeoutExceeded)
        },
        Err(f) => {
            proof {
                let i = choose|i: int|
                    0 <= i < trace@.len() && i < plan.spec_attempts() && trace@[i]
                        is Fatal && all_transient_until(trace@, i);
                assert(classify_arrival(expected.value(), observations@[i]) is Fatal);
                assert forall|j: int| 0 <= j < i implies classify_arrival(
                    expected.value(),
                    observations@[j],
                ) is NotYet by {
                    assert(trace@[j] is NotYet);
                }
            }
            Err(f)
        },
    }
}

/// Where the source-to-destination transfer scenario stands. The script is
/// linear: each phase waits for exactly one driver event.
#[derive(Clone, Copy, Debug, PartialEq, Eq, Structural)]
pub enum HappyPathPhase {
    /// Deploy a destination representation of the source asset and wait for
    /// its adoption, validating its metadata.
    DeployingRepresentation,
    /// Fund a fresh user with the asset plus the fee buffer.
    FundingUser,
    /// Confirm the funding is visible on the source chain.
    CheckingFunding,
    /// Best-effort send of native destination-chain currency to the user,
    /// needed only so the user can later query balances.
    SendingNativeFunds,
    /// Submit the cross-chain transfer: lock on source, release on
    /// destination.
    SubmittingTransfer,
    /// Poll the user's destination balance until it equals the bridged
    /// amount.
    AwaitingArrival,
    /// The destination balance matched; the user's remaining source
    /// balance must now equal the fee buffer minus the two fees, exactly —
    /// an equality read, since the source side settled at submission.
    CheckingSourceRemainder { destination_balance: AssetAmount },
    /// Both balance checks passed.
    Complete { destination_balance: AssetAmount },
    Failed { fault: ScenarioFault },
}

/// The outside action the scenario needs next.
#[derive(Clone, Copy, Debug, PartialEq, Eq, Structural)]
pub enum HappyPathAction {
    DeployRepresentationAndAwaitAdoption,
    FundUser { amount: AssetAmount },
    QuerySourceBalance,
    SendNativeDestinationFunds,
    /// Submit the transfer of `amount`, handing `fee` twice beside it: once
    /// as the bridge relay fee and once as the chain transaction fee. The
    /// bridged amount itself carries no fee.
    SubmitTransfer { amount: AssetAmount, fee: AssetAmount },
    PollDestinationBalance { expected: AssetAmount },
}

/// What the driver reports back after performing the requested action.
#[derive(Clone, Copy, Debug)]
pub enum HappyPathEvent {
    /// Outcome of adoption: deployment, the convergence wait on the mapping
    /// query, and the metadata validation, folded into one verdict.
    AdoptionOutcome(Result<(), ScenarioFault>),
    /// Whether the source chain accepted the funding transaction.
    FundingSubmitted(bool),
    /// The user's source-chain balance in the asset's denomination, `None`
    /// when no coin of that denomination was found. At the funding check
    /// this is the outcome of one bounded convergence poll on the source
    /// balance (`await_funding`); at the remainder check it is a single
    /// equality read, the funds having settled at submission.
    SourceBalance(Option<AssetAmount>),
    NativeFundsSent,
    /// Whether the source chain accepted the transfer submission.
    TransferSubmitted(bool),
    /// Outcome of the bounded poll on the destination balance.
    ArrivalOutcome(Result<AssetAmount, ScenarioFault>),
}

/// The transfer scenario: its fixed amounts and its current phase.
pub struct HappyPathScenario {
    /// The amount locked on the source chain and expected to arrive on the
    /// destination chain, exactly and in full.
    pub amount_to_bridge: AssetAmount,
    /// Extra source funds given to the user on top of the bridged amount, to
    /// cover fees.
    pub fee_buffer: AssetAmount,
    /// The fee coin handed twice with the transfer submission: the bridge
    /// relay fee and the chain transaction fee.
    pub transfer_fee: AssetAmount,
    /// `amount_to_bridge + fee_buffer`, the amount the user is funded with.
    pub funding_amount: AssetAmount,
    /// `fee_buffer - 2 * transfer_fee`, the source balance owed to the user
    /// after the transfer settles.
    pub expected_remainder: AssetAmount,
    pub phase: HappyPathPhase,
}

/// How the scenario moves on one driver event, phrased over mathematical
/// amount values. An event that does not answer the current phase's action
/// leaves the phase unchanged; spelled-out amounts in events are the values
/// of the corresponding `AssetAmount`s.
pub open spec fn happy_path_step(
    amount_to_bridge: nat,
    expected_remainder: nat,
    phase: HappyPathPhase,
    event: HappyPathEvent,
) -> HappyPathPhase {
    match (phase, event) {
        (HappyPathPhase::DeployingRepresentation, HappyPathEvent::AdoptionOutcome(out)) => {
            match out {
                Ok(_) => HappyPathPhase::FundingUser,
                Err(f) => HappyPathPhase::Failed { fault: f },
            }
        },
        (HappyPathPhase::FundingUser, HappyPathEvent::FundingSubmitted(ok)) => if ok {
            HappyPathPhase::CheckingFunding
        } else {
            HappyPathPhase::Failed { fault: ScenarioFault::SetupFailure }
        },
        (HappyPathPhase::CheckingFunding, HappyPathEvent::SourceBalance(bal)) => match bal {
            Some(_) => HappyPathPhase::SendingNativeFunds,
            None => HappyPathPhase::Failed { fault: ScenarioFault::SetupFailure },
        },
        (HappyPathPhase::SendingNativeFunds, HappyPathEvent::NativeFundsSent) => {
            HappyPathPhase::SubmittingTransfer
        },
        (HappyPathPhase::SubmittingTransfer, HappyPathEvent::TransferSubmitted(ok)) => if ok {
            HappyPathPhase::AwaitingArrival
        } else {
            HappyPathPhase::Failed { fault: ScenarioFault::SetupFailure }
        },
        (HappyPathPhase::AwaitingArrival, HappyPathEvent::ArrivalOutcome(out)) => match out {
            Ok(b) => if b.value() == amount_to_bridge {
                HappyPathPhase::CheckingSourceRemainder { destination_balance: b }
            } else {
                HappyPathPhase::Failed { fault: ScenarioFault::InvariantViolation }
            },
            Err(f) => HappyPathPhase::Failed { fault: f },
        },
        (
            HappyPathPhase::CheckingSourceRemainder { destination_balance },
            HappyPathEvent::SourceBalance(bal),
        ) => match bal {
            Some(rem) => if rem.value() == expected_remainder {
                HappyPathPhase::Complete { destination_balance }
            } else {
                HappyPathPhase::Failed { fault: ScenarioFault::InvariantViolation }
            },
            None => HappyPathPhase::Failed { fault: ScenarioFault::InvariantViolation },
        },
        _ => phase,
    }
}

impl HappyPathScenario {
    /// Once the arrival check has passed, the destination balance the
    /// phase carries equals the bridged amount.
    pub open spec fn wf(self) -> bool {
        match self.phase {
            HappyPathPhase::CheckingSourceRemainder { destination_balance } => {
                destination_balance.value() == self.amount_to_bridge.value()
            },
            HappyPathPhase::Complete { destination_balance } => destination_balance.value()
                == self.amount_to_bridge.value(),
            _ => true,
        }
    }

    /// Set up the scenario for a bridged amount, a fee buffer and a
    /// per-coin transfer fee. Fails only when the funding amount would not
    /// be representable or the buffer cannot cover the two fees.
    pub fn new(
        amount_to_bridge: AssetAmount,
        fee_buffer: AssetAmount,
        transfer_fee: AssetAmount,
    ) -> (r: Result<HappyPathScenario, ScenarioFault>)
        ensures
            match r {
                Ok(s) => {
                    &&& s.amount_to_bridge == amount_to_bridge
                    &&& s.fee_buffer == fee_buffer
                    &&& s.transfer_fee == transfer_fee
                    &&& s.funding_amount.value() == amount_to_bridge.value() + fee_buffer.value()
                    &&& s.expected_remainder.value() == fee_buffer.value() - 2
                        * transfer_fee.value()
                    &&& fee_buffer.value() >= 2 * transfer_fee.value()
                    &&& s.phase == HappyPathPhase::DeployingRepresentation
                    &&& s.wf()
                },
                Err(f) => {
                    &&& f == ScenarioFault::SetupFailure
                    &&& (amount_to_bridge.value() + fee_buffer.value()
                        >= crate::amount::amount_bound() || fee_buffer.value() < 2
                        * transfer_fee.value())
                },
            },
    {
        let funding_amount = match amount_to_bridge.checked_add(&fee_buffer) {
            Some(t) => t,
            None => {
                return Err(ScenarioFault::SetupFailure);
            },
        };
        let after_one_fee = match fee_buffer.checked_sub(&transfer_fee) {
            Some(t) => t,
            None => {
                return Err(ScenarioFault::SetupFailure);
            },
        };
        let expected_remainder = match after_one_fee.checked_sub(&transfer_fee) {
            Some(t) => t,
            None => {
                return Err(ScenarioFault::SetupFailure);
            },
        };
        Ok(
            HappyPathScenario {
                amount_to_bridge,
                fee_buffer,
                transfer_fee,
                funding_amount,
                expected_remainder,
                phase: HappyPathPhase::DeployingRepresentation,
            },
        )
    }

    /// The outside action the scenario needs next, or `None` once it has
    /// concluded.
    pub fn next_action(&self) -> (r: Option<HappyPathAction>)
        ensures
            match self.phase {
                HappyPathPhase::DeployingRepresentation => r == Some(
                    HappyPathAction::DeployRepresentationAndAwaitAdoption,
                ),
                HappyPathPhase::FundingUser => r == Some(
                    HappyPathAction::FundUser { amount: self.funding_amount },
                ),
                HappyPathPhase::CheckingFunding => r == Some(HappyPathAction::QuerySourceBalance),
                HappyPathPhase::SendingNativeFunds => r == Some(
                    HappyPathAction::SendNativeDestinationFunds,
                ),
                HappyPathPhase::SubmittingTransfer => r == Some(
                    HappyPathAction::SubmitTransfer {
                        amount: self.amount_to_bridge,
                        fee: self.transfer_fee,
                    },
                ),
                HappyPathPhase::AwaitingArrival => r == Some(
                    HappyPathAction::PollDestinationBalance { expected: self.amount_to_bridge },
                ),
                HappyPathPhase::CheckingSourceRemainder { .. } => r == Some(
                    HappyPathAction::QuerySourceBalance,
                ),
                HappyPathPhase::Complete { .. } => r is None,
                HappyPathPhase::Failed { .. } => r is None,
            },
    {
        match self.phase {
            HappyPathPhase::DeployingRepresentation => Some(
                HappyPathAction::DeployRepresentationAndAwaitAdoption,
            ),
            HappyPathPhase::FundingUser => Some(
                HappyPathAction::FundUser { amount: self.funding_amount },
            ),
            HappyPathPhase::CheckingFunding => Some(HappyPathAction::QuerySourceBalance),
            HappyPathPhase::SendingNativeFunds => Some(HappyPathAction::SendNativeDestinationFunds),
            HappyPathPhase::SubmittingTransfer => Some(
                HappyPathAction::SubmitTransfer {
                    amount: self.amount_to_bridge,
                    fee: self.transfer_fee,
                },
            ),
            HappyPathPhase::AwaitingArrival => Some(
                HappyPathAction::PollDestinationBalance { expected: self.amount_to_bridge },
            ),
            HappyPathPhase::CheckingSourceRemainder { .. } => Some(
                HappyPathAction::QuerySourceBalance,
            ),
            HappyPathPhase::Complete { .. } => None,
            HappyPathPhase::Failed { .. } => None,
        }
    }

    /// Advance the scenario on one driver event.
    pub fn apply_event(&mut self, event: HappyPathEvent)
        ensures
            final(self).amount_to_bridge == old(self).amount_to_bridge,
            final(self).fee_buffer == old(self).fee_buffer,
            final(self).transfer_fee == old(self).transfer_fee,
            final(self).funding_amount == old(self).funding_amount,
            final(self).expected_remainder == old(self).expected_remainder,
            final(self).phase == happy_path_step(
                old(self).amount_to_bridge.value(),
                old(self).expected_remainder.value(),
                old(self).phase,
                event,
            ),
            old(self).wf() ==> final(self).wf(),
    {
        let next = match (self.phase, event) {
            (HappyPathPhase::DeployingRepresentation, HappyPathEvent::AdoptionOutcome(out)) => {
                match out {
                    Ok(_) => HappyPathPhase::FundingUser,
                    Err(f) => HappyPathPhase::Failed { fault: f },
                }
            },
            (HappyPathPhase::FundingUser, HappyPathEvent::FundingSubmitted(ok)) => if ok {
                HappyPathPhase::CheckingFunding
            } else {
                HappyPathPhase::Failed { fault: ScenarioFault::SetupFailure }
            },
            (HappyPathPhase::CheckingFunding, HappyPathEvent::SourceBalance(bal)) => match bal {
                Some(_) => HappyPathPhase::SendingNativeFunds,
                None => HappyPathPhase::Failed { fault: ScenarioFault::SetupFailure },
            },
            (HappyPathPhase::SendingNativeFunds, HappyPathEvent::NativeFundsSent) => {
                HappyPathPhase::SubmittingTransfer
            },
            (HappyPathPhase::SubmittingTransfer, HappyPathEvent::TransferSubmitted(ok)) => if ok {
                HappyPathPhase::AwaitingArrival
            } else {
                HappyPathPhase::Failed { fault: ScenarioFault::SetupFailure }
            },
            (HappyPathPhase::AwaitingArrival, HappyPathEvent::ArrivalOutcome(out)) => match out {
                Ok(b) => {
                    proof {
                        b.lemma_value_injective(self.amount_to_bridge);
                    }
                    if b == self.amount_to_bridge {
                        HappyPathPhase::CheckingSourceRemainder { destination_balance: b }
                    } else {
                        HappyPathPhase::Failed { fault: ScenarioFault::InvariantViolation }
                    }
                },
                Err(f) => HappyPathPhase::Failed { fault: f },
            },
            (
                HappyPathPhase::CheckingSourceRemainder { destination_balance },
                HappyPathEvent::SourceBalance(bal),
            ) => match bal {
                Some(rem) => {
                    proof {
                        rem.lemma_value_injective(self.expected_remainder);
                    }
                    if rem == self.expected_remainder {
                        HappyPathPhase::Complete { destination_balance }
                    } else {
                        HappyPathPhase::Failed { fault: ScenarioFault::InvariantViolation }
                    }
                },
                None => HappyPathPhase::Failed { fault: ScenarioFault::InvariantViolation },
            },
            (p, _) => p,
        };
        self.phase = next;
    }
}

/// No rounding and no fee leakage into the bridged amount: in any
/// well-formed scenario that has completed, the destination balance
/// observed at arrival equals the bridged amount exactly, whatever the
/// amount, the buffer and the fee were.
pub proof fn lemma_happy_path_success_is_exact(
    s: HappyPathScenario,
    destination_balance: AssetAmount,
)
    requires
        s.wf(),
        s.phase == (HappyPathPhase::Complete { destination_balance }),
    ensures
        destination_balance.value() == s.amount_to_bridge.value(),
{
}

/// The arrival check passes only on the exact bridged amount: a step moves
/// into the source-remainder check only when the observed destination
/// balance equals it.
pub proof fn lemma_happy_path_arrival_is_exact(
    amount_to_bridge: nat,
    expected_remainder: nat,
    phase: HappyPathPhase,
    event: HappyPathEvent,
    destination_balance: AssetAmount,
)
    requires
        !(phase is CheckingSourceRemainder),
        happy_path_step(amount_to_bridge, expected_remainder, phase, event)
            == (HappyPathPhase::CheckingSourceRemainder { destination_balance }),
    ensures
        destination_balance.value() == amount_to_bridge,
        phase is AwaitingArrival,
        event == HappyPathEvent::ArrivalOutcome(Ok(destination_balance)),
{
}

/// The scenario completes only when the user's remaining source balance
/// equals the configured remainder — the fee buffer minus the two fees —
/// exactly.
pub proof fn lemma_happy_path_source_remainder(
    amount_to_bridge: nat,
    expected_remainder: nat,
    phase: HappyPathPhase,
    event: HappyPathEvent,
)
    requires
        !(phase is Complete),
        happy_path_step(amount_to_bridge, expected_remainder, phase, event) is Complete,
    ensures
        phase is CheckingSourceRemainder,
        event matches HappyPathEvent::SourceBalance(Some(rem)) && rem.value()
            == expected_remainder,
{
}

/// One bounded convergence poll on the user's source-chain balance after
/// the funding send: `reads` holds one answer of the balance query per
/// poll tick, `None` while no coin of the asset's denomination is visible
/// yet. Returns the first balance seen within the budget of `plan`, or
/// `None` when the funding never became visible; the `SourceBalance` event
/// of the funding check is the outcome of this wait.
pub fn await_funding(reads: &Vec<Option<AssetAmount>>, plan: PollPlan) -> (r: Option<AssetAmount>)
    requires
        plan.wf(),
    ensures
        match r {
            Some(b) => exists|i: int|
                0 <= i < reads@.len() && i < plan.spec_attempts() && reads@[i] == Some(b) && (
                forall|j: int| 0 <= j < i ==> reads@[j] is None),
            None => forall|i: int|
                0 <= i < reads@.len() && i < plan.spec_attempts() ==> reads@[i] is None,
        },
{
    crate::poll::await_first_found(reads, plan)
}

} // verus!
