use vstd::prelude::*;
use crate::amount::AssetAmount;
use crate::fault::ScenarioFault;
use crate::poll::PollOutcome;

verus! {

/// Where the pause/resume scenario stands. The script follows the bridge
/// emergency drill: one deposit must clear, the bridge is paused through
/// governance, deposits and batch requests must then be rejected, and after
/// resuming both the queued withdrawal and the paused deposit must settle.
#[derive(Clone, Copy, Debug, PartialEq, Eq, Structural)]
pub enum PauseBridgePhase {
    /// The bridge-active flag must be true at the start; anything else is
    /// dirty state from an earlier aborted run.
    CheckingPrecondition,
    /// Start relayer agents with opportunistic batch creation disabled, so
    /// batch formation stays scenario-driven.
    StartingAgents,
    /// One full deposit that must succeed before the pause.
    DepositingBeforePause,
    /// Flip bridge-active to false through governance.
    Pausing,
    /// A deposit attempted now must fail or time out.
    AttemptingDepositWhilePaused,
    /// Read the user's source balance: the base of the withdrawal.
    QueryingBalanceWhilePaused,
    /// Queue the withdrawal; queueing is allowed even while paused.
    SubmittingWithdrawal { withdrawal_amount: AssetAmount },
    /// A batch request made now must be rejected by the chain.
    RequestingBatchWhilePaused,
    /// The destination balance must still be zero: nothing crossed.
    CheckingDestinationUnchanged,
    /// Flip bridge-active back to true through governance.
    Resuming,
    /// The source balance must now equal the expected remainder exactly —
    /// an equality, not a convergence wait, since funds have settled.
    CheckingFinalBalance,
    /// Read the destination batch nonce as the progress baseline.
    ReadingBatchNonce,
    /// The batch request must now succeed.
    RequestingBatchAfterResume { baseline: u64 },
    /// Watch the batch nonce until it moves off the baseline.
    AwaitingBatchExecution { baseline: u64 },
    Complete,
    Failed { fault: ScenarioFault },
}

/// The outside action the scenario needs next.
#[derive(Clone, Copy, Debug, PartialEq, Eq, Structural)]
pub enum PauseBridgeAction {
    ReadBridgeActiveFlag,
    StartAgentsWithoutBatchRequests,
    /// Deposit this amount from source to destination and wait for it to
    /// clear, within the overall scenario deadline.
    Deposit { amount: AssetAmount },
    /// Run the governance pause controller toward this flag value.
    RunPauseController { make_active: bool },
    /// Attempt the same deposit under a short deadline, expecting failure.
    AttemptDeposit { amount: AssetAmount },
    QuerySourceBalance,
    SubmitWithdrawal { amount: AssetAmount, fee: AssetAmount },
    RequestBatch,
    QueryDestinationBalance,
    ReadBatchNonce,
    WatchBatchNonce { baseline: u64 },
}

/// What the driver reports back after performing the requested action.
#[derive(Clone, Copy, Debug)]
pub enum PauseBridgeEvent {
    BridgeActiveFlag(bool),
    AgentsStarted,
    /// Whether a deposit cleared: submission accepted and funds observed on
    /// the destination side before its deadline.
    DepositOutcome(bool),
    /// Whether the governance controller concluded with the flag equal to
    /// the requested value.
    GovernanceConcluded(bool),
    /// A source balance in the bridged denomination, `None` when no such
    /// coin was found.
    SourceBalance(Option<AssetAmount>),
    WithdrawalSubmitted(bool),
    /// Whether the chain accepted a batch request.
    BatchRequestOutcome(bool),
    DestinationBalance(Option<AssetAmount>),
    BatchNonceBaseline(u64),
    BatchWatchOutcome(PollOutcome<u64>),
}

/// The pause/resume scenario: its fixed amounts and its current phase.
pub struct PauseBridgeScenario {
    /// The amount of each of the two deposits.
    pub deposit_amount: AssetAmount,
    /// How much of the queried balance is left behind by the withdrawal.
    pub withdrawal_margin: AssetAmount,
    /// The fee coin handed twice with the withdrawal submission: once as
    /// the bridge relay fee and once as the chain transaction fee.
    pub withdrawal_fee: AssetAmount,
    /// The source balance owed at the final check:
    /// `deposit_amount + withdrawal_margin - 2 * withdrawal_fee`, that is
    /// two deposits minus the withdrawal and both fees.
    pub expected_final: AssetAmount,
    pub phase: PauseBridgePhase,
}

impl PauseBridgeScenario {
    /// Set up the scenario. Fails only when the expected remainder is not
    /// representable: the deposits plus margin overflow, or the fees exceed
    /// them.
    pub fn new(
        deposit_amount: AssetAmount,
        withdrawal_margin: AssetAmount,
        withdrawal_fee: AssetAmount,
    ) -> (r: Result<PauseBridgeScenario, ScenarioFault>)
        ensures
            match r {
                Ok(s) => {
                    &&& s.deposit_amount == deposit_amount
                    &&& s.withdrawal_margin == withdrawal_margin
                    &&& s.withdrawal_fee == withdrawal_fee
                    &&& s.phase == PauseBridgePhase::CheckingPrecondition
                    &&& deposit_amount.value() + withdrawal_margin.value()
                        < crate::amount::amount_bound()
                    &&& deposit_amount.value() + withdrawal_margin.value() >= 2
                        * withdrawal_fee.value()
                    &&& s.expected_final.value() == deposit_amount.value()
                        + withdrawal_margin.value() - 2 * withdrawal_fee.value()
                },
                Err(f) => {
                    &&& f == ScenarioFault::SetupFailure
                    &&& (deposit_amount.value() + withdrawal_margin.value()
                        >= crate::amount::amount_bound() || deposit_amount.value()
                        + withdrawal_margin.value() < 2 * withdrawal_fee.value())
                },
            },
    {
        let total = match deposit_amount.checked_add(&withdrawal_margin) {
            Some(t) => t,
            None => {
                return Err(ScenarioFault::SetupFailure);
            },
        };
        let after_one_fee = match total.checked_sub(&withdrawal_fee) {
            Some(t) => t,
            None => {
                return Err(ScenarioFault::SetupFailure);
            },
        };
        let expected_final = match after_one_fee.checked_sub(&withdrawal_fee) {
            Some(t) => t,
            None => {
                return Err(ScenarioFault::SetupFailure);
            },
        };
        Ok(
            PauseBridgeScenario {
                deposit_amount,
                withdrawal_margin,
                withdrawal_fee,
                expected_final,
                phase: PauseBridgePhase::CheckingPrecondition,
            },
        )
    }

    /// The outside action the scenario needs next, or `None` once it has
    /// concluded.
    pub fn next_action(&self) -> (r: Option<PauseBridgeAction>)
        ensures
            match self.phase {
                PauseBridgePhase::CheckingPrecondition => r == Some(
                    PauseBridgeAction::ReadBridgeActiveFlag,
                ),
                PauseBridgePhase::StartingAgents => r == Some(
                    PauseBridgeAction::StartAgentsWithoutBatchRequests,
                ),
                PauseBridgePhase::DepositingBeforePause => r == Some(
                    PauseBridgeAction::Deposit { amount: self.deposit_amount },
                ),
                PauseBridgePhase::Pausing => r == Some(
                    PauseBridgeAction::RunPauseController { make_active: false },
                ),
                PauseBridgePhase::AttemptingDepositWhilePaused => r == Some(
                    PauseBridgeAction::AttemptDeposit { amount: self.deposit_amount },
                ),
                PauseBridgePhase::QueryingBalanceWhilePaused => r == Some(
                    PauseBridgeAction::QuerySourceBalance,
                ),
                PauseBridgePhase::SubmittingWithdrawal { withdrawal_amount } => r == Some(
                    PauseBridgeAction::SubmitWithdrawal {
                        amount: withdrawal_amount,
                        fee: self.withdrawal_fee,
                    },
                ),
                PauseBridgePhase::RequestingBatchWhilePaused => r == Some(
                    PauseBridgeAction::RequestBatch,
                ),
                PauseBridgePhase::CheckingDestinationUnchanged => r == Some(
                    PauseBridgeAction::QueryDestinationBalance,
                ),
                PauseBridgePhase::Resuming => r == Some(
                    PauseBridgeAction::RunPauseController { make_active: true },
                ),
                PauseBridgePhase::CheckingFinalBalance => r == Some(
                    PauseBridgeAction::QuerySourceBalance,
                ),
                PauseBridgePhase::ReadingBatchNonce => r == Some(PauseBridgeAction::ReadBatchNonce),
                PauseBridgePhase::RequestingBatchAfterResume { .. } => r == Some(
                    PauseBridgeAction::RequestBatch,
                ),
                PauseBridgePhase::AwaitingBatchExecution { baseline } => r == Some(
                    PauseBridgeAction::WatchBatchNonce { baseline },
                ),
                PauseBridgePhase::Complete => r is None,
                PauseBridgePhase::Failed { .. } => r is None,
            },
    {
        match self.phase {
            PauseBridgePhase::CheckingPrecondition => Some(PauseBridgeAction::ReadBridgeActiveFlag),
            PauseBridgePhase::StartingAgents => Some(
                PauseBridgeAction::StartAgentsWithoutBatchRequests,
            ),
            PauseBridgePhase::DepositingBeforePause => Some(
                PauseBridgeAction::Deposit { amount: self.deposit_amount },
            ),
            PauseBridgePhase::Pausing => Some(
                PauseBridgeAction::RunPauseController { make_active: false },
            ),
            PauseBridgePhase::AttemptingDepositWhilePaused => Some(
                PauseBridgeAction::AttemptDeposit { amount: self.deposit_amount },
            ),
            PauseBridgePhase::QueryingBalanceWhilePaused => Some(
                PauseBridgeAction::QuerySourceBalance,
            ),
            PauseBridgePhase::SubmittingWithdrawal { withdrawal_amount } => Some(
                PauseBridgeAction::SubmitWithdrawal {
                    amount: withdrawal_amount,
                    fee: self.withdrawal_fee,
                },
            ),
            PauseBridgePhase::RequestingBatchWhilePaused => Some(PauseBridgeAction::RequestBatch),
            PauseBridgePhase::CheckingDestinationUnchanged => Some(
                PauseBridgeAction::QueryDestinationBalance,
            ),
            PauseBridgePhase::Resuming => Some(
                PauseBridgeAction::RunPauseController { make_active: true },
            ),
            PauseBridgePhase::CheckingFinalBalance => Some(PauseBridgeAction::QuerySourceBalance),
            PauseBridgePhase::ReadingBatchNonce => Some(PauseBridgeAction::ReadBatchNonce),
            PauseBridgePhase::RequestingBatchAfterResume { .. } => Some(
                PauseBridgeAction::RequestBatch,
            ),
            PauseBridgePhase::AwaitingBatchExecution { baseline } => Some(
                PauseBridgeAction::WatchBatchNonce { baseline },
            ),
            PauseBridgePhase::Complete => None,
            PauseBridgePhase::Failed { .. } => None,
        }
    }

    /// Everything one step of the scenario promises: the configured
    /// amounts are unchanged, and the phase moves exactly as the script
    /// prescribes. An event that does not answer the current phase's action
    /// leaves the phase unchanged.
    pub open spec fn step_post(pre: PauseBridgeScenario, post: PauseBridgeScenario, event: PauseBridgeEvent) -> bool {
    &&& (post.deposit_amount == pre.deposit_amount)
    &&& (post.withdrawal_margin == pre.withdrawal_margin)
    &&& (post.withdrawal_fee == pre.withdrawal_fee)
    &&& (post.expected_final == pre.expected_final)
    &&& (pre.phase == PauseBridgePhase::CheckingPrecondition ==> post.phase
                == match event {
                PauseBridgeEvent::BridgeActiveFlag(true) => PauseBridgePhase::StartingAgents,
                PauseBridgeEvent::BridgeActiveFlag(false) => PauseBridgePhase::Failed {
                    fault: ScenarioFault::DirtyStartingState,
                },
                _ => pre.phase,
            })
    &&& (pre.phase == PauseBridgePhase::StartingAgents ==> post.phase
                == match event {
                PauseBridgeEvent::AgentsStarted => PauseBridgePhase::DepositingBeforePause,
                _ => pre.phase,
            })
    &&& (pre.phase == PauseBridgePhase::DepositingBeforePause ==> post.phase
                == match event {
                PauseBridgeEvent::DepositOutcome(true) => PauseBridgePhase::Pausing,
                PauseBridgeEvent::DepositOutcome(false) => PauseBridgePhase::Failed {
                    fault: ScenarioFault::SetupFailure,
                },
                _ => pre.phase,
            })
    &&& (pre.phase == PauseBridgePhase::Pausing ==> post.phase == match event {
                PauseBridgeEvent::GovernanceConcluded(true) => {
                    PauseBridgePhase::AttemptingDepositWhilePaused
                },
                PauseBridgeEvent::GovernanceConcluded(false) => PauseBridgePhase::Failed {
                    fault: ScenarioFault::InvariantViolation,
                },
                _ => pre.phase,
            })
    &&& (pre.phase == PauseBridgePhase::AttemptingDepositWhilePaused ==> post.phase
                == match event {
                PauseBridgeEvent::DepositOutcome(true) => PauseBridgePhase::Failed {
                    fault: ScenarioFault::ExpectedRejectionViolated,
                },
                PauseBridgeEvent::DepositOutcome(false) => {
                    PauseBridgePhase::QueryingBalanceWhilePaused
                },
                _ => pre.phase,
            })
    &&& (pre.phase == PauseBridgePhase::QueryingBalanceWhilePaused ==> match event {
                PauseBridgeEvent::SourceBalance(Some(b)) => if b.value()
                    < pre.withdrawal_margin.value() {
                    post.phase == PauseBridgePhase::Failed {
                        fault: ScenarioFault::SetupFailure,
                    }
                } else {
                    post.phase matches PauseBridgePhase::SubmittingWithdrawal {
                        withdrawal_amount,
                    } && withdrawal_amount.value() == b.value()
                        - pre.withdrawal_margin.value()
                },
                PauseBridgeEvent::SourceBalance(None) => post.phase
                    == PauseBridgePhase::Failed { fault: ScenarioFault::SetupFailure },
                _ => post.phase == pre.phase,
            })
    &&& (pre.phase matches PauseBridgePhase::SubmittingWithdrawal { .. }
                ==> post.phase == match event {
                PauseBridgeEvent::WithdrawalSubmitted(true) => {
                    PauseBridgePhase::RequestingBatchWhilePaused
                },
                PauseBridgeEvent::WithdrawalSubmitted(false) => PauseBridgePhase::Failed {
                    fault: ScenarioFault::SetupFailure,
                },
                _ => pre.phase,
            })
    &&& (pre.phase == PauseBridgePhase::RequestingBatchWhilePaused ==> post.phase
                == match event {
                PauseBridgeEvent::BatchRequestOutcome(true) => PauseBridgePhase::Failed {
                    fault: ScenarioFault::ExpectedRejectionViolated,
                },
                PauseBridgeEvent::BatchRequestOutcome(false) => {
                    PauseBridgePhase::CheckingDestinationUnchanged
                },
                _ => pre.phase,
            })
    &&& (pre.phase == PauseBridgePhase::CheckingDestinationUnchanged ==> match event {
                PauseBridgeEvent::DestinationBalance(Some(b)) => if b.value() == 0 {
                    post.phase == PauseBridgePhase::Resuming
                } else {
                    post.phase == PauseBridgePhase::Failed {
                        fault: ScenarioFault::InvariantViolation,
                    }
                },
                PauseBridgeEvent::DestinationBalance(None) => post.phase
                    == PauseBridgePhase::Failed { fault: ScenarioFault::SetupFailure },
                _ => post.phase == pre.phase,
            })
    &&& (pre.phase == PauseBridgePhase::Resuming ==> post.phase == match event {
                PauseBridgeEvent::GovernanceConcluded(true) => PauseBridgePhase::CheckingFinalBalance,
                PauseBridgeEvent::GovernanceConcluded(false) => PauseBridgePhase::Failed {
                    fault: ScenarioFault::InvariantViolation,
                },
                _ => pre.phase,
            })
    &&& (pre.phase == PauseBridgePhase::CheckingFinalBalance ==> match event {
                PauseBridgeEvent::SourceBalance(Some(b)) => if b.value()
                    == pre.expected_final.value() {
                    post.phase == PauseBridgePhase::ReadingBatchNonce
                } else {
                    post.phase == PauseBridgePhase::Failed {
                        fault: ScenarioFault::InvariantViolation,
                    }
                },
                PauseBridgeEvent::SourceBalance(None) => post.phase
                    == PauseBridgePhase::Failed { fault: ScenarioFault::InvariantViolation },
                _ => post.phase == pre.phase,
            })
    &&& (pre.phase == PauseBridgePhase::ReadingBatchNonce ==> post.phase
                == match event {
                PauseBridgeEvent::BatchNonceBaseline(n) => {
                    PauseBridgePhase::RequestingBatchAfterResume { baseline: n }
                },
                _ => pre.phase,
            })
    &&& (forall|baseline: u64|
                pre.phase == (PauseBridgePhase::RequestingBatchAfterResume { baseline })
                    ==> post.phase == match event {
                    PauseBridgeEvent::BatchRequestOutcome(true) => {
                        PauseBridgePhase::AwaitingBatchExecution { baseline }
                    },
                    PauseBridgeEvent::BatchRequestOutcome(false) => PauseBridgePhase::Failed {
                        fault: ScenarioFault::SetupFailure,
                    },
                    _ => pre.phase,
                })
    &&& (forall|baseline: u64|
                pre.phase == (PauseBridgePhase::AwaitingBatchExecution { baseline })
                    ==> post.phase == match event {
                    PauseBridgeEvent::BatchWatchOutcome(PollOutcome::Observed(c)) => if c
                        != baseline {
                        PauseBridgePhase::Complete
                    } else {
                        PauseBridgePhase::Failed { fault: ScenarioFault::InvariantViolation }
                    },
                    PauseBridgeEvent::BatchWatchOutcome(PollOutcome::TimeoutExceeded) => {
                        PauseBridgePhase::Failed { fault: ScenarioFault::TimeoutExceeded }
                    },
                    _ => pre.phase,
                })
    &&& (pre.phase == PauseBridgePhase::Complete ==> post.phase == pre.phase)
    &&& (pre.phase matches PauseBridgePhase::Failed { .. } ==> post.phase == pre.phase)
    }

    /// While the bridge is paused, a single submission success is a
    /// scenario failure: zero tolerance.
    pub open spec fn paused_rejection_post(
        pre: PauseBridgeScenario,
        post: PauseBridgeScenario,
        event: PauseBridgeEvent,
    ) -> bool {
        ((pre.phase == PauseBridgePhase::AttemptingDepositWhilePaused && event
            == PauseBridgeEvent::DepositOutcome(true)) || (pre.phase
            == PauseBridgePhase::RequestingBatchWhilePaused && event
            == PauseBridgeEvent::BatchRequestOutcome(true))) ==> post.phase
            == (PauseBridgePhase::Failed { fault: ScenarioFault::ExpectedRejectionViolated })
    }

    /// The scenario passes its final balance check only on an exact match
    /// with the expected remainder, and completes only when the batch nonce
    /// moved off its baseline: the withdrawal batch was executed on the
    /// destination.
    pub open spec fn settlement_post(
        pre: PauseBridgeScenario,
        post: PauseBridgeScenario,
        event: PauseBridgeEvent,
    ) -> bool {
        &&& (pre.phase == PauseBridgePhase::CheckingFinalBalance && post.phase
            == PauseBridgePhase::ReadingBatchNonce ==> (event matches
        PauseBridgeEvent::SourceBalance(Some(b)) && b.value() == pre.expected_final.value()))
        &&& (!(pre.phase is Complete) && post.phase is Complete ==> (pre.phase matches
        PauseBridgePhase::AwaitingBatchExecution { baseline } && event matches
        PauseBridgeEvent::BatchWatchOutcome(PollOutcome::Observed(c)) && c != baseline))
    }

    /// Advance the scenario on one driver event.
    pub fn apply_event(&mut self, event: PauseBridgeEvent)
        ensures
            PauseBridgeScenario::step_post(*old(self), *final(self), event),
            PauseBridgeScenario::paused_rejection_post(*old(self), *final(self), event),
            PauseBridgeScenario::settlement_post(*old(self), *final(self), event),
    {
        let next = match (self.phase, event) {
            (PauseBridgePhase::CheckingPrecondition, PauseBridgeEvent::BridgeActiveFlag(f)) => if f {
                PauseBridgePhase::StartingAgents
            } else {
                PauseBridgePhase::Failed { fault: ScenarioFault::DirtyStartingState }
            },
            (PauseBridgePhase::StartingAgents, PauseBridgeEvent::AgentsStarted) => {
                PauseBridgePhase::DepositingBeforePause
            },
            (PauseBridgePhase::DepositingBeforePause, PauseBridgeEvent::DepositOutcome(ok)) => if ok {
                PauseBridgePhase::Pausing
            } else {
                PauseBridgePhase::Failed { fault: ScenarioFault::SetupFailure }
            },
            (PauseBridgePhase::Pausing, PauseBridgeEvent::GovernanceConcluded(ok)) => if ok {
                PauseBridgePhase::AttemptingDepositWhilePaused
            } else {
                PauseBridgePhase::Failed { fault: ScenarioFault::InvariantViolation }
            },
            (
                PauseBridgePhase::AttemptingDepositWhilePaused,
                PauseBridgeEvent::DepositOutcome(ok),
            ) => if ok {
                PauseBridgePhase::Failed { fault: ScenarioFault::ExpectedRejectionViolated }
            } else {
                PauseBridgePhase::QueryingBalanceWhilePaused
            },
            (PauseBridgePhase::QueryingBalanceWhilePaused, PauseBridgeEvent::SourceBalance(bal)) => {
                match bal {
                    Some(b) => match b.checked_sub(&self.withdrawal_margin) {
                        Some(withdrawal_amount) => PauseBridgePhase::SubmittingWithdrawal {
                            withdrawal_amount,
                        },
                        None => PauseBridgePhase::Failed { fault: ScenarioFault::SetupFailure },
                    },
                    None => PauseBridgePhase::Failed { fault: ScenarioFault::SetupFailure },
                }
            },
            (
                PauseBridgePhase::SubmittingWithdrawal { .. },
                PauseBridgeEvent::WithdrawalSubmitted(ok),
            ) => if ok {
                PauseBridgePhase::RequestingBatchWhilePaused
            } else {
                PauseBridgePhase::Failed { fault: ScenarioFault::SetupFailure }
            },
            (
                PauseBridgePhase::RequestingBatchWhilePaused,
                PauseBridgeEvent::BatchRequestOutcome(ok),
            ) => if ok {
                PauseBridgePhase::Failed { fault: ScenarioFault::ExpectedRejectionViolated }
            } else {
                PauseBridgePhase::CheckingDestinationUnchanged
            },
            (
                PauseBridgePhase::CheckingDestinationUnchanged,
                PauseBridgeEvent::DestinationBalance(bal),
            ) => match bal {
                Some(b) => if b.is_zero() {
                    PauseBridgePhase::Resuming
                } else {
                    PauseBridgePhase::Failed { fault: ScenarioFault::InvariantViolation }
                },
                None => PauseBridgePhase::Failed { fault: ScenarioFault::SetupFailure },
            },
            (PauseBridgePhase::Resuming, PauseBridgeEvent::GovernanceConcluded(ok)) => if ok {
                PauseBridgePhase::CheckingFinalBalance
            } else {
                PauseBridgePhase::Failed { fault: ScenarioFault::InvariantViolation }
            },
            (PauseBridgePhase::CheckingFinalBalance, PauseBridgeEvent::SourceBalance(bal)) => {
                match bal {
                    Some(b) => {
                        proof {
                            b.lemma_value_injective(self.expected_final);
                        }
                        if b == self.expected_final {
                            PauseBridgePhase::ReadingBatchNonce
                        } else {
                            PauseBridgePhase::Failed { fault: ScenarioFault::InvariantViolation }
                        }
                    },
                    None => PauseBridgePhase::Failed { fault: ScenarioFault::InvariantViolation },
                }
            },
            (PauseBridgePhase::ReadingBatchNonce, PauseBridgeEvent::BatchNonceBaseline(n)) => {
                PauseBridgePhase::RequestingBatchAfterResume { baseline: n }
            },
            (
                PauseBridgePhase::RequestingBatchAfterResume { baseline },
                PauseBridgeEvent::BatchRequestOutcome(ok),
            ) => if ok {
                PauseBridgePhase::AwaitingBatchExecution { baseline }
            } else {
                PauseBridgePhase::Failed { fault: ScenarioFault::SetupFailure }
            },
            (
                PauseBridgePhase::AwaitingBatchExecution { baseline },
                PauseBridgeEvent::BatchWatchOutcome(out),
            ) => match out {
                PollOutcome::Observed(c) => if c != baseline {
                    PauseBridgePhase::Complete
                } else {
                    PauseBridgePhase::Failed { fault: ScenarioFault::InvariantViolation }
                },
                PollOutcome::TimeoutExceeded => PauseBridgePhase::Failed {
                    fault: ScenarioFault::TimeoutExceeded,
                },
            },
            (p, _) => p,
        };
        self.phase = next;
    }
}

/// Zero tolerance while paused, as a consequence of the transition rules
/// alone: any step in which the chain accepts a deposit or a batch request
/// during the paused stretch of the script ends the scenario in failure.
pub proof fn lemma_pause_zero_tolerance(
    pre: PauseBridgeScenario,
    post: PauseBridgeScenario,
    event: PauseBridgeEvent,
)
    requires
        PauseBridgeScenario::step_post(pre, post, event),
    ensures
        PauseBridgeScenario::paused_rejection_post(pre, post, event),
{
}

/// Exact settlement, as a consequence of the transition rules alone: the
/// scenario passes its final balance check only on an exact match with the
/// expected remainder, and completes only after the batch nonce moved.
pub proof fn lemma_pause_exact_settlement(
    pre: PauseBridgeScenario,
    post: PauseBridgeScenario,
    event: PauseBridgeEvent,
)
    requires
        PauseBridgeScenario::step_post(pre, post, event),
    ensures
        PauseBridgeScenario::settlement_post(pre, post, event),
{
    match pre.phase {
        PauseBridgePhase::AwaitingBatchExecution { baseline } => {
            assert(pre.phase == (PauseBridgePhase::AwaitingBatchExecution { baseline }));
        },
        PauseBridgePhase::RequestingBatchAfterResume { baseline } => {
            assert(pre.phase == (PauseBridgePhase::RequestingBatchAfterResume { baseline }));
        },
        _ => {},
    }
}

} // verus!
