use bridge_harness::amount::AssetAmount;
use bridge_harness::fault::ScenarioFault;
use bridge_harness::happy_path::{
    await_arrival, await_funding, classify_destination_balance, HappyPathAction, HappyPathEvent,
    HappyPathPhase, HappyPathScenario,
};
use bridge_harness::pause_bridge::{
    PauseBridgeAction, PauseBridgeEvent, PauseBridgePhase, PauseBridgeScenario,
};
use bridge_harness::poll::{PollOutcome, PollPlan, ProbeResult};

fn plan(deadline: u64, interval: u64) -> PollPlan {
    PollPlan { deadline, interval }
}

#[test]
fn arrival_classification_policy() {
    let expected = AssetAmount::from_u64(1_000_000);
    assert_eq!(
        classify_destination_balance(&expected, &None),
        ProbeResult::NotYet
    );
    assert_eq!(
        classify_destination_balance(&expected, &Some(AssetAmount::zero())),
        ProbeResult::NotYet
    );
    assert_eq!(
        classify_destination_balance(&expected, &Some(expected)),
        ProbeResult::Terminal(expected)
    );
    // present but wrong: fatal, never retried
    assert_eq!(
        classify_destination_balance(&expected, &Some(AssetAmount::from_u64(999_999))),
        ProbeResult::Fatal
    );
}

#[test]
fn arrival_wait_exact_amount() {
    let expected = AssetAmount::from_u64(1_000_000);
    let observations = vec![None, Some(AssetAmount::zero()), Some(expected)];
    let got = await_arrival(&expected, &observations, plan(10, 1)).unwrap();
    assert_eq!(got, expected);
}

#[test]
fn arrival_wait_wrong_balance_is_fatal() {
    let expected = AssetAmount::from_u64(1_000_000);
    let observations = vec![None, Some(AssetAmount::from_u64(3))];
    let e = await_arrival(&expected, &observations, plan(10, 1)).unwrap_err();
    assert_eq!(e, ScenarioFault::InvariantViolation);
}

#[test]
fn arrival_wait_timeout() {
    let expected = AssetAmount::from_u64(1_000_000);
    let observations: Vec<Option<AssetAmount>> = vec![None; 20];
    let e = await_arrival(&expected, &observations, plan(10, 1)).unwrap_err();
    assert_eq!(e, ScenarioFault::TimeoutExceeded);
}

#[test]
fn happy_path_literal_transfer() {
    // the user is funded with 1,000,100 units of the asset and bridges
    // exactly 1,000,000 of them, handing a 1-unit fee coin twice
    let amount = AssetAmount::from_u64(1_000_000);
    let buffer = AssetAmount::from_u64(100);
    let fee = AssetAmount::from_u64(1);
    let mut s = HappyPathScenario::new(amount, buffer, fee).unwrap();

    // source remainder owed: the 100-unit buffer minus two 1-unit fees
    assert_eq!(s.expected_remainder, AssetAmount::from_u64(98));

    assert_eq!(
        s.next_action(),
        Some(HappyPathAction::DeployRepresentationAndAwaitAdoption)
    );
    s.apply_event(HappyPathEvent::AdoptionOutcome(Ok(())));

    assert_eq!(
        s.next_action(),
        Some(HappyPathAction::FundUser { amount: AssetAmount::from_u64(1_000_100) })
    );
    s.apply_event(HappyPathEvent::FundingSubmitted(true));

    assert_eq!(s.next_action(), Some(HappyPathAction::QuerySourceBalance));
    s.apply_event(HappyPathEvent::SourceBalance(Some(AssetAmount::from_u64(1_000_100))));

    assert_eq!(s.next_action(), Some(HappyPathAction::SendNativeDestinationFunds));
    s.apply_event(HappyPathEvent::NativeFundsSent);

    assert_eq!(s.next_action(), Some(HappyPathAction::SubmitTransfer { amount, fee }));
    s.apply_event(HappyPathEvent::TransferSubmitted(true));

    assert_eq!(
        s.next_action(),
        Some(HappyPathAction::PollDestinationBalance { expected: amount })
    );
    s.apply_event(HappyPathEvent::ArrivalOutcome(Ok(amount)));

    // destination balance after convergence is 1,000,000 exactly
    assert_eq!(
        s.phase,
        HappyPathPhase::CheckingSourceRemainder { destination_balance: amount }
    );
    assert_eq!(s.next_action(), Some(HappyPathAction::QuerySourceBalance));
    s.apply_event(HappyPathEvent::SourceBalance(Some(AssetAmount::from_u64(98))));

    assert_eq!(s.phase, HappyPathPhase::Complete { destination_balance: amount });
    assert_eq!(s.next_action(), None);
}

#[test]
fn happy_path_wrong_remainder_fails() {
    let amount = AssetAmount::from_u64(1_000_000);
    let mut s = HappyPathScenario::new(
        amount,
        AssetAmount::from_u64(100),
        AssetAmount::from_u64(1),
    )
    .unwrap();
    s.apply_event(HappyPathEvent::AdoptionOutcome(Ok(())));
    s.apply_event(HappyPathEvent::FundingSubmitted(true));
    s.apply_event(HappyPathEvent::SourceBalance(Some(AssetAmount::from_u64(1_000_100))));
    s.apply_event(HappyPathEvent::NativeFundsSent);
    s.apply_event(HappyPathEvent::TransferSubmitted(true));
    s.apply_event(HappyPathEvent::ArrivalOutcome(Ok(amount)));
    // a fee leaked into the user's remaining source balance
    s.apply_event(HappyPathEvent::SourceBalance(Some(AssetAmount::from_u64(97))));
    assert_eq!(
        s.phase,
        HappyPathPhase::Failed { fault: ScenarioFault::InvariantViolation }
    );
}

#[test]
fn funding_wait_returns_first_visible_balance() {
    let reads = vec![None, None, Some(AssetAmount::from_u64(1_000_100))];
    let b = await_funding(&reads, plan(10, 1)).unwrap();
    assert_eq!(b, AssetAmount::from_u64(1_000_100));
    let never: Vec<Option<AssetAmount>> = vec![None; 20];
    assert!(await_funding(&never, plan(10, 1)).is_none());
}

#[test]
fn happy_path_wrong_arrival_amount_fails() {
    let amount = AssetAmount::from_u64(1_000_000);
    let mut s = HappyPathScenario::new(
        amount,
        AssetAmount::from_u64(100),
        AssetAmount::from_u64(1),
    )
    .unwrap();
    s.apply_event(HappyPathEvent::AdoptionOutcome(Ok(())));
    s.apply_event(HappyPathEvent::FundingSubmitted(true));
    s.apply_event(HappyPathEvent::SourceBalance(Some(AssetAmount::from_u64(1_000_100))));
    s.apply_event(HappyPathEvent::NativeFundsSent);
    s.apply_event(HappyPathEvent::TransferSubmitted(true));
    s.apply_event(HappyPathEvent::ArrivalOutcome(Ok(AssetAmount::from_u64(999_999))));
    assert_eq!(
        s.phase,
        HappyPathPhase::Failed { fault: ScenarioFault::InvariantViolation }
    );
}

#[test]
fn happy_path_adoption_timeout_fails() {
    let mut s = HappyPathScenario::new(
        AssetAmount::from_u64(5),
        AssetAmount::from_u64(2),
        AssetAmount::from_u64(1),
    )
    .unwrap();
    s.apply_event(HappyPathEvent::AdoptionOutcome(Err(ScenarioFault::TimeoutExceeded)));
    assert_eq!(
        s.phase,
        HappyPathPhase::Failed { fault: ScenarioFault::TimeoutExceeded }
    );
}

#[test]
fn pause_bridge_literal_run() {
    // two deposits of 100 each; withdrawal of the queried balance minus 5,
    // with a 1-unit fee paid twice: the final source balance must be 103
    let deposit = AssetAmount::from_u64(100);
    let margin = AssetAmount::from_u64(5);
    let fee = AssetAmount::from_u64(1);
    let mut s = PauseBridgeScenario::new(deposit, margin, fee).unwrap();
    assert_eq!(s.expected_final, AssetAmount::from_u64(103));

    assert_eq!(s.next_action(), Some(PauseBridgeAction::ReadBridgeActiveFlag));
    s.apply_event(PauseBridgeEvent::BridgeActiveFlag(true));

    assert_eq!(
        s.next_action(),
        Some(PauseBridgeAction::StartAgentsWithoutBatchRequests)
    );
    s.apply_event(PauseBridgeEvent::AgentsStarted);

    assert_eq!(s.next_action(), Some(PauseBridgeAction::Deposit { amount: deposit }));
    s.apply_event(PauseBridgeEvent::DepositOutcome(true));

    assert_eq!(
        s.next_action(),
        Some(PauseBridgeAction::RunPauseController { make_active: false })
    );
    s.apply_event(PauseBridgeEvent::GovernanceConcluded(true));

    // the second deposit, attempted while paused, times out
    assert_eq!(
        s.next_action(),
        Some(PauseBridgeAction::AttemptDeposit { amount: deposit })
    );
    s.apply_event(PauseBridgeEvent::DepositOutcome(false));

    assert_eq!(s.next_action(), Some(PauseBridgeAction::QuerySourceBalance));
    s.apply_event(PauseBridgeEvent::SourceBalance(Some(AssetAmount::from_u64(100))));

    // withdrawal of 95 with a 1-unit fee
    assert_eq!(
        s.next_action(),
        Some(PauseBridgeAction::SubmitWithdrawal {
            amount: AssetAmount::from_u64(95),
            fee
        })
    );
    s.apply_event(PauseBridgeEvent::WithdrawalSubmitted(true));

    // the batch request is rejected while paused
    assert_eq!(s.next_action(), Some(PauseBridgeAction::RequestBatch));
    s.apply_event(PauseBridgeEvent::BatchRequestOutcome(false));

    assert_eq!(s.next_action(), Some(PauseBridgeAction::QueryDestinationBalance));
    s.apply_event(PauseBridgeEvent::DestinationBalance(Some(AssetAmount::zero())));

    assert_eq!(
        s.next_action(),
        Some(PauseBridgeAction::RunPauseController { make_active: true })
    );
    s.apply_event(PauseBridgeEvent::GovernanceConcluded(true));

    // 200 received in deposits, minus 95 withdrawn, minus the two fees
    assert_eq!(s.next_action(), Some(PauseBridgeAction::QuerySourceBalance));
    s.apply_event(PauseBridgeEvent::SourceBalance(Some(AssetAmount::from_u64(103))));

    assert_eq!(s.next_action(), Some(PauseBridgeAction::ReadBatchNonce));
    s.apply_event(PauseBridgeEvent::BatchNonceBaseline(41));

    assert_eq!(s.next_action(), Some(PauseBridgeAction::RequestBatch));
    s.apply_event(PauseBridgeEvent::BatchRequestOutcome(true));

    assert_eq!(
        s.next_action(),
        Some(PauseBridgeAction::WatchBatchNonce { baseline: 41 })
    );
    s.apply_event(PauseBridgeEvent::BatchWatchOutcome(PollOutcome::Observed(42)));

    assert_eq!(s.phase, PauseBridgePhase::Complete);
    assert_eq!(s.next_action(), None);
}

#[test]
fn pause_bridge_deposit_success_while_paused_fails() {
    let mut s = PauseBridgeScenario::new(
        AssetAmount::from_u64(100),
        AssetAmount::from_u64(5),
        AssetAmount::from_u64(1),
    )
    .unwrap();
    s.apply_event(PauseBridgeEvent::BridgeActiveFlag(true));
    s.apply_event(PauseBridgeEvent::AgentsStarted);
    s.apply_event(PauseBridgeEvent::DepositOutcome(true));
    s.apply_event(PauseBridgeEvent::GovernanceConcluded(true));
    // a deposit clearing while the bridge is paused is a scenario failure
    s.apply_event(PauseBridgeEvent::DepositOutcome(true));
    assert_eq!(
        s.phase,
        PauseBridgePhase::Failed { fault: ScenarioFault::ExpectedRejectionViolated }
    );
}

#[test]
fn pause_bridge_batch_acceptance_while_paused_fails() {
    let mut s = PauseBridgeScenario::new(
        AssetAmount::from_u64(100),
        AssetAmount::from_u64(5),
        AssetAmount::from_u64(1),
    )
    .unwrap();
    s.apply_event(PauseBridgeEvent::BridgeActiveFlag(true));
    s.apply_event(PauseBridgeEvent::AgentsStarted);
    s.apply_event(PauseBridgeEvent::DepositOutcome(true));
    s.apply_event(PauseBridgeEvent::GovernanceConcluded(true));
    s.apply_event(PauseBridgeEvent::DepositOutcome(false));
    s.apply_event(PauseBridgeEvent::SourceBalance(Some(AssetAmount::from_u64(100))));
    s.apply_event(PauseBridgeEvent::WithdrawalSubmitted(true));
    // the chain accepting a batch request while paused is a scenario failure
    s.apply_event(PauseBridgeEvent::BatchRequestOutcome(true));
    assert_eq!(
        s.phase,
        PauseBridgePhase::Failed { fault: ScenarioFault::ExpectedRejectionViolated }
    );
}

#[test]
fn pause_bridge_wrong_final_balance_fails() {
    let mut s = PauseBridgeScenario::new(
        AssetAmount::from_u64(100),
        AssetAmount::from_u64(5),
        AssetAmount::from_u64(1),
    )
    .unwrap();
    s.apply_event(PauseBridgeEvent::BridgeActiveFlag(true));
    s.apply_event(PauseBridgeEvent::AgentsStarted);
    s.apply_event(PauseBridgeEvent::DepositOutcome(true));
    s.apply_event(PauseBridgeEvent::GovernanceConcluded(true));
    s.apply_event(PauseBridgeEvent::DepositOutcome(false));
    s.apply_event(PauseBridgeEvent::SourceBalance(Some(AssetAmount::from_u64(100))));
    s.apply_event(PauseBridgeEvent::WithdrawalSubmitted(true));
    s.apply_event(PauseBridgeEvent::BatchRequestOutcome(false));
    s.apply_event(PauseBridgeEvent::DestinationBalance(Some(AssetAmount::zero())));
    s.apply_event(PauseBridgeEvent::GovernanceConcluded(true));
    s.apply_event(PauseBridgeEvent::SourceBalance(Some(AssetAmount::from_u64(104))));
    assert_eq!(
        s.phase,
        PauseBridgePhase::Failed { fault: ScenarioFault::InvariantViolation }
    );
}

#[test]
fn pause_bridge_inactive_at_start_is_dirty_state() {
    let mut s = PauseBridgeScenario::new(
        AssetAmount::from_u64(100),
        AssetAmount::from_u64(5),
        AssetAmount::from_u64(1),
    )
    .unwrap();
    s.apply_event(PauseBridgeEvent::BridgeActiveFlag(false));
    assert_eq!(
        s.phase,
        PauseBridgePhase::Failed { fault: ScenarioFault::DirtyStartingState }
    );
}
