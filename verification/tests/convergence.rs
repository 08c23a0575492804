use bridge_harness::adoption::{await_adoption, check_adoption, check_deploy_progress, AdoptionFault, BridgedAssetMetadata, ObservedAssetProperties};
use bridge_harness::amount::AssetAmount;
use bridge_harness::fault::ScenarioFault;
use bridge_harness::governance::{bridge_active_change, GovernanceAction, GovernanceEvent, GovernancePauseController, GovernancePhase};
use bridge_harness::poll::{run_poll, PollOutcome, PollPlan, ProbeResult};
use bridge_harness::watcher::{classify_counter_reading, watch_counter};

fn plan(deadline: u64, interval: u64) -> PollPlan {
    PollPlan { deadline, interval }
}

#[test]
fn plan_attempt_budget() {
    assert_eq!(plan(10, 4).attempts(), 3);
    assert_eq!(plan(0, 1).attempts(), 1);
    assert_eq!(plan(9, 3).attempts(), 4);
}

#[test]
fn poll_terminal_on_first_tick() {
    let trace = vec![ProbeResult::Terminal(5u64)];
    let r = run_poll(&trace, plan(10, 1)).unwrap();
    assert_eq!(r, PollOutcome::Observed(5));
    assert!(r.is_observed());
    assert!(!PollOutcome::<u64>::TimeoutExceeded.is_observed());
}

#[test]
fn poll_swallows_transient_then_converges() {
    let trace = vec![
        ProbeResult::NotYet,
        ProbeResult::NotYet,
        ProbeResult::Terminal(7u64),
    ];
    let r = run_poll(&trace, plan(10, 1)).unwrap();
    assert_eq!(r, PollOutcome::Observed(7));
}

#[test]
fn poll_fatal_aborts_immediately() {
    let trace = vec![ProbeResult::NotYet, ProbeResult::<u64>::Fatal, ProbeResult::Terminal(7)];
    let e = run_poll(&trace, plan(10, 1)).unwrap_err();
    assert_eq!(e, ScenarioFault::InvariantViolation);
}

#[test]
fn poll_times_out_when_only_transient() {
    let trace = vec![ProbeResult::<u64>::NotYet; 50];
    let r = run_poll(&trace, plan(10, 1)).unwrap();
    assert_eq!(r, PollOutcome::TimeoutExceeded);
}

#[test]
fn poll_ignores_terminal_past_deadline() {
    // deadline 3, interval 1: four attempts; the terminal report at tick
    // five falls past the deadline and must not be seen
    let mut trace = vec![ProbeResult::<u64>::NotYet; 5];
    trace.push(ProbeResult::Terminal(9));
    let r = run_poll(&trace, plan(3, 1)).unwrap();
    assert_eq!(r, PollOutcome::TimeoutExceeded);
}

#[test]
fn counter_classification_any_change_is_progress() {
    assert_eq!(classify_counter_reading(4, 9), ProbeResult::Terminal(9));
    assert_eq!(classify_counter_reading(4, 1), ProbeResult::Terminal(1));
    assert_eq!(classify_counter_reading(4, 4), ProbeResult::NotYet);
}

#[test]
fn watcher_succeeds_on_first_change() {
    let readings = vec![4, 4, 6, 7];
    let r = watch_counter(4, &readings, plan(10, 1));
    assert_eq!(r, PollOutcome::Observed(6));
}

#[test]
fn watcher_accepts_decreasing_change() {
    let readings = vec![4, 3];
    let r = watch_counter(4, &readings, plan(10, 1));
    assert_eq!(r, PollOutcome::Observed(3));
}

#[test]
fn watcher_times_out_on_unchanged_counter() {
    let readings = vec![4; 30];
    let r = watch_counter(4, &readings, plan(10, 1));
    assert_eq!(r, PollOutcome::TimeoutExceeded);
}

#[test]
fn watcher_never_false_success_past_deadline() {
    // the change at tick six falls past the deadline: timeout, not success
    let readings = vec![4, 4, 4, 4, 4, 4, 5];
    let r = watch_counter(4, &readings, plan(4, 1));
    assert_eq!(r, PollOutcome::TimeoutExceeded);
}

fn footoken_metadata() -> BridgedAssetMetadata {
    BridgedAssetMetadata {
        base: "footoken".to_string(),
        name: "Foo Token".to_string(),
        symbol: "FOO".to_string(),
        decimals: 6,
    }
}

fn good_observation() -> ObservedAssetProperties {
    ObservedAssetProperties {
        name: "Foo Token".to_string(),
        symbol: "FOO".to_string(),
        decimals: 6,
        total_supply: AssetAmount::zero(),
    }
}

#[test]
fn adoption_accepts_matching_metadata() {
    assert!(check_adoption(&footoken_metadata(), &good_observation()).is_ok());
}

#[test]
fn adoption_rejects_wrong_decimals() {
    let mut obs = good_observation();
    obs.decimals = 18;
    assert_eq!(
        check_adoption(&footoken_metadata(), &obs).unwrap_err(),
        AdoptionFault::DecimalsMismatch
    );
}

#[test]
fn adoption_rejects_wrong_name() {
    let mut obs = good_observation();
    obs.name = "Bar Token".to_string();
    assert_eq!(
        check_adoption(&footoken_metadata(), &obs).unwrap_err(),
        AdoptionFault::NameMismatch
    );
}

#[test]
fn adoption_rejects_wrong_symbol() {
    let mut obs = good_observation();
    obs.symbol = "BAR".to_string();
    assert_eq!(
        check_adoption(&footoken_metadata(), &obs).unwrap_err(),
        AdoptionFault::SymbolMismatch
    );
}

#[test]
fn adoption_rejects_preexisting_supply() {
    let mut obs = good_observation();
    obs.total_supply = AssetAmount::from_u64(1);
    assert_eq!(
        check_adoption(&footoken_metadata(), &obs).unwrap_err(),
        AdoptionFault::NonzeroSupply
    );
}

#[test]
fn adoption_wait_returns_first_handle() {
    let queries: Vec<Option<u32>> = vec![None, None, Some(11), Some(12)];
    let h = await_adoption(&queries, plan(10, 1)).unwrap();
    assert_eq!(h, 11);
}

#[test]
fn adoption_wait_times_out() {
    let queries: Vec<Option<u32>> = vec![None; 20];
    let e = await_adoption(&queries, plan(10, 1)).unwrap_err();
    assert_eq!(e, ScenarioFault::TimeoutExceeded);
}

#[test]
fn deploy_progress_requires_nonce_change() {
    assert!(check_deploy_progress(7, 8).is_ok());
    assert!(check_deploy_progress(7, 3).is_ok());
    assert_eq!(
        check_deploy_progress(7, 7).unwrap_err(),
        ScenarioFault::SetupFailure
    );
}

#[test]
fn governance_change_renders_flag_value() {
    let off = bridge_active_change(false);
    assert_eq!(off.subspace, "gravity");
    assert_eq!(off.key, "BridgeActive");
    assert_eq!(off.value, "false");
    let on = bridge_active_change(true);
    assert_eq!(on.value, "true");
}

#[test]
fn governance_controller_full_run() {
    let mut c = GovernancePauseController::new(false, 3);
    assert_eq!(c.next_action(), Some(GovernanceAction::SubmitProposal));
    c.apply_event(GovernanceEvent::ProposalSubmitted);
    for voter in 0..3usize {
        assert_eq!(c.next_action(), Some(GovernanceAction::CastApprovalVote(voter)));
        c.apply_event(GovernanceEvent::VoteCast);
    }
    assert_eq!(c.next_action(), Some(GovernanceAction::AwaitVotingPeriod));
    c.apply_event(GovernanceEvent::VotingPeriodElapsed);
    assert_eq!(c.next_action(), Some(GovernanceAction::ReadBridgeActiveFlag));
    c.apply_event(GovernanceEvent::FlagRead(false));
    assert_eq!(c.phase, GovernancePhase::Done { observed: false });
    assert_eq!(c.next_action(), None);
}

#[test]
fn governance_controller_rejects_stale_flag() {
    let mut c = GovernancePauseController::new(false, 0);
    c.apply_event(GovernanceEvent::ProposalSubmitted);
    c.apply_event(GovernanceEvent::VotingPeriodElapsed);
    // the flag still reads true: the requested value was never established
    c.apply_event(GovernanceEvent::FlagRead(true));
    assert_eq!(c.phase, GovernancePhase::Failed { observed: true });
}
