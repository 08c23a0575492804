use vstd::prelude::*;
use crate::amount::AssetAmount;
use crate::fault::ScenarioFault;
use crate::poll::{await_first_found, PollPlan};

verus! {

/// Metadata of an asset whose source of truth lives on the source chain. A
/// destination-side representation adopted for it must carry the same name,
/// symbol and decimal precision, and must start with zero total supply.
#[derive(Clone, Debug)]
pub struct BridgedAssetMetadata {
    pub base: String,
    pub name: String,
    pub symbol: String,
    pub decimals: u32,
}

/// What the destination chain reports of an adopted asset representation.
#[derive(Clone, Debug)]
pub struct ObservedAssetProperties {
    pub name: String,
    pub symbol: String,
    pub decimals: u32,
    pub total_supply: AssetAmount,
}

/// The first property of an adopted representation found not to match the
/// source metadata. Any of these is a bridge bug, not a timing issue: it is
/// fatal and must never be retried.
#[derive(Clone, Copy, Debug, PartialEq, Eq, Structural)]
pub enum AdoptionFault {
    DecimalsMismatch,
    NameMismatch,
    SymbolMismatch,
    /// The representation existed with nonzero supply before the first
    /// deposit was processed.
    NonzeroSupply,
}

/// When a destination-side representation is acceptable for the source
/// metadata: name, symbol and decimal precision identical, and total supply
/// exactly zero — the representation must not pre-exist with supply before
/// the first deposit is processed.
pub open spec fn adoption_accepts(
    expected: BridgedAssetMetadata,
    observed: ObservedAssetProperties,
) -> bool {
    &&& observed.decimals == expected.decimals
    &&& observed.name@ == expected.name@
    &&& observed.symbol@ == expected.symbol@
    &&& observed.total_supply.value() == 0
}

/// Validate an adopted destination-side representation against the source
/// metadata: name, symbol and decimals must be identical, and the total
/// supply must be exactly zero. Reports the first mismatch, checking
/// decimals, then name, then symbol, then supply.
pub fn check_adoption(expected: &BridgedAssetMetadata, observed: &ObservedAssetProperties) -> (r:
    Result<(), AdoptionFault>)
    ensures
        r is Ok <==> adoption_accepts(*expected, *observed),
        r == Err::<(), _>(AdoptionFault::DecimalsMismatch) <==> observed.decimals
            != expected.decimals,
        r == Err::<(), _>(AdoptionFault::NameMismatch) <==> {
            &&& observed.decimals == expected.decimals
            &&& observed.name@ != expected.name@
        },
        r == Err::<(), _>(AdoptionFault::SymbolMismatch) <==> {
            &&& observed.decimals == expected.decimals
            &&& observed.name@ == expected.name@
            &&& observed.symbol@ != expected.symbol@
        },
        r == Err::<(), _>(AdoptionFault::NonzeroSupply) <==> {
            &&& observed.decimals == expected.decimals
            &&& observed.name@ == expected.name@
            &&& observed.symbol@ == expected.symbol@
            &&& observed.total_supply.value() != 0
        },
{
    if observed.decimals != expected.decimals {
        Err(AdoptionFault::DecimalsMismatch)
    } else if !observed.name.eq(&expected.name) {
        Err(AdoptionFault::NameMismatch)
    } else if !observed.symbol.eq(&expected.symbol) {
        Err(AdoptionFault::SymbolMismatch)
    } else if !observed.total_supply.is_zero() {
        Err(AdoptionFault::NonzeroSupply)
    } else {
        Ok(())
    }
}

/// The verifier never accepts a representation whose destination total
/// supply is nonzero when it is observed for the first time: acceptance
/// forces the supply to be exactly zero.
pub proof fn lemma_adoption_never_accepts_nonzero_supply(
    expected: BridgedAssetMetadata,
    observed: ObservedAssetProperties,
)
    requires
        adoption_accepts(expected, observed),
    ensures
        observed.total_supply.value() == 0,
{
}

/// Wait for the destination chain to expose a representation of a source
/// asset. `queries` holds one answer per poll tick of the query mapping the
/// source denomination to a destination asset handle; `None` is "not found
/// yet", which is transient, as is any other query error — adoption is
/// asynchronous and the destination ledger may lag the triggering event.
/// Returns the first handle found within the budget of `plan`, or a timeout
/// fault when adoption was never observed.
pub fn await_adoption<H: Copy>(queries: &Vec<Option<H>>, plan: PollPlan) -> (r: Result<
    H,
    ScenarioFault,
>)
    requires
        plan.wf(),
    ensures
        match r {
            Ok(h) => exists|i: int|
                0 <= i < queries@.len() && i < plan.spec_attempts() && queries@[i] == Some(h) && (
                forall|j: int| 0 <= j < i ==> queries@[j] is None),
            Err(f) => {
                &&& f == ScenarioFault::TimeoutExceeded
                &&& forall|i: int|
                    0 <= i < queries@.len() && i < plan.spec_attempts() ==> queries@[i] is None
            },
        },
{
    match await_first_found(queries, plan) {
        Some(h) => Ok(h),
        None => Err(ScenarioFault::TimeoutExceeded),
    }
}

/// After the transaction that deploys the representation contract, the
/// bridge contract's event nonce must have moved off its pre-deploy
/// baseline; an unchanged nonce means the deployment registered no event,
/// which is a setup failure, not a test outcome.
pub fn check_deploy_progress(baseline: u64, current: u64) -> (r: Result<(), ScenarioFault>)
    ensures
        r is Ok <==> current != baseline,
        r is Err ==> r == Err::<(), ScenarioFault>(ScenarioFault::SetupFailure),
{
    if current != baseline {
        Ok(())
    } else {
        Err(ScenarioFault::SetupFailure)
    }
}

} // verus!
