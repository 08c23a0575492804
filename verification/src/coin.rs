use vstd::prelude::*;
use crate::amount::AssetAmount;

verus! {

/// A source-chain coin: a denomination unique on the source chain and an
/// amount. Immutable once constructed; coins are told apart by denomination.
#[derive(Clone, Debug)]
pub struct Coin {
    pub denom: String,
    pub amount: AssetAmount,
}

impl Coin {
    pub fn new(denom: String, amount: AssetAmount) -> (r: Coin)
        ensures
            r.denom@ == denom@,
            r.amount == amount,
    {
        Coin { denom, amount }
    }

    /// Whether this coin carries the given denomination.
    pub fn has_denom(&self, denom: &String) -> (r: bool)
        ensures
            r == (self.denom@ == denom@),
    {
        self.denom.eq(denom)
    }
}

/// The amount of the first coin in `balances` carrying `denom`, or `None`
/// when no coin does — the check a scenario makes after funding a user, to
/// see whether the funding is visible on the source chain.
pub fn find_coin(balances: &Vec<Coin>, denom: &String) -> (r: Option<AssetAmount>)
    ensures
        match r {
            Some(a) => exists|i: int|
                0 <= i < balances@.len() && balances@[i].denom@ == denom@ && a
                    == balances@[i].amount && (forall|j: int|
                    0 <= j < i ==> balances@[j].denom@ != denom@),
            None => forall|i: int| 0 <= i < balances@.len() ==> balances@[i].denom@ != denom@,
        },
{
    let mut i: usize = 0;
    while i < balances.len()
        invariant
            0 <= i <= balances@.len(),
            forall|j: int| 0 <= j < i ==> balances@[j].denom@ != denom@,
        decreases balances@.len() - i,
    {
        if balances[i].has_denom(denom) {
            return Some(balances[i].amount);
        }
        i = i + 1;
    }
    None
}

} // verus!
