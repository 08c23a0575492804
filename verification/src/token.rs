use vstd::prelude::*;
use crate::amount::{amount_bound, amount_wire_ok, amount_wire_value, parse_amount_wire, AssetAmount};

verus! {

/// The raw bytes that a textual contract address parses to. The outside
/// parser's result depends on the characters alone.
pub uninterp spec fn eth_address_bytes(s: Seq<char>) -> Seq<u8>;

/// Whether the outside parser accepts a string as a contract address.
/// Acceptance, like the parsed bytes, depends on the characters alone.
pub uninterp spec fn eth_address_accepts(s: Seq<char>) -> bool;

/// Relies on clarity::Address::from_str, which accepts exactly the empty
/// string (the zero address) and a 40-digit hexadecimal spelling with or
/// without a leading "0x", returning an error rather than panicking on
/// every other input; and on clarity::Address::as_bytes, which hands out
/// the parsed address as its 20 raw bytes.
#[verifier::external_body]
fn parse_eth_address(s: &str) -> (r: Option<Vec<u8>>)
    ensures
        r is Some <==> eth_address_accepts(s@),
        r matches Some(b) ==> b@ == eth_address_bytes(s@) && b@.len() == 20,
{
    match s.parse::<clarity::Address>() {
        Ok(a) => Some(a.as_bytes().to_vec()),
        Err(_) => None,
    }
}

/// Why a wire-form token could not be read.
#[derive(Clone, Copy, Debug, PartialEq, Eq, Structural)]
pub enum TokenWireFault {
    /// The amount field is not a number, in decimal or 0x-prefixed
    /// hexadecimal, that fits in 256 bits.
    BadAmount,
    /// The contract field is not an address the parser accepts.
    BadAddress,
}

/// An amount of one destination-chain asset, tied to the contract address
/// of the representation it lives under.
#[derive(Clone, Debug)]
pub struct Erc20Token {
    pub amount: AssetAmount,
    pub token_contract_address: Vec<u8>,
}

impl Erc20Token {
    /// A token always carries a full 20-byte contract address.
    pub open spec fn wf(self) -> bool {
        self.token_contract_address@.len() == 20
    }

    /// Read a token from its wire form: the amount as decimal digit bytes
    /// or hexadecimal ones under a "0x" prefix, and the contract as a
    /// textual address. Succeeds exactly when the amount is a number of
    /// either spelling that fits in 256 bits and the address parser
    /// accepts the contract text; otherwise reports the first offending
    /// field, the amount checked first.
    pub fn from_wire(amount: &Vec<u8>, contract: &str) -> (r: Result<Erc20Token, TokenWireFault>)
        ensures
            r is Ok <==> {
                &&& amount_wire_ok(amount@)
                &&& amount_wire_value(amount@) < amount_bound()
                &&& eth_address_accepts(contract@)
            },
            match r {
                Ok(t) => {
                    &&& t.amount.value() == amount_wire_value(amount@)
                    &&& t.token_contract_address@ == eth_address_bytes(contract@)
                    &&& t.wf()
                },
                Err(TokenWireFault::BadAmount) => !amount_wire_ok(amount@) || amount_wire_value(
                    amount@,
                ) >= amount_bound(),
                Err(TokenWireFault::BadAddress) => {
                    &&& amount_wire_ok(amount@) && amount_wire_value(amount@) < amount_bound()
                    &&& !eth_address_accepts(contract@)
                },
            },
    {
        let parsed_amount = match parse_amount_wire(amount) {
            Some(a) => a,
            None => {
                return Err(TokenWireFault::BadAmount);
            },
        };
        proof {
            parsed_amount.lemma_value_bound();
        }
        match parse_eth_address(contract) {
            Some(token_contract_address) => Ok(
                Erc20Token { amount: parsed_amount, token_contract_address },
            ),
            None => Err(TokenWireFault::BadAddress),
        }
    }
}

} // verus!
