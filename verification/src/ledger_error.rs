//! The error values under which the ledger reports a contract's errors.

use vstd::prelude::*;

verus! {

/// The ledger's error type, `soroban_sdk::Error`: carried through, never
/// looked into.
#[verifier::external_type_specification]
#[verifier::external_body]
pub struct ExLedgerError(soroban_sdk::Error);

/// The ledger's error value for the contract error with number `code`.
pub uninterp spec fn contract_error(code: u32) -> soroban_sdk::Error;

/// Calls `soroban_sdk::Error::from_contract_error`, which packs `code` and
/// the mark of a contract error into one value. Trusted: that the value is
/// the same whenever the code is the same.
#[verifier::external_body]
pub(crate) fn from_contract_error(code: u32) -> (error: soroban_sdk::Error)
    ensures
        error == contract_error(code),
{
    soroban_sdk::Error::from_contract_error(code)
}

} // verus!
